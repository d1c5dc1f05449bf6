use msrx::data_format::DataFormat;
use msrx::input::InputFormat;
use msrx::msrx_tool_error::MsrxToolError;
use msrx::output::{format_combined, OutputFormat};
use msrx::reverse_string::ReverseString;
use msrx::text::{has_char, same_text};
use msrx::to_hex::{hex_of, ToHex};
use msrx::track_data::TrackData;
use msrx::track_status::TrackStatus;
use msrx::tracks_data::TracksData;

fn card() -> TracksData {
    TracksData {
        track1: TrackData { data: b"%A?".to_vec(), format: DataFormat::Iso },
        track2: TrackData { data: b";1?".to_vec(), format: DataFormat::Iso },
        track3: TrackData { data: vec![], format: DataFormat::Iso },
        status: TrackStatus::Success,
    }
}

#[test]
fn data_formats_are_named_iso_and_raw() {
    assert_eq!(DataFormat::parse("iso"), Ok(DataFormat::Iso));
    assert_eq!(DataFormat::parse("raw"), Ok(DataFormat::Raw));
    assert_eq!(DataFormat::parse("ISO"), Err(MsrxToolError::UnsupportedDataFormat));
    assert_eq!(DataFormat::parse(""), Err(MsrxToolError::UnsupportedDataFormat));
    assert_eq!("raw".parse::<DataFormat>(), Ok(DataFormat::Raw));
    assert_eq!("is".parse::<DataFormat>(), Err(MsrxToolError::UnsupportedDataFormat));
}

#[test]
fn output_formats_are_named_json_and_combined() {
    assert_eq!(OutputFormat::parse("json"), Ok(OutputFormat::Json));
    assert_eq!(OutputFormat::parse("combined"), Ok(OutputFormat::Combined));
    assert_eq!(OutputFormat::parse("stdout"), Err(MsrxToolError::UnsupportedOutputFormat));
    assert_eq!("combined".parse::<OutputFormat>(), Ok(OutputFormat::Combined));
}

#[test]
fn the_input_format_is_named_combined() {
    assert_eq!(InputFormat::parse("combined"), Ok(InputFormat::Combined));
    assert_eq!(InputFormat::parse("json"), Err(MsrxToolError::UnsupportedInputFormat));
    assert_eq!("combined".parse::<InputFormat>(), Ok(InputFormat::Combined));
}

#[test]
fn combined_output_joins_the_tracks() {
    let tracks = card();
    assert_eq!(msrx::output::format(&tracks, &OutputFormat::Combined, &None), "%A?_;1?_");
    assert_eq!(msrx::output::format(&tracks, &OutputFormat::Combined, &Some('|')), "%A?|;1?|");
    assert_eq!(format_combined(&tracks, &Some(' ')), "%A? ;1? ");
    assert_eq!(msrx::input::format(&tracks, &InputFormat::Combined, &Some('é')), "%A?é;1?é");
}

#[test]
fn bytes_print_as_hex_pairs() {
    assert_eq!(vec![0x1bu8, 0x73, 0x00, 0xff, 0x0a].to_hex(), "1b 73 00 ff 0a");
    assert_eq!(vec![0xa0u8].to_hex(), "a0");
    assert_eq!(Vec::<u8>::new().to_hex(), "");
    assert_eq!(hex_of(&[0x9f, 0x10]), "9f 10");
    let mut packet = [0u8; 64];
    packet[0] = 0xc2;
    assert!(packet.to_hex().starts_with("c2 00 00"));
    assert_eq!(packet.to_hex().len(), 64 * 3 - 1);
}

#[test]
fn text_is_reversed_by_characters() {
    assert_eq!("1100100".reverse(), "0010011");
    assert_eq!("".reverse(), "");
    assert_eq!("aé1".to_string().reverse(), "1éa");
}

#[test]
fn text_helpers_compare_and_search() {
    assert!(same_text("iso", "iso"));
    assert!(!same_text("iso", "isO"));
    assert!(!same_text("iso", "is"));
    assert!(same_text("", ""));
    assert!(has_char("0123456789:;<=>?", ';'));
    assert!(!has_char("0123456789:;<=>?", '%'));
    assert!(!has_char("", 'a'));
}
