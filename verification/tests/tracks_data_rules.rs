use msrx::data_format::DataFormat;
use msrx::iso_data::IsoData;
use msrx::msrx_tool_error::MsrxToolError;
use msrx::processing_format::ProcessingFormat;
use msrx::track_data::TrackData;
use msrx::track_status::TrackStatus;
use msrx::tracks_data::{TracksData, TRACK1_SUPPORTED_ASCII, TRACK2_3_SUPPORTED_ASCII};

fn error_of(result: Result<TracksData, MsrxToolError>) -> MsrxToolError {
    match result {
        Ok(_) => panic!("Expected an Err, got Ok"),
        Err(e) => e,
    }
}

fn bytes_error_of(result: Result<Vec<u8>, MsrxToolError>) -> MsrxToolError {
    match result {
        Ok(_) => panic!("Expected an Err, got Ok"),
        Err(e) => e,
    }
}

fn frame_with(bytes: &[u8]) -> Vec<u8> {
    let mut frame = bytes.to_vec();
    frame.resize(64, 0);
    frame
}

#[test]
fn validate_track_strips_the_sentinels() {
    let bytes = TracksData::validate_track(1, Some("%ABC123?"), 79, TRACK1_SUPPORTED_ASCII, '%', '?')
        .unwrap();
    assert_eq!(bytes, b"ABC123".to_vec());
    let bytes = TracksData::validate_track(2, Some(";?"), 40, TRACK2_3_SUPPORTED_ASCII, ';', '?')
        .unwrap();
    assert_eq!(bytes, Vec::<u8>::new());
}

#[test]
fn validate_track_gives_the_placeholder_for_no_text() {
    let bytes =
        TracksData::validate_track(1, None, 79, TRACK1_SUPPORTED_ASCII, '%', '?').unwrap();
    assert_eq!(bytes, vec![0x00]);
    let bytes =
        TracksData::validate_track(3, Some(""), 107, TRACK2_3_SUPPORTED_ASCII, ';', '?').unwrap();
    assert_eq!(bytes, vec![0x00]);
}

#[test]
fn validate_track_checks_length_then_characters_then_sentinels() {
    let long = "A".repeat(80);
    assert_eq!(
        bytes_error_of(TracksData::validate_track(
            1,
            Some(&long),
            79,
            TRACK1_SUPPORTED_ASCII,
            '%',
            '?'
        )),
        MsrxToolError::DataForTrackIsTooLong(1, 80, 79)
    );
    let just_fits = format!("%{}?", "A".repeat(77));
    assert_eq!(
        TracksData::validate_track(1, Some(&just_fits), 79, TRACK1_SUPPORTED_ASCII, '%', '?')
            .unwrap()
            .len(),
        77
    );
    // the length is counted in bytes
    let wide = "é".repeat(21);
    assert_eq!(
        bytes_error_of(TracksData::validate_track(
            2,
            Some(&wide),
            40,
            TRACK2_3_SUPPORTED_ASCII,
            ';',
            '?'
        )),
        MsrxToolError::DataForTrackIsTooLong(2, 42, 40)
    );
    assert_eq!(
        bytes_error_of(TracksData::validate_track(
            2,
            Some("a1?"),
            40,
            TRACK2_3_SUPPORTED_ASCII,
            ';',
            '?'
        )),
        MsrxToolError::InvalidTrackData(2, "0123456789:;<=>?".to_string())
    );
    assert_eq!(
        bytes_error_of(TracksData::validate_track(
            2,
            Some("\0"),
            40,
            TRACK2_3_SUPPORTED_ASCII,
            ';',
            '?'
        )),
        MsrxToolError::InvalidTrackData(2, "0123456789:;<=>?".to_string())
    );
    assert_eq!(
        bytes_error_of(TracksData::validate_track(
            3,
            Some("1?"),
            107,
            TRACK2_3_SUPPORTED_ASCII,
            ';',
            '?'
        )),
        MsrxToolError::InvalidStartSentinel(3, ';')
    );
    assert_eq!(
        bytes_error_of(TracksData::validate_track(
            3,
            Some(";"),
            107,
            TRACK2_3_SUPPORTED_ASCII,
            ';',
            '?'
        )),
        MsrxToolError::InvalidEndSentinel(3, '?')
    );
    assert_eq!(
        bytes_error_of(TracksData::validate_track(
            1,
            Some("?"),
            79,
            TRACK1_SUPPORTED_ASCII,
            '%',
            '?'
        )),
        MsrxToolError::InvalidStartSentinel(1, '%')
    );
}

#[test]
fn from_str_reports_the_first_track_that_breaks_a_rule() {
    assert_eq!(
        error_of(TracksData::from_str("%a?_1?_;1", &'_')),
        MsrxToolError::InvalidTrackData(1, TRACK1_SUPPORTED_ASCII.to_string())
    );
    assert_eq!(
        error_of(TracksData::from_str("%A?_1?_;1", &'_')),
        MsrxToolError::InvalidStartSentinel(2, ';')
    );
    assert_eq!(
        error_of(TracksData::from_str("%A?_;1?_;1", &'_')),
        MsrxToolError::InvalidEndSentinel(3, '?')
    );
}

#[test]
fn from_str_takes_empty_and_missing_tracks_as_placeholders() {
    let tracks = TracksData::from_str("", &'_').unwrap();
    assert_eq!(tracks.track1.data, vec![0x00]);
    assert_eq!(tracks.track2.data, vec![0x00]);
    assert_eq!(tracks.track3.data, vec![0x00]);
    assert_eq!(tracks.status, TrackStatus::ParsedFromInput);
    assert_eq!(tracks.track1.format, DataFormat::Iso);

    let tracks = TracksData::from_str("__;12?", &'_').unwrap();
    assert_eq!(tracks.track1.data, vec![0x00]);
    assert_eq!(tracks.track2.data, vec![0x00]);
    assert_eq!(tracks.track3.data, b"12".to_vec());

    let tracks = TracksData::from_str("%A?_", &'_').unwrap();
    assert_eq!(tracks.track1.data, b"A".to_vec());
    assert_eq!(tracks.track2.data, vec![0x00]);
    assert_eq!(tracks.track3.data, vec![0x00]);
}

#[test]
fn from_str_cuts_at_the_given_separator_and_ignores_a_fourth_piece() {
    let tracks = TracksData::from_str("%A_B?|;1?|;2?|whatever", &'|').unwrap();
    assert_eq!(tracks.track1.data, b"A_B".to_vec());
    assert_eq!(tracks.track2.data, b"1".to_vec());
    assert_eq!(tracks.track3.data, b"2".to_vec());
    let tracks = TracksData::from_str("%A?é;1?é;2?", &'é').unwrap();
    assert_eq!(tracks.track1.data, b"A".to_vec());
    assert_eq!(tracks.track2.data, b"1".to_vec());
    assert_eq!(tracks.track3.data, b"2".to_vec());
}

#[test]
fn processing_format_reads_text_with_the_default_separator() {
    let tracks = ProcessingFormat::Text.parse("%A?_;1?_;2?", &None).unwrap();
    assert_eq!(tracks.track1.data, b"A".to_vec());
    assert_eq!(tracks.track3.data, b"2".to_vec());
    let tracks = ProcessingFormat::Text.parse("%A?-;1?-;2?", &Some('-')).unwrap();
    assert_eq!(tracks.track2.data, b"1".to_vec());
    assert_eq!(
        error_of(ProcessingFormat::Text.parse("A", &None)),
        MsrxToolError::InvalidStartSentinel(1, '%')
    );
}

#[test]
fn as_packets_pads_an_empty_track_with_one_zero_byte() {
    let empty = TrackData { data: vec![], format: DataFormat::Iso };
    assert_eq!(empty.as_packets(), vec![0x00]);
    let some = TrackData { data: vec![0x31, 0x32], format: DataFormat::Raw };
    assert_eq!(some.as_packets(), vec![0x31, 0x32]);
}

#[test]
fn track_text_needs_the_iso_format_and_valid_utf8() {
    let text = TrackData { data: b";12?".to_vec(), format: DataFormat::Iso };
    assert_eq!(text.to_string().unwrap(), ";12?");
    let wide = TrackData { data: vec![0xc3, 0xa9], format: DataFormat::Iso };
    assert_eq!(wide.to_string().unwrap(), "é");
    let raw = TrackData { data: b";12?".to_vec(), format: DataFormat::Raw };
    assert_eq!(raw.to_string(), Err(MsrxToolError::UnsupportedDataFormat));
    let broken = TrackData { data: vec![0x41, 0xff], format: DataFormat::Iso };
    assert_eq!(broken.to_string(), Err(MsrxToolError::InvalidUtf8DataInTrack));
}

#[test]
fn scan_reads_segments_between_markers() {
    let frame = frame_with(&[
        0xd3, 0x1b, 0x73, 0x1b, 0x01, 0x25, 0x41, 0x3f, 0x1b, 0x02, 0x1b, 0x03, 0x3b, 0x3f, 0x3f,
        0x1c, 0x1b, 0x39,
    ]);
    let tracks = TracksData::from_frame(&frame).unwrap();
    assert_eq!(tracks.track1.data, b"%A?".to_vec());
    assert_eq!(tracks.track2.data, Vec::<u8>::new());
    assert_eq!(tracks.track3.data, b";?".to_vec());
    assert_eq!(tracks.status, TrackStatus::InvalidCardSwipeOnWrite);
    assert_eq!(tracks.track1.format, DataFormat::Iso);
}

#[test]
fn scan_refuses_frames_that_are_no_card_data() {
    let refused = |bytes: &[u8]| {
        assert_eq!(
            error_of(TracksData::from_frame(&bytes.to_vec())),
            MsrxToolError::RawDataNotCardData
        );
    };
    refused(&[]);
    refused(&[0xd3, 0x1b, 0x73]);
    // an acknowledgement
    refused(&frame_with(&[0xc2, 0x1b, 0x30]));
    // track 1 does not open the block
    refused(&frame_with(&[0xd3, 0x1b, 0x73, 0x00, 0x1b, 0x01, 0x1b, 0x02, 0x1b, 0x03, 0x3f, 0x1c, 0x1b, 0x30]));
    // track 3 before track 2
    refused(&frame_with(&[0xd3, 0x1b, 0x73, 0x1b, 0x01, 0x1b, 0x03, 0x1b, 0x02, 0x3f, 0x1c, 0x1b, 0x30]));
    // track 1 twice
    refused(&frame_with(&[0xd3, 0x1b, 0x73, 0x1b, 0x01, 0x1b, 0x01, 0x1b, 0x02, 0x1b, 0x03, 0x3f, 0x1c, 0x1b, 0x30]));
    // the block ends before track 3
    refused(&frame_with(&[0xd3, 0x1b, 0x73, 0x1b, 0x01, 0x1b, 0x02, 0x3f, 0x1c, 0x1b, 0x30]));
    // no end of block
    refused(&frame_with(&[0xd3, 0x1b, 0x73, 0x1b, 0x01, 0x1b, 0x02, 0x1b, 0x03, 0x3f, 0x1c, 0x1a, 0x30]));
    // no status byte behind the end of the block
    refused(&[0xd3, 0x1b, 0x73, 0x1b, 0x01, 0x1b, 0x02, 0x1b, 0x03, 0x3f, 0x1c, 0x1b]);
    assert_eq!(error_of(TracksData::try_from(vec![])), MsrxToolError::RawDataNotCardData);
}

#[test]
fn scan_takes_a_status_byte_at_the_very_end() {
    let frame = vec![0xd3, 0x1b, 0x73, 0x1b, 0x01, 0x1b, 0x02, 0x1b, 0x03, 0x3f, 0x1c, 0x1b, 0x32];
    let tracks = TracksData::from_frame(&frame).unwrap();
    assert_eq!(tracks.status, TrackStatus::CommandFormatError);
    assert_eq!(tracks.track3.data, Vec::<u8>::new());
}

#[test]
fn status_bytes_map_to_statuses() {
    assert_eq!(TrackStatus::from(0x30), TrackStatus::Success);
    assert_eq!(TrackStatus::from(0x31), TrackStatus::WriteOrReadError);
    assert_eq!(TrackStatus::from(0x32), TrackStatus::CommandFormatError);
    assert_eq!(TrackStatus::from(0x33), TrackStatus::Unknown);
    assert_eq!(TrackStatus::from(0x34), TrackStatus::InvalidCommand);
    assert_eq!(TrackStatus::from(0x39), TrackStatus::InvalidCardSwipeOnWrite);
    assert_eq!(TrackStatus::from(0x00), TrackStatus::Unknown);
    assert_eq!(TrackStatus::from(0xff), TrackStatus::Unknown);
}

#[test]
fn packets_of_a_read_are_put_together_before_the_scan() {
    let mut first = [0x41u8; 64];
    first[..5].copy_from_slice(&[0xbf, 0x1b, 0x73, 0x1b, 0x01]);
    let mut second = [0u8; 64];
    second[..10].copy_from_slice(&[0x49, 0x42, 0x1b, 0x02, 0x1b, 0x03, 0x3f, 0x1c, 0x1b, 0x30]);
    let packets = vec![
        IsoData { raw: first.try_into().unwrap() },
        IsoData { raw: second.try_into().unwrap() },
    ];
    let tracks = TracksData::try_from(packets).unwrap();
    let mut expected = vec![0x41u8; 59];
    expected.push(0x42);
    assert_eq!(tracks.track1.data, expected);
    assert_eq!(tracks.status, TrackStatus::Success);
}
