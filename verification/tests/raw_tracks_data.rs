use msrx::data_format::DataFormat;
use msrx::msrx_tool_error::MsrxToolError;
use msrx::raw_data::RawData;
use msrx::raw_tracks_data::RawTracksData;
use msrx::track_status::TrackStatus;

fn packet_with(bytes: &[u8]) -> [u8; 64] {
    let mut data = [0u8; 64];
    data[..bytes.len()].copy_from_slice(bytes);
    data
}

#[test]
fn test_convert_raw_data_to_raw_track_data_status_ok() -> Result<(), MsrxToolError> {
    // Track 1 and Track 2 doesn't contain ant data, Track  3 data is: "1"
    let data = *b"\xd3\x1b\x73\x1b\x01\x00\x1b\x02\x00\x1b\x03\x04\xaf\xc2\xb0\x00\x3f\x1c\x1b\x30\x00\x00\x00\x00\x00\x00\x00\x00\x00\x00\x00\x00\x00\x00\x00\x00\x00\x00\x00\x00\x00\x00\x00\x00\x00\x00\x00\x00\x00\x00\x00\x00\x00\x00\x00\x00\x00\x00\x00\x00\x00\x00\x00\x00";
    let raw_data: RawData = data.try_into()?;
    let raw_track_data: RawTracksData = RawTracksData::try_from_packet(raw_data)?;

    assert_eq!(raw_track_data.status, TrackStatus::Success);
    Ok(())
}

#[test]
fn test_convert_raw_data_to_raw_track_data_status_write_or_read_error() -> Result<(), MsrxToolError>
{
    // Track 1 and Track 2 doesn't contain ant data, Track  3 data is: "1"
    let data =
        *b"\xd3\x1b\x73\x1b\x01\x00\x1b\x02\x00\x1b\x03\x04\xaf\xc2\xb0\x00\x3f\x1c\x1b\x31\x00\x00\x00\x00\x00\x00\x00\x00\x00\x00\x00\x00\x00\x00\x00\x00\x00\x00\x00\x00\x00\x00\x00\x00\x00\x00\x00\x00\x00\x00\x00\x00\x00\x00\x00\x00\x00\x00\x00\x00\x00\x00\x00\x00";

    let raw_data: RawData = data.try_into()?;
    let raw_track_data: RawTracksData = RawTracksData::try_from_packet(raw_data)?;

    assert_eq!(raw_track_data.status, TrackStatus::WriteOrReadError);
    Ok(())
}

#[test]
fn test_convert_raw_data_to_raw_track_data_status_command_format_error(
) -> Result<(), MsrxToolError> {
    // Track 1 and Track 2 doesn't contain ant data, Track  3 data is: "1"
    let data =
        *b"\xd3\x1b\x73\x1b\x01\x00\x1b\x02\x00\x1b\x03\x04\xaf\xc2\xb0\x00\x3f\x1c\x1b\x32\x00\x00\x00\x00\x00\x00\x00\x00\x00\x00\x00\x00\x00\x00\x00\x00\x00\x00\x00\x00\x00\x00\x00\x00\x00\x00\x00\x00\x00\x00\x00\x00\x00\x00\x00\x00\x00\x00\x00\x00\x00\x00\x00\x00";
    let raw_data: RawData = data.try_into()?;
    let raw_track_data: RawTracksData = RawTracksData::try_from_packet(raw_data)?;

    assert_eq!(raw_track_data.status, TrackStatus::CommandFormatError);
    Ok(())
}

#[test]
fn test_convert_raw_data_to_raw_track_data_status_invalid_command() -> Result<(), MsrxToolError> {
    // Track 1 and Track 2 doesn't contain ant data, Track  3 data is: "1"
    let data =
        *b"\xd3\x1b\x73\x1b\x01\x00\x1b\x02\x00\x1b\x03\x04\xaf\xc2\xb0\x00\x3f\x1c\x1b\x34\x00\x00\x00\x00\x00\x00\x00\x00\x00\x00\x00\x00\x00\x00\x00\x00\x00\x00\x00\x00\x00\x00\x00\x00\x00\x00\x00\x00\x00\x00\x00\x00\x00\x00\x00\x00\x00\x00\x00\x00\x00\x00\x00\x00";
    let raw_data: RawData = data.try_into()?;
    let raw_track_data: RawTracksData = RawTracksData::try_from_packet(raw_data)?;

    assert_eq!(raw_track_data.status, TrackStatus::InvalidCommand);
    Ok(())
}

#[test]
fn test_convert_raw_data_to_raw_track_data_status_invalid_card_swipe() -> Result<(), MsrxToolError>
{
    // Track 1 and Track 2 doesn't contain ant data, Track  3 data is: "1"
    let data =
        *b"\xd3\x1b\x73\x1b\x01\x00\x1b\x02\x00\x1b\x03\x04\xaf\xc2\xb0\x00\x3f\x1c\x1b\x39\x00\x00\x00\x00\x00\x00\x00\x00\x00\x00\x00\x00\x00\x00\x00\x00\x00\x00\x00\x00\x00\x00\x00\x00\x00\x00\x00\x00\x00\x00\x00\x00\x00\x00\x00\x00\x00\x00\x00\x00\x00\x00\x00\x00";
    let raw_data: RawData = data.try_into()?;
    let raw_track_data: RawTracksData = RawTracksData::try_from_packet(raw_data)?;

    assert_eq!(raw_track_data.status, TrackStatus::InvalidCardSwipeOnWrite);
    Ok(())
}

#[test]
fn raw_tracks_data_test_multiple_raw_datas_to_raw_tracks_data() -> Result<(), MsrxToolError> {
    let data1 = *b"\xbf\x1b\x73\x1b\x01\x2a\x51\x43\x67\x13\x32\x73\x0b\x2a\x6b\x1a\x46\x76\x52\x26\x16\x4f\x57\x4a\x7a\x07\x2f\x0e\x62\x37\x23\x3b\x5b\x45\x25\x64\x15\x54\x34\x75\x0d\x4c\x04\x7c\x01\x00\x00\x00\x1b\x02\x1a\x1a\x01\x13\x02\x1c\x0d\x15\x04\x19\x08\x10\x01\x13";
    let data2 = *b"\x6e\x02\x1c\x0d\x15\x04\x19\x08\x10\x1f\x04\x00\x00\x00\x1b\x03\x1a\x1a\x01\x10\x08\x19\x04\x15\x0d\x1c\x02\x13\x01\x10\x08\x19\x04\x15\x0d\x1c\x02\x13\x1f\x04\x00\x00\x00\x3f\x1c\x1b\x30\x00\x1b\x02\x1a\x1a\x01\x13\x02\x1c\x0d\x15\x04\x19\x08\x10\x01\x13";

    let raw_data1: RawData = data1.try_into()?;
    let raw_data2: RawData = data2.try_into()?;
    let raw_track_data: RawTracksData = RawTracksData::try_from(vec![raw_data1, raw_data2])?;

    assert_eq!(raw_track_data.status, TrackStatus::Success);

    Ok(())
}

#[test]
fn counted_segments_are_read_by_their_length_bytes() {
    let data = packet_with(&[
        0xd3, 0x1b, 0x73, 0x1b, 0x01, 0x00, 0x1b, 0x02, 0x00, 0x1b, 0x03, 0x04, 0xaf, 0xc2, 0xb0,
        0x00, 0x3f, 0x1c, 0x1b, 0x30,
    ]);
    let packet = RawData::try_from(data).unwrap();
    let tracks = RawTracksData::try_from_packet(packet).unwrap();
    assert_eq!(tracks.status, TrackStatus::Success);
    assert_eq!(tracks.track1.data, Vec::<u8>::new());
    assert_eq!(tracks.track2.data, Vec::<u8>::new());
    assert_eq!(tracks.track3.data, vec![0xaf, 0xc2, 0xb0, 0x00]);
    assert_eq!(tracks.track3.format, DataFormat::Raw);
    assert_eq!(tracks.raw_data.len(), 1);
    assert_eq!(tracks.raw_data[0].raw_data, data);
}

#[test]
fn counted_segments_may_span_packets() {
    let data1 = *b"\xbf\x1b\x73\x1b\x01\x2a\x51\x43\x67\x13\x32\x73\x0b\x2a\x6b\x1a\x46\x76\x52\x26\x16\x4f\x57\x4a\x7a\x07\x2f\x0e\x62\x37\x23\x3b\x5b\x45\x25\x64\x15\x54\x34\x75\x0d\x4c\x04\x7c\x01\x00\x00\x00\x1b\x02\x1a\x1a\x01\x13\x02\x1c\x0d\x15\x04\x19\x08\x10\x01\x13";
    let data2 = *b"\x6e\x02\x1c\x0d\x15\x04\x19\x08\x10\x1f\x04\x00\x00\x00\x1b\x03\x1a\x1a\x01\x10\x08\x19\x04\x15\x0d\x1c\x02\x13\x01\x10\x08\x19\x04\x15\x0d\x1c\x02\x13\x1f\x04\x00\x00\x00\x3f\x1c\x1b\x30\x00\x1b\x02\x1a\x1a\x01\x13\x02\x1c\x0d\x15\x04\x19\x08\x10\x01\x13";
    let tracks = RawTracksData::try_from(vec![
        RawData::try_from(data1).unwrap(),
        RawData::try_from(data2).unwrap(),
    ])
    .unwrap();
    assert_eq!(tracks.track1.data, data1[6..48].to_vec());
    let mut track2 = data1[51..].to_vec();
    track2.extend_from_slice(&data2[1..14]);
    assert_eq!(tracks.track2.data, track2);
    assert_eq!(tracks.track3.data, data2[17..43].to_vec());
    assert_eq!(tracks.raw_data.len(), 2);
}

#[test]
fn frames_that_are_no_card_data_are_refused() {
    let refused = |bytes: &[u8]| {
        let packet = RawData::try_from(packet_with(bytes)).unwrap();
        match RawTracksData::try_from_packet(packet) {
            Err(e) => assert_eq!(e, MsrxToolError::RawDataNotCardData),
            Ok(_) => panic!("Expected an Err, got Ok"),
        }
    };
    // no start field
    refused(&[0xd3, 0x1b, 0x30]);
    // tracks out of order
    refused(&[0xd3, 0x1b, 0x73, 0x1b, 0x02, 0x00, 0x1b, 0x01, 0x00, 0x1b, 0x03, 0x00, 0x3f, 0x1c, 0x1b, 0x30]);
    // no end of block
    refused(&[0xd3, 0x1b, 0x73, 0x1b, 0x01, 0x00, 0x1b, 0x02, 0x00, 0x1b, 0x03, 0x00, 0x3f, 0x1d, 0x1b, 0x30]);
    // a length byte that reaches past the frame
    refused(&[0xd3, 0x1b, 0x73, 0x1b, 0x01, 0xff, 0x1b, 0x02, 0x00, 0x1b, 0x03, 0x00, 0x3f, 0x1c, 0x1b, 0x30]);
    match RawTracksData::try_from(vec![]) {
        Err(e) => assert_eq!(e, MsrxToolError::RawDataNotCardData),
        Ok(_) => panic!("Expected an Err, got Ok"),
    }
}

#[test]
fn status_byte_may_be_the_last_byte_of_the_frame() {
    let mut data = [0x41u8; 64];
    data[0] = 0xff;
    data[1] = 0x1b;
    data[2] = 0x73;
    data[3] = 0x1b;
    data[4] = 0x01;
    data[5] = 47;
    data[53] = 0x1b;
    data[54] = 0x02;
    data[55] = 0;
    data[56] = 0x1b;
    data[57] = 0x03;
    data[58] = 1;
    data[60] = 0x3f;
    data[61] = 0x1c;
    data[62] = 0x1b;
    data[63] = 0x7f;
    let tracks = RawTracksData::try_from_packet(RawData::try_from(data).unwrap()).unwrap();
    assert_eq!(tracks.status, TrackStatus::Unknown);
    assert_eq!(tracks.track1.data, vec![0x41u8; 47]);
    assert_eq!(tracks.track3.data, vec![0x41u8]);
}
