use msrx::device_data::DeviceData;
use msrx::data_format::DataFormat;
use msrx::msrx_tool_error::MsrxToolError;
use msrx::original_device_data::OriginalDeviceData;
use msrx::packet::{read_header_flag, read_last_flag, read_payload_length};
use msrx::raw_data::RawData;
use msrx::raw_device_data::RawDeviceData;

const FIRMWARE: [u8; 64] = *b"\xc9\x1b\x52\x45\x56\x54\x33\x2e\x31\x32\x00\x00\x00\x00\x00\x00\x00\x00\x00\x00\x00\x00\x00\x00\x00\x00\x00\x00\x00\x00\x00\x00\x00\x00\x00\x00\x00\x00\x00\x00\x00\x00\x00\x00\x00\x00\x00\x00\x00\x00\x00\x00\x00\x00\x00\x00\x00\x00\x00\x00\x00\x00\x00\x00";

fn packet_with(bytes: &[u8]) -> [u8; 64] {
    let mut data = [0u8; 64];
    data[..bytes.len()].copy_from_slice(bytes);
    data
}

#[test]
fn original_device_data_test_convert_raw_data_to_firmware_version() -> Result<(), MsrxToolError> {
    // content should be: REVT3.12
    let data = *b"\xc9\x1b\x52\x45\x56\x54\x33\x2e\x31\x32\x00\x00\x00\x00\x00\x00\x00\x00\x00\x00\x00\x00\x00\x00\x00\x00\x00\x00\x00\x00\x00\x00\x00\x00\x00\x00\x00\x00\x00\x00\x00\x00\x00\x00\x00\x00\x00\x00\x00\x00\x00\x00\x00\x00\x00\x00\x00\x00\x00\x00\x00\x00\x00\x00";
    let raw_data: OriginalDeviceData = data.try_into()?;

    assert_eq!(raw_data.to_string(), "REVT3.12");
    Ok(())
}

#[test]
fn raw_data_test_convert_raw_data_to_firmware_version() -> Result<(), MsrxToolError> {
    // content should be: REVT3.12
    let data = *b"\xc9\x1b\x52\x45\x56\x54\x33\x2e\x31\x32\x00\x00\x00\x00\x00\x00\x00\x00\x00\x00\x00\x00\x00\x00\x00\x00\x00\x00\x00\x00\x00\x00\x00\x00\x00\x00\x00\x00\x00\x00\x00\x00\x00\x00\x00\x00\x00\x00\x00\x00\x00\x00\x00\x00\x00\x00\x00\x00\x00\x00\x00\x00\x00\x00";
    let raw_data: RawData = data.try_into()?;

    assert_eq!(raw_data.to_string(), "REVT3.12");
    Ok(())
}

#[test]
fn raw_device_data_test_convert_raw_data_to_firmware_version() -> Result<(), MsrxToolError> {
    // content should be: REVT3.12
    let data = *b"\xc9\x1b\x52\x45\x56\x54\x33\x2e\x31\x32\x00\x00\x00\x00\x00\x00\x00\x00\x00\x00\x00\x00\x00\x00\x00\x00\x00\x00\x00\x00\x00\x00\x00\x00\x00\x00\x00\x00\x00\x00\x00\x00\x00\x00\x00\x00\x00\x00\x00\x00\x00\x00\x00\x00\x00\x00\x00\x00\x00\x00\x00\x00\x00\x00";
    let raw_data: RawDeviceData = data.try_into()?;

    assert_eq!(raw_data.to_string(), "REVT3.12");
    Ok(())
}

#[test]
fn header_byte_is_split_into_flags_and_length() {
    assert!(read_header_flag(0xc9));
    assert!(read_last_flag(0xc9));
    assert_eq!(read_payload_length(0xc9), 9);
    assert!(read_header_flag(0xbf));
    assert!(!read_last_flag(0xbf));
    assert_eq!(read_payload_length(0xbf), 63);
    assert!(!read_header_flag(0x6e));
    assert!(read_last_flag(0x6e));
    assert_eq!(read_payload_length(0x6e), 46);
    assert!(!read_header_flag(0x00));
    assert!(!read_last_flag(0x3f));
}

#[test]
fn packet_flags_follow_the_header_byte() {
    let packet = OriginalDeviceData::try_from(FIRMWARE).unwrap();
    assert!(packet.is_header);
    assert!(packet.is_last_packet);
    assert_eq!(packet.data, FIRMWARE);
    let packet = RawData::try_from(packet_with(&[0x80, 0x1b, 0x30])).unwrap();
    assert!(packet.is_header);
    assert!(!packet.is_last_packet);
    let packet = RawDeviceData::try_from(packet_with(&[0x41, 0x1b, 0x31])).unwrap();
    assert!(!packet.is_header);
    assert!(packet.is_last_packet);
    let packet = DeviceData::from_interrupt_data(FIRMWARE, &DataFormat::Iso).unwrap();
    assert!(packet.raw.is_header);
    assert!(packet.raw.is_last_packet);
    assert_eq!(packet.raw.data, FIRMWARE);
    assert_eq!(packet.format, DataFormat::Iso);
}

#[test]
fn stripped_data_runs_from_byte_two_to_the_announced_end() {
    let packet = OriginalDeviceData::try_from(FIRMWARE).unwrap();
    assert_eq!(packet.stripped_data(), b"REVT3.12".to_vec());
    let packet = RawData::try_from(packet_with(&[0xc1, 0x1b, 0x30])).unwrap();
    assert_eq!(packet.stripped_data(), Vec::<u8>::new());
    let packet = RawData::try_from(packet_with(&[0xc0, 0x1b, 0x30])).unwrap();
    assert_eq!(packet.stripped_data(), Vec::<u8>::new());
    let packet = RawDeviceData::try_from(packet_with(&[0xc2, 0x1b, 0x30])).unwrap();
    assert_eq!(packet.stripped_data(), vec![0x30]);
    let mut full = [0x41u8; 64];
    full[0] = 0xff;
    let packet = OriginalDeviceData::try_from(full).unwrap();
    assert_eq!(packet.stripped_data(), vec![0x41u8; 62]);
}

#[test]
fn acknowledgements_are_told_apart() {
    let ok = OriginalDeviceData::try_from(packet_with(&[0xc2, 0x1b, 0x30])).unwrap();
    assert!(ok.successful_read());
    assert!(ok.successful_operation());
    assert!(!ok.did_failed());
    let failed = RawData::try_from(packet_with(&[0xc2, 0x1b, 0x31])).unwrap();
    assert!(!failed.successful_read());
    assert!(failed.did_failed());
    let other = RawDeviceData::try_from(packet_with(&[0xc2, 0x1c, 0x30])).unwrap();
    assert!(!other.successful_read());
    assert!(!other.did_failed());
}
