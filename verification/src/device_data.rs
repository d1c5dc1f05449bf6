use vstd::prelude::*;
use crate::data_format::DataFormat;
use crate::msrx_tool_error::MsrxToolError;
use crate::original_device_data::OriginalDeviceData;
use crate::packet::{read_header_flag, read_last_flag};

verus! {

/// A packet together with the format its payload is to be read in.
#[derive(Debug, Copy, Clone)]
pub struct DeviceData {
    pub raw: OriginalDeviceData,
    pub format: DataFormat,
}

impl DeviceData {
    /// The packet that 64 received bytes make up, to be read in `data_format`.
    pub fn from_interrupt_data(data: [u8; 64], data_format: &DataFormat) -> (result: Result<
        Self,
        MsrxToolError,
    >)
        ensures
            result == Ok::<Self, MsrxToolError>(
                DeviceData { raw: OriginalDeviceData::from_bytes(data), format: *data_format },
            ),
            result.unwrap().raw.wf(),
    {
        let is_header = read_header_flag(data[0]);
        let is_last_packet = read_last_flag(data[0]);

        Ok(
            DeviceData {
                raw: OriginalDeviceData { is_header, is_last_packet, data },
                format: *data_format,
            },
        )
    }
}

} // verus!
