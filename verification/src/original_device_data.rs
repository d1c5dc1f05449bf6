use vstd::prelude::*;
use vstd::std_specs::convert::TryFromSpecImpl;
use vstd::utf8::{decode_utf8, valid_utf8};
use crate::msrx_tool_error::MsrxToolError;
use crate::packet::{
    header_flag, last_flag, lossy_text, read_header_flag, read_last_flag, reports_failure,
    reports_success, strip_packet, stripped,
};

verus! {

/// Data as received from the device
#[derive(Debug, Copy, Clone)]
pub struct OriginalDeviceData {
    pub is_header: bool,
    pub is_last_packet: bool,
    pub data: [u8; 64],
}

impl TryFrom<[u8; 64]> for OriginalDeviceData {
    type Error = MsrxToolError;

    /// Reads the two flags out of the header byte; every packet is accepted.
    fn try_from(raw_data: [u8; 64]) -> (result: Result<Self, Self::Error>)
        ensures
            result == Ok::<Self, MsrxToolError>(Self::from_bytes(raw_data)),
            result.unwrap().wf(),
    {
        let is_header = read_header_flag(raw_data[0]);
        let is_last_packet = read_last_flag(raw_data[0]);

        Ok(OriginalDeviceData { is_header, is_last_packet, data: raw_data })
    }
}

impl TryFromSpecImpl<[u8; 64]> for OriginalDeviceData {
    open spec fn obeys_try_from_spec() -> bool {
        true
    }

    open spec fn try_from_spec(raw_data: [u8; 64]) -> Result<Self, Self::Error> {
        Ok(Self::from_bytes(raw_data))
    }
}

impl OriginalDeviceData {
    /// The packet that 64 received bytes make up.
    pub open spec fn from_bytes(raw_data: [u8; 64]) -> Self {
        OriginalDeviceData {
            is_header: header_flag(raw_data@[0]),
            is_last_packet: last_flag(raw_data@[0]),
            data: raw_data,
        }
    }

    /// The flags say what the header byte says.
    pub open spec fn wf(&self) -> bool {
        &&& self.is_header == header_flag(self.data@[0])
        &&& self.is_last_packet == last_flag(self.data@[0])
    }

    /// The payload without its two leading bytes, up to the length that the
    /// header byte gives.
    pub fn stripped_data(&self) -> (out: Vec<u8>)
        ensures
            out@ == stripped(self.data@),
    {
        strip_packet(&self.data)
    }

    /// Whether the packet carries the failure mark, ESC `1`.
    pub fn did_failed(&self) -> (failed: bool)
        ensures
            failed == reports_failure(self.data@),
    {
        self.data[1] == 0x1b && self.data[2] == 0x31
    }

    /// Whether the packet carries the success mark, ESC `0`.
    pub fn successful_read(&self) -> (success: bool)
        ensures
            success == reports_success(self.data@),
    {
        // First byte is the length of the data
        // so skipping it
        self.data[1] == 0x1b && self.data[2] == 0x30
    }

    /// Same acknowledgement as `successful_read`, for commands that do not read.
    pub fn successful_operation(&self) -> (success: bool)
        ensures
            success == reports_success(self.data@),
    {
        self.successful_read()
    }

    /// The stripped payload as text.
    pub fn to_string(&self) -> (text: String)
        ensures
            valid_utf8(stripped(self.data@)) ==> text@ == decode_utf8(stripped(self.data@)),
    {
        let payload = self.stripped_data();
        lossy_text(&payload)
    }
}

} // verus!
