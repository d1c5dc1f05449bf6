//! The conversation with the device, as a state machine.
//!
//! The session decides what is sent and what an answer means; the caller
//! performs the transfers. A session starts `Uninitialized`, walks through
//! the setup steps once the interface is claimed, and is `Ready` when the
//! last step is acknowledged. Reading and writing start from `Ready` and
//! return to it. A step that fails ends the setup: the session is
//! `Uninitialized` again.

use vstd::prelude::*;
use vstd::utf8::{decode_utf8, valid_utf8};
use crate::command::Command;
use crate::config::DeviceConfig;
use crate::data_format::DataFormat;
use crate::iso_data::IsoData;
use crate::msrx_tool_error::{ErrorView, MsrxToolError, UsbError};
use crate::original_device_data::OriginalDeviceData;
use crate::packet::{reports_failure, reports_success, stripped};
use crate::track_block::{data_block, scanned};
use crate::tracks_data::{iso_packet_bytes, iso_tracks, TracksData};
use crate::transport::reassembled;

verus! {

/// Request type of the control transfer that carries a chunk: class
/// request, host to device, to the interface.
pub const CONTROL_REQUEST_TYPE: u8 = 0x21;

/// Request number of that control transfer: set report.
pub const CONTROL_REQUEST: u8 = 9;

/// Value of that control transfer: feature report, number zero.
pub const CONTROL_VALUE: u16 = 0x0300;

/// Seconds given to the device to answer a setup step or a query.
pub const SETUP_TIMEOUT: u64 = 1;

/// Seconds given to the device to acknowledge a write.
pub const WRITE_ACK_TIMEOUT: u64 = 10;

/// The steps of the setup, in the order in which they are taken.
#[derive(Debug, Clone, Copy, PartialEq, Eq, Structural)]
pub enum SetupStep {
    Reset,
    BitControlParity,
    Coercivity,
    /// Bits per inch of track 1, 2 or 3.
    BitsPerInch(usize),
    LeadingZeros,
}

/// Where a session stands.
#[derive(Debug, Clone, Copy, PartialEq, Eq, Structural)]
pub enum SessionState {
    Uninitialized,
    Configuring(SetupStep),
    Ready,
    Reading,
    Writing,
}

impl SetupStep {
    /// A step for bits per inch names one of the three tracks.
    pub open spec fn wf(self) -> bool {
        match self {
            SetupStep::BitsPerInch(track) => 1 <= track <= 3,
            _ => true,
        }
    }

    /// The state that follows when this step is acknowledged.
    pub open spec fn successor(self) -> SessionState {
        match self {
            SetupStep::Reset => SessionState::Configuring(SetupStep::BitControlParity),
            SetupStep::BitControlParity => SessionState::Configuring(SetupStep::Coercivity),
            SetupStep::Coercivity => SessionState::Configuring(SetupStep::BitsPerInch(1)),
            SetupStep::BitsPerInch(track) => if track < 3 {
                SessionState::Configuring(SetupStep::BitsPerInch((track + 1) as usize))
            } else {
                SessionState::Configuring(SetupStep::LeadingZeros)
            },
            SetupStep::LeadingZeros => SessionState::Ready,
        }
    }

    /// The error that ends the setup when this step is not acknowledged.
    pub open spec fn failure(self) -> ErrorView {
        match self {
            SetupStep::BitsPerInch(track) => ErrorView::ErrorSettingBPI(track),
            SetupStep::LeadingZeros => ErrorView::ErrorSettingLeadingZeros,
            _ => ErrorView::Unknown,
        }
    }
}

/// The bytes that are sent for a setup step.
pub open spec fn setup_bytes(config: DeviceConfig, step: SetupStep) -> Seq<u8> {
    match step {
        SetupStep::Reset => Command::Reset.opcode(),
        SetupStep::BitControlParity => Command::SetBCP.opcode() + seq![
            config.track1.bpc,
            config.track2.bpc,
            config.track3.bpc,
        ],
        SetupStep::Coercivity => if config.is_hi_co {
            Command::SetHiCo.opcode()
        } else {
            Command::SetLoCo.opcode()
        },
        SetupStep::BitsPerInch(track) => Command::SetBPI.opcode() + seq![
            if track == 1 {
                config.track1.bpi_code()
            } else if track == 2 {
                config.track2.bpi_code()
            } else {
                config.track3.bpi_code()
            },
        ],
        SetupStep::LeadingZeros => Command::SetLeadingZeros.opcode() + seq![
            config.leading_zero210,
            config.leading_zero75,
        ],
    }
}

/// Whether the answer `data` acknowledges a setup step. Reset and
/// coercivity want the success mark; bit control parity wants it followed
/// by the three values that were sent; bits per inch and leading zeros want
/// anything but the failure mark.
pub open spec fn acknowledges(config: DeviceConfig, step: SetupStep, data: Seq<u8>) -> bool {
    match step {
        SetupStep::Reset => reports_success(data),
        SetupStep::BitControlParity => reports_success(data) && data[3] == config.track1.bpc
            && data[4] == config.track2.bpc && data[5] == config.track3.bpc,
        SetupStep::Coercivity => reports_success(data),
        SetupStep::BitsPerInch(_) => !reports_failure(data),
        SetupStep::LeadingZeros => !reports_failure(data),
    }
}

/// The error that a failed transfer becomes while a card is awaited: a
/// timeout means that no card was swiped, anything else is handed on.
pub open spec fn read_failure(error: UsbError) -> ErrorView {
    if error == UsbError::Timeout {
        ErrorView::CardNotSwiped
    } else {
        ErrorView::DeviceError(error)
    }
}

/// One conversation with one device.
#[derive(Debug)]
pub struct DeviceSession {
    pub config: DeviceConfig,
    pub state: SessionState,
}

impl DeviceSession {
    /// The configuration is sound and a step in progress names a track that exists.
    pub open spec fn wf(&self) -> bool {
        &&& self.config.wf()
        &&& match self.state {
            SessionState::Configuring(step) => step.wf(),
            _ => true,
        }
    }

    /// A session that has not touched the device yet.
    pub fn new(config: DeviceConfig) -> (session: DeviceSession)
        requires
            config.wf(),
        ensures
            session.config == config,
            session.state == SessionState::Uninitialized,
            session.wf(),
    {
        DeviceSession { config, state: SessionState::Uninitialized }
    }

    /// The interface is claimed: the setup begins with its first step.
    pub fn interface_claimed(&mut self)
        requires
            old(self).wf(),
            old(self).state == SessionState::Uninitialized,
        ensures
            final(self).config == old(self).config,
            final(self).state == SessionState::Configuring(SetupStep::Reset),
            final(self).wf(),
    {
        self.state = SessionState::Configuring(SetupStep::Reset);
    }

    /// The setup step that is to be taken next, if the setup is under way.
    pub fn pending_step(&self) -> (step: Option<SetupStep>)
        ensures
            match self.state {
                SessionState::Configuring(s) => step == Some(s),
                _ => step is None,
            },
    {
        match self.state {
            SessionState::Configuring(s) => Some(s),
            _ => None,
        }
    }

    /// The bytes to send for the step that the setup has reached.
    pub fn setup_command(&self) -> (command: Vec<u8>)
        requires
            self.wf(),
            self.state is Configuring,
        ensures
            command@ == setup_bytes(self.config, self.state->Configuring_0),
    {
        match self.state {
            SessionState::Configuring(SetupStep::Reset) => Command::Reset.packets(),
            SessionState::Configuring(SetupStep::BitControlParity) => Command::SetBCP.with_payload(
                &self.config.bpc_packets(),
            ),
            SessionState::Configuring(SetupStep::Coercivity) => if self.config.is_hi_co {
                Command::SetHiCo.packets()
            } else {
                Command::SetLoCo.packets()
            },
            SessionState::Configuring(SetupStep::BitsPerInch(track)) => {
                let packets = if track == 1 {
                    self.config.track1.bpi_packets()
                } else if track == 2 {
                    self.config.track2.bpi_packets()
                } else {
                    self.config.track3.bpi_packets()
                };
                Command::SetBPI.with_payload(&packets)
            },
            SessionState::Configuring(SetupStep::LeadingZeros) => {
                Command::SetLeadingZeros.with_payload(&self.config.leading_zero_packets())
            },
            _ => Vec::new(),
        }
    }

    /// Takes the answer to the step that the setup has reached. An answer
    /// that acknowledges the step moves the setup on, and past its last
    /// step the session is ready. Any other answer ends the setup with the
    /// error of that step.
    pub fn setup_response(&mut self, answer: &OriginalDeviceData) -> (result: Result<
        (),
        MsrxToolError,
    >)
        requires
            old(self).wf(),
            old(self).state is Configuring,
        ensures
            final(self).config == old(self).config,
            final(self).wf(),
            ({
                let step = old(self).state->Configuring_0;
                if acknowledges(old(self).config, step, answer.data@) {
                    result is Ok && final(self).state == step.successor()
                } else {
                    result is Err && result.unwrap_err()@ == step.failure() && final(self).state
                        == SessionState::Uninitialized
                }
            }),
    {
        let step = match self.state {
            SessionState::Configuring(s) => s,
            _ => SetupStep::Reset,
        };
        let accepted: bool = match step {
            SetupStep::Reset => answer.successful_operation(),
            SetupStep::BitControlParity => answer.data[1] == 0x1b && answer.data[2] == 0x30
                && answer.data[3] == self.config.track1.bpc && answer.data[4]
                == self.config.track2.bpc && answer.data[5] == self.config.track3.bpc,
            SetupStep::Coercivity => answer.data[1] == 0x1b && answer.data[2] == 0x30,
            SetupStep::BitsPerInch(_) => !answer.did_failed(),
            SetupStep::LeadingZeros => !answer.did_failed(),
        };
        if accepted {
            self.state = match step {
                SetupStep::Reset => SessionState::Configuring(SetupStep::BitControlParity),
                SetupStep::BitControlParity => SessionState::Configuring(SetupStep::Coercivity),
                SetupStep::Coercivity => SessionState::Configuring(SetupStep::BitsPerInch(1)),
                SetupStep::BitsPerInch(track) => if track < 3 {
                    SessionState::Configuring(SetupStep::BitsPerInch(track + 1))
                } else {
                    SessionState::Configuring(SetupStep::LeadingZeros)
                },
                SetupStep::LeadingZeros => SessionState::Ready,
            };
            Ok(())
        } else {
            self.state = SessionState::Uninitialized;
            match step {
                SetupStep::BitsPerInch(track) => Err(MsrxToolError::ErrorSettingBPI(track)),
                SetupStep::LeadingZeros => Err(MsrxToolError::ErrorSettingLeadingZeros),
                _ => Err(MsrxToolError::Unknown),
            }
        }
    }

    /// A transfer failed during the setup: the setup ends with that error.
    pub fn setup_failed(&mut self, error: UsbError) -> (result: MsrxToolError)
        requires
            old(self).wf(),
            old(self).state is Configuring,
        ensures
            final(self).config == old(self).config,
            final(self).state == SessionState::Uninitialized,
            final(self).wf(),
            result@ == ErrorView::DeviceError(error),
    {
        self.state = SessionState::Uninitialized;
        MsrxToolError::DeviceError(error)
    }

    /// Starts a read. Only the ISO format can be read; for it the session
    /// awaits a card and the bytes to send are returned.
    pub fn begin_read(&mut self, format: &DataFormat) -> (result: Result<Vec<u8>, MsrxToolError>)
        requires
            old(self).wf(),
            old(self).state == SessionState::Ready,
        ensures
            final(self).config == old(self).config,
            final(self).wf(),
            *format == DataFormat::Iso ==> result is Ok && result.unwrap()@
                == Command::SetReadModeOnFormatISO.opcode() && final(self).state
                == SessionState::Reading,
            *format == DataFormat::Raw ==> result is Err && result.unwrap_err()@
                == ErrorView::UnsupportedDataFormatForReading && final(self).state
                == SessionState::Ready,
    {
        let read_command = match format {
            DataFormat::Iso => Command::SetReadModeOnFormatISO,
            DataFormat::Raw => return Err(MsrxToolError::UnsupportedDataFormatForReading),
        };
        self.state = SessionState::Reading;
        Ok(read_command.packets())
    }

    /// A response goes on until a packet says that it is the last one.
    pub fn expects_more(packet: &OriginalDeviceData) -> (more: bool)
        ensures
            more == !packet.is_last_packet,
    {
        !packet.is_last_packet
    }

    /// A transfer failed while a card was awaited. The session is ready
    /// again. After a timeout no card was swiped, and the command that
    /// switches the read mode off is returned for the caller to send;
    /// any other failure is handed on as it is.
    pub fn read_failed(&mut self, error: UsbError) -> (result: (MsrxToolError, Option<Vec<u8>>))
        requires
            old(self).wf(),
            old(self).state == SessionState::Reading,
        ensures
            final(self).config == old(self).config,
            final(self).state == SessionState::Ready,
            final(self).wf(),
            result.0@ == read_failure(error),
            error == UsbError::Timeout ==> result.1 is Some && result.1.unwrap()@
                == Command::SetReadModeOff.opcode(),
            error != UsbError::Timeout ==> result.1 is None,
    {
        self.state = SessionState::Ready;
        match error {
            UsbError::Timeout => (
                MsrxToolError::CardNotSwiped,
                Some(Command::SetReadModeOff.packets()),
            ),
            _ => (MsrxToolError::DeviceError(error), None),
        }
    }

    /// Takes the packets of the response to a read and gives the tracks
    /// that the reassembled frame holds. The session is ready again.
    pub fn finish_read(&mut self, packets: Vec<IsoData>) -> (result: Result<
        TracksData,
        MsrxToolError,
    >)
        requires
            old(self).wf(),
            old(self).state == SessionState::Reading,
        ensures
            final(self).config == old(self).config,
            final(self).state == SessionState::Ready,
            final(self).wf(),
            match scanned(reassembled(iso_packet_bytes(packets@))) {
                Some(block) => result is Ok && result.unwrap()@ == iso_tracks(block),
                None => result is Err && result.unwrap_err()@ == ErrorView::RawDataNotCardData,
            },
    {
        self.state = SessionState::Ready;
        TracksData::try_from(packets)
    }

    /// Starts a write: the bytes to send are the write command followed by
    /// the block of the three tracks.
    pub fn begin_write(&mut self, data: &TracksData) -> (result: Result<Vec<u8>, MsrxToolError>)
        requires
            old(self).wf(),
            old(self).state == SessionState::Ready,
        ensures
            final(self).config == old(self).config,
            final(self).state == SessionState::Writing,
            final(self).wf(),
            result is Ok,
            result.unwrap()@ == Command::SetISOReadModeOn.opcode() + data_block(
                data.track1.data@,
                data.track2.data@,
                data.track3.data@,
            ),
    {
        let payload = Command::SetISOReadModeOn.with_payload(&data.to_data_block()?);
        self.state = SessionState::Writing;
        Ok(payload)
    }

    /// Takes the answer to a write: the card was written where the answer
    /// carries the success mark. The session is ready again.
    pub fn finish_write(&mut self, answer: &OriginalDeviceData) -> (written: bool)
        requires
            old(self).wf(),
            old(self).state == SessionState::Writing,
        ensures
            final(self).config == old(self).config,
            final(self).state == SessionState::Ready,
            final(self).wf(),
            written == reports_success(answer.data@),
    {
        self.state = SessionState::Ready;
        answer.successful_operation()
    }

    /// A transfer failed while a write was under way: the error is handed
    /// on and the session is ready again.
    pub fn write_failed(&mut self, error: UsbError) -> (result: MsrxToolError)
        requires
            old(self).wf(),
            old(self).state == SessionState::Writing,
        ensures
            final(self).config == old(self).config,
            final(self).state == SessionState::Ready,
            final(self).wf(),
            result@ == ErrorView::DeviceError(error),
    {
        self.state = SessionState::Ready;
        MsrxToolError::DeviceError(error)
    }

    /// The bytes that ask the device for its firmware version.
    pub fn firmware_version_command(&self) -> (command: Vec<u8>)
        requires
            self.state == SessionState::Ready,
        ensures
            command@ == Command::GetFirmwareVersion.opcode(),
    {
        Command::GetFirmwareVersion.packets()
    }

    /// The bytes that ask the device for its model.
    pub fn model_command(&self) -> (command: Vec<u8>)
        requires
            self.state == SessionState::Ready,
        ensures
            command@ == Command::GetDeviceModel.opcode(),
    {
        Command::GetDeviceModel.packets()
    }

    /// The text of the answer to a query: the packet without its two
    /// leading bytes, up to the length that its header byte gives.
    pub fn query_text(&self, answer: &OriginalDeviceData) -> (text: String)
        requires
            self.state == SessionState::Ready,
        ensures
            valid_utf8(stripped(answer.data@)) ==> text@ == decode_utf8(stripped(answer.data@)),
    {
        answer.to_string()
    }
}

} // verus!
