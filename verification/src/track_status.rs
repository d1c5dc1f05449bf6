use vstd::prelude::*;
use vstd::std_specs::convert::FromSpecImpl;

verus! {

/// Outcome reported by the device in the byte that follows a card-data block.
#[derive(Debug, PartialEq, Eq, Copy, Clone, Structural)]
pub enum TrackStatus {
    Success,
    WriteOrReadError,
    CommandFormatError,
    InvalidCommand,
    InvalidCardSwipeOnWrite,
    /// The block was built from user text and has not been through the device.
    ParsedFromInput,
    Unknown,
}

/// The status that a status byte stands for; every unassigned byte is `Unknown`.
pub open spec fn status_of_byte(value: u8) -> TrackStatus {
    if value == 0x30 {
        TrackStatus::Success
    } else if value == 0x31 {
        TrackStatus::WriteOrReadError
    } else if value == 0x32 {
        TrackStatus::CommandFormatError
    } else if value == 0x34 {
        TrackStatus::InvalidCommand
    } else if value == 0x39 {
        TrackStatus::InvalidCardSwipeOnWrite
    } else {
        TrackStatus::Unknown
    }
}

impl From<u8> for TrackStatus {
    fn from(value: u8) -> (status: Self)
        ensures
            status == status_of_byte(value),
    {
        match value {
            0x30 => TrackStatus::Success,
            0x31 => TrackStatus::WriteOrReadError,
            0x32 => TrackStatus::CommandFormatError,
            0x34 => TrackStatus::InvalidCommand,
            0x39 => TrackStatus::InvalidCardSwipeOnWrite,
            _ => TrackStatus::Unknown,
        }
    }
}

impl FromSpecImpl<u8> for TrackStatus {
    open spec fn obeys_from_spec() -> bool {
        true
    }

    open spec fn from_spec(value: u8) -> Self {
        status_of_byte(value)
    }
}

} // verus!
