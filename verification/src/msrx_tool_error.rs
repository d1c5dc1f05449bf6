use vstd::prelude::*;

verus! {

/// Failure of a USB transfer, as the transport reports it.
#[derive(Debug, PartialEq, Eq, Copy, Clone, Structural)]
pub enum UsbError {
    Io,
    InvalidParam,
    Access,
    NoDevice,
    NotFound,
    Busy,
    Timeout,
    Overflow,
    Pipe,
    Interrupted,
    NoMem,
    NotSupported,
    BadDescriptor,
    Other,
}

/// Everything that can go wrong between the text of a track and the device.
#[derive(Debug, PartialEq)]
pub enum MsrxToolError {
    DeviceError(UsbError),
    RawDataNotCardData,
    ErrorSettingBPI(usize),
    ErrorSettingLeadingZeros,
    BitConversionError,
    DeviceNotFound,
    UnsupportedDataFormat,
    UnsupportedInputFormat,
    UnsupportedOutputFormat,
    UnsupportedDataFormatForReading,
    InvalidUtf8DataInTrack,
    CardNotSwiped,
    /// Track number, actual length, maximum length.
    DataForTrackIsTooLong(usize, usize, usize),
    /// Track number and the characters the track accepts.
    InvalidTrackData(usize, String),
    /// Track number and the sentinel that was expected.
    InvalidStartSentinel(usize, char),
    /// Track number and the sentinel that was expected.
    InvalidEndSentinel(usize, char),
    Unknown,
}

/// Mathematical value of an error: the same variants, with text as a sequence
/// of characters.
pub ghost enum ErrorView {
    DeviceError(UsbError),
    RawDataNotCardData,
    ErrorSettingBPI(usize),
    ErrorSettingLeadingZeros,
    BitConversionError,
    DeviceNotFound,
    UnsupportedDataFormat,
    UnsupportedInputFormat,
    UnsupportedOutputFormat,
    UnsupportedDataFormatForReading,
    InvalidUtf8DataInTrack,
    CardNotSwiped,
    DataForTrackIsTooLong(usize, usize, usize),
    InvalidTrackData(usize, Seq<char>),
    InvalidStartSentinel(usize, char),
    InvalidEndSentinel(usize, char),
    Unknown,
}

impl View for MsrxToolError {
    type V = ErrorView;

    open spec fn view(&self) -> ErrorView {
        match *self {
            MsrxToolError::DeviceError(e) => ErrorView::DeviceError(e),
            MsrxToolError::RawDataNotCardData => ErrorView::RawDataNotCardData,
            MsrxToolError::ErrorSettingBPI(t) => ErrorView::ErrorSettingBPI(t),
            MsrxToolError::ErrorSettingLeadingZeros => ErrorView::ErrorSettingLeadingZeros,
            MsrxToolError::BitConversionError => ErrorView::BitConversionError,
            MsrxToolError::DeviceNotFound => ErrorView::DeviceNotFound,
            MsrxToolError::UnsupportedDataFormat => ErrorView::UnsupportedDataFormat,
            MsrxToolError::UnsupportedInputFormat => ErrorView::UnsupportedInputFormat,
            MsrxToolError::UnsupportedOutputFormat => ErrorView::UnsupportedOutputFormat,
            MsrxToolError::UnsupportedDataFormatForReading => ErrorView::UnsupportedDataFormatForReading,
            MsrxToolError::InvalidUtf8DataInTrack => ErrorView::InvalidUtf8DataInTrack,
            MsrxToolError::CardNotSwiped => ErrorView::CardNotSwiped,
            MsrxToolError::DataForTrackIsTooLong(t, n, m) => ErrorView::DataForTrackIsTooLong(t, n, m),
            MsrxToolError::InvalidTrackData(t, s) => ErrorView::InvalidTrackData(t, s@),
            MsrxToolError::InvalidStartSentinel(t, c) => ErrorView::InvalidStartSentinel(t, c),
            MsrxToolError::InvalidEndSentinel(t, c) => ErrorView::InvalidEndSentinel(t, c),
            MsrxToolError::Unknown => ErrorView::Unknown,
        }
    }
}

} // verus!
