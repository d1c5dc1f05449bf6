use vstd::prelude::*;
use std::str::FromStr;
use crate::msrx_tool_error::{ErrorView, MsrxToolError};
use crate::text::same_text;

verus! {

/// How the bytes of a track are to be read: as text that the device has
/// already expanded, or as the raw bits of the stripe.
#[derive(Debug, Clone, Copy, PartialEq, Eq, Structural)]
pub enum DataFormat {
    Iso,
    Raw,
}

impl DataFormat {
    /// The format that a name stands for.
    pub open spec fn named(s: Seq<char>) -> Option<DataFormat> {
        if s == "iso"@ {
            Some(DataFormat::Iso)
        } else if s == "raw"@ {
            Some(DataFormat::Raw)
        } else {
            None
        }
    }

    /// `iso` and `raw` name the two formats; any other name is refused.
    pub fn parse(s: &str) -> (result: Result<DataFormat, MsrxToolError>)
        ensures
            match Self::named(s@) {
                Some(format) => result == Ok::<DataFormat, MsrxToolError>(format),
                None => result is Err && result.unwrap_err()@ == ErrorView::UnsupportedDataFormat,
            },
    {
        if same_text(s, "iso") {
            Ok(DataFormat::Iso)
        } else if same_text(s, "raw") {
            Ok(DataFormat::Raw)
        } else {
            Err(MsrxToolError::UnsupportedDataFormat)
        }
    }
}

impl FromStr for DataFormat {
    type Err = MsrxToolError;

    fn from_str(s: &str) -> (result: Result<Self, Self::Err>)
        ensures
            match Self::named(s@) {
                Some(format) => result == Ok::<DataFormat, MsrxToolError>(format),
                None => result is Err && result.unwrap_err()@ == ErrorView::UnsupportedDataFormat,
            },
    {
        DataFormat::parse(s)
    }
}

} // verus!
