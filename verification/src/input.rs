use vstd::prelude::*;
use std::str::FromStr;
use crate::msrx_tool_error::{ErrorView, MsrxToolError};
use crate::output::{combined_text, format_combined, is_text_track, separator_or_default};
use crate::text::same_text;
use crate::tracks_data::TracksData;

verus! {

/// The forms in which tracks are given to the tool.
#[derive(Debug, PartialEq, Eq, Copy, Clone, Structural)]
pub enum InputFormat {
    /// This format reads all tracks as one string, tracks separated by separator-character
    Combined,
}

impl InputFormat {
    /// `combined` names the one format; any other name is refused.
    pub fn parse(s: &str) -> (result: Result<InputFormat, MsrxToolError>)
        ensures
            s@ == "combined"@ ==> result == Ok::<InputFormat, MsrxToolError>(InputFormat::Combined),
            s@ != "combined"@ ==> result is Err && result.unwrap_err()@
                == ErrorView::UnsupportedInputFormat,
    {
        if same_text(s, "combined") {
            Ok(InputFormat::Combined)
        } else {
            Err(MsrxToolError::UnsupportedInputFormat)
        }
    }
}

impl FromStr for InputFormat {
    type Err = MsrxToolError;

    fn from_str(s: &str) -> (result: Result<Self, Self::Err>)
        ensures
            s@ == "combined"@ ==> result == Ok::<InputFormat, MsrxToolError>(InputFormat::Combined),
            s@ != "combined"@ ==> result is Err && result.unwrap_err()@
                == ErrorView::UnsupportedInputFormat,
    {
        InputFormat::parse(s)
    }
}

/// The tracks as the line of text that the same format reads.
pub fn format(tracks_data: &TracksData, input_format: &InputFormat, separator: &Option<char>) -> (text:
    String)
    requires
        is_text_track(&tracks_data.track1),
        is_text_track(&tracks_data.track2),
        is_text_track(&tracks_data.track3),
    ensures
        text@ == combined_text(tracks_data, separator_or_default(*separator)),
{
    match input_format {
        InputFormat::Combined => format_combined(tracks_data, separator),
    }
}

} // verus!
