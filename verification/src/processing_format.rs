use vstd::prelude::*;
use crate::msrx_tool_error::MsrxToolError;
use crate::output::separator_or_default;
use crate::tracks_data::{tracks_of_text, TracksData};

verus! {

/// The forms of input that are turned into tracks.
#[derive(Debug, PartialEq, Eq, Copy, Clone, Structural)]
pub enum ProcessingFormat {
    /// This format reads all tracks as one string, tracks separated by separator-character
    Text,
}

impl ProcessingFormat {
    /// Reads the tracks out of one line of text, cut at the separator.
    pub fn parse(&self, data: &str, separator: &Option<char>) -> (result: Result<
        TracksData,
        MsrxToolError,
    >)
        ensures
            match tracks_of_text(data@, separator_or_default(*separator)) {
                Ok(tracks) => result is Ok && result.unwrap()@ == tracks,
                Err(e) => result is Err && result.unwrap_err()@ == e,
            },
    {
        let separator: char = match separator {
            Some(c) => *c,
            None => '_',
        };

        match self {
            ProcessingFormat::Text => TracksData::from_str(data, &separator),
        }
    }
}

} // verus!
