use vstd::prelude::*;
use vstd::utf8::{decode_utf8, valid_utf8};
use std::str::FromStr;
use crate::data_format::DataFormat;
use crate::msrx_tool_error::{ErrorView, MsrxToolError};
use crate::text::{push_char, same_text};
use crate::track_data::TrackData;
use crate::tracks_data::TracksData;

verus! {

/// The forms in which the tool prints tracks.
#[derive(Debug, PartialEq, Eq, Copy, Clone, Structural)]
pub enum OutputFormat {
    Json,
    /// This format combines all tracks into one string, tracks separated by underscore
    Combined,
}

impl OutputFormat {
    /// The format that a name stands for.
    pub open spec fn named(s: Seq<char>) -> Option<OutputFormat> {
        if s == "json"@ {
            Some(OutputFormat::Json)
        } else if s == "combined"@ {
            Some(OutputFormat::Combined)
        } else {
            None
        }
    }

    /// `json` and `combined` name the two formats; any other name is refused.
    pub fn parse(s: &str) -> (result: Result<OutputFormat, MsrxToolError>)
        ensures
            match Self::named(s@) {
                Some(format) => result == Ok::<OutputFormat, MsrxToolError>(format),
                None => result is Err && result.unwrap_err()@
                    == ErrorView::UnsupportedOutputFormat,
            },
    {
        if same_text(s, "json") {
            Ok(OutputFormat::Json)
        } else if same_text(s, "combined") {
            Ok(OutputFormat::Combined)
        } else {
            Err(MsrxToolError::UnsupportedOutputFormat)
        }
    }
}

impl FromStr for OutputFormat {
    type Err = MsrxToolError;

    fn from_str(s: &str) -> (result: Result<Self, Self::Err>)
        ensures
            match Self::named(s@) {
                Some(format) => result == Ok::<OutputFormat, MsrxToolError>(format),
                None => result is Err && result.unwrap_err()@
                    == ErrorView::UnsupportedOutputFormat,
            },
    {
        OutputFormat::parse(s)
    }
}

/// A track that has a text form: ISO format and valid UTF-8.
pub open spec fn is_text_track(track: &TrackData) -> bool {
    track.format == DataFormat::Iso && valid_utf8(track.data@)
}

/// The separator that is used where none is given.
pub open spec fn separator_or_default(separator: Option<char>) -> char {
    match separator {
        Some(c) => c,
        None => '_',
    }
}

/// The three tracks as one line of text, the separator between neighbours.
pub open spec fn combined_text(tracks_data: &TracksData, separator: char) -> Seq<char> {
    decode_utf8(tracks_data.track1.data@) + seq![separator] + decode_utf8(
        tracks_data.track2.data@,
    ) + seq![separator] + decode_utf8(tracks_data.track3.data@)
}

/// The tracks in the combined format. The structured format has no writer.
pub fn format(tracks_data: &TracksData, output_format: &OutputFormat, separator: &Option<char>) -> (text:
    String)
    requires
        *output_format == OutputFormat::Combined,
        is_text_track(&tracks_data.track1),
        is_text_track(&tracks_data.track2),
        is_text_track(&tracks_data.track3),
    ensures
        text@ == combined_text(tracks_data, separator_or_default(*separator)),
{
    format_combined(tracks_data, separator)
}

/// The three tracks as one line of text, the separator between neighbours;
/// an underscore where no separator is given.
pub fn format_combined(tracks_data: &TracksData, separator: &Option<char>) -> (text: String)
    requires
        is_text_track(&tracks_data.track1),
        is_text_track(&tracks_data.track2),
        is_text_track(&tracks_data.track3),
    ensures
        text@ == combined_text(tracks_data, separator_or_default(*separator)),
{
    let separator: char = match separator {
        Some(c) => *c,
        None => '_',
    };
    let mut text = String::new();
    match tracks_data.track1.to_string() {
        Ok(s) => text.append(s.as_str()),
        Err(_) => {},
    }
    push_char(&mut text, separator);
    match tracks_data.track2.to_string() {
        Ok(s) => text.append(s.as_str()),
        Err(_) => {},
    }
    push_char(&mut text, separator);
    match tracks_data.track3.to_string() {
        Ok(s) => text.append(s.as_str()),
        Err(_) => {},
    }
    assert(text@ =~= combined_text(tracks_data, separator));
    text
}

} // verus!
