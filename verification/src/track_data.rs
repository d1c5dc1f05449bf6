use vstd::prelude::*;
use vstd::utf8::{decode_utf8, valid_utf8};
use crate::data_format::DataFormat;
use crate::msrx_tool_error::{ErrorView, MsrxToolError};

verus! {

/// The bytes of one track and the format they are in.
#[derive(Debug)]
pub struct TrackData {
    pub data: Vec<u8>,
    pub format: DataFormat,
}

/// Mathematical value of a track.
pub ghost struct TrackDataView {
    pub data: Seq<u8>,
    pub format: DataFormat,
}

impl View for TrackData {
    type V = TrackDataView;

    open spec fn view(&self) -> TrackDataView {
        TrackDataView { data: self.data@, format: self.format }
    }
}

/// What goes into a block for a track: its bytes, or one zero byte where it
/// has none. The device does not take a track of no bytes at all.
pub open spec fn padded(data: Seq<u8>) -> Seq<u8> {
    if data.len() == 0 {
        seq![0u8]
    } else {
        data
    }
}

/// `String::from_utf8`: bytes that are valid UTF-8 give the text they encode,
/// other bytes give nothing.
#[verifier::external_body]
fn text_from_utf8(bytes: Vec<u8>) -> (text: Option<String>)
    ensures
        valid_utf8(bytes@) ==> text is Some && text.unwrap()@ == decode_utf8(bytes@),
        !valid_utf8(bytes@) ==> text is None,
{
    String::from_utf8(bytes).ok()
}

/// A copy of `data`.
pub fn copy_bytes(data: &Vec<u8>) -> (out: Vec<u8>)
    ensures
        out@ == data@,
{
    let mut out: Vec<u8> = Vec::new();
    let mut i: usize = 0;
    while i < data.len()
        invariant
            i <= data.len(),
            out@ == data@.take(i as int),
        decreases data.len() - i,
    {
        out.push(data[i]);
        assert(out@ =~= data@.take(i as int + 1));
        i += 1;
    }
    assert(data@.take(data.len() as int) =~= data@);
    out
}

impl TrackData {
    /// The bytes that stand for the track in a block.
    pub fn as_packets(&self) -> (out: Vec<u8>)
        ensures
            out@ == padded(self.data@),
    {
        if self.data.len() == 0 {
            let out: Vec<u8> = vec![0x00];
            assert(out@ =~= seq![0u8]);
            out
        } else {
            copy_bytes(&self.data)
        }
    }

    /// The track as text. Only tracks in the ISO format have a text form.
    pub fn to_string(&self) -> (result: Result<String, MsrxToolError>)
        ensures
            self.format == DataFormat::Raw ==> result is Err && result.unwrap_err()@
                == ErrorView::UnsupportedDataFormat,
            self.format == DataFormat::Iso && valid_utf8(self.data@) ==> result is Ok
                && result.unwrap()@ == decode_utf8(self.data@),
            self.format == DataFormat::Iso && !valid_utf8(self.data@) ==> result is Err
                && result.unwrap_err()@ == ErrorView::InvalidUtf8DataInTrack,
    {
        match self.format {
            DataFormat::Iso => self.to_string_iso(),
            DataFormat::Raw => Err(MsrxToolError::UnsupportedDataFormat),
        }
    }

    fn to_string_iso(&self) -> (result: Result<String, MsrxToolError>)
        ensures
            valid_utf8(self.data@) ==> result is Ok && result.unwrap()@ == decode_utf8(self.data@),
            !valid_utf8(self.data@) ==> result is Err && result.unwrap_err()@
                == ErrorView::InvalidUtf8DataInTrack,
    {
        match text_from_utf8(copy_bytes(&self.data)) {
            Some(ascii_string) => Ok(ascii_string),
            None => Err(MsrxToolError::InvalidUtf8DataInTrack),
        }
    }
}

} // verus!
