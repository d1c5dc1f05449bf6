//! Layout of one 64-byte transfer: a header byte followed by payload. Bit 7
//! of the header marks the first packet of a response, bit 6 the last one,
//! and the six low bits give the payload length.

use vstd::prelude::*;
use vstd::utf8::{decode_utf8, valid_utf8};

verus! {

/// Bit 7 of the header byte.
pub open spec fn header_flag(first: u8) -> bool {
    first >= 128
}

/// Bit 6 of the header byte.
pub open spec fn last_flag(first: u8) -> bool {
    (first / 64) % 2 == 1
}

/// Bits 0 to 5 of the header byte.
pub open spec fn payload_length(first: u8) -> int {
    first as int % 64
}

/// What a packet holds between its two leading bytes and the end that the
/// header byte announces: positions 2 up to, and without, `1 + length`.
pub open spec fn stripped(data: Seq<u8>) -> Seq<u8> {
    if payload_length(data[0]) >= 1 {
        data.subrange(2, 1 + payload_length(data[0]))
    } else {
        Seq::empty()
    }
}

/// The device answers a command that it could not carry out with ESC `1`.
pub open spec fn reports_failure(data: Seq<u8>) -> bool {
    data[1] == 0x1b && data[2] == 0x31
}

/// The device answers a command that it carried out with ESC `0`.
pub open spec fn reports_success(data: Seq<u8>) -> bool {
    data[1] == 0x1b && data[2] == 0x30
}

/// Whether the header byte marks the first packet of a response.
pub fn read_header_flag(first: u8) -> (flag: bool)
    ensures
        flag == header_flag(first),
{
    assert((first & 0x80 != 0) == (first >= 128)) by (bit_vector);
    first & 0x80 != 0
}

/// Whether the header byte marks the last packet of a response.
pub fn read_last_flag(first: u8) -> (flag: bool)
    ensures
        flag == last_flag(first),
{
    assert((first & 0x40 != 0) == ((first / 64) % 2 == 1)) by (bit_vector);
    first & 0x40 != 0
}

/// The payload length that the header byte gives.
pub fn read_payload_length(first: u8) -> (length: u8)
    ensures
        length == payload_length(first),
        length <= 63,
{
    assert(first & !(0x80u8 | 0x40u8) == first % 64) by (bit_vector);
    first & !(0x80 | 0x40)
}

/// The bytes of `data` from position 2 up to the end that its header byte announces.
pub fn strip_packet(data: &[u8; 64]) -> (out: Vec<u8>)
    ensures
        out@ == stripped(data@),
{
    let length: usize = read_payload_length(data[0]) as usize;
    let mut out: Vec<u8> = Vec::new();
    if length < 1 {
        return out;
    }
    let end: usize = 1 + length;
    let mut i: usize = 2;
    while i < end
        invariant
            2 <= i <= end,
            end == 1 + payload_length(data@[0]),
            end <= 64,
            out@ == data@.subrange(2, i as int),
        decreases end - i,
    {
        out.push(data[i]);
        assert(out@ =~= data@.subrange(2, i as int + 1));
        i += 1;
    }
    out
}

/// `String::from_utf8_lossy`: bytes that are valid UTF-8 come back as the
/// text they encode; of other input only that a string comes back.
#[verifier::external_body]
pub(crate) fn lossy_text(bytes: &Vec<u8>) -> (text: String)
    ensures
        valid_utf8(bytes@) ==> text@ == decode_utf8(bytes@),
{
    String::from_utf8_lossy(bytes).into_owned()
}

} // verus!
