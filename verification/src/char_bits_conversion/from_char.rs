use vstd::prelude::*;
use crate::char_bits_conversion::{count_ones, lemma_count_ones_push, parity, parity_bit};
use crate::msrx_tool_error::MsrxToolError;

verus! {

/// Track 1 carries the sixty-four characters from space to underscore.
pub open spec fn in_track_1_alphabet(c: char) -> bool {
    0x20 <= c as u32 <= 0x5f
}

/// Tracks 2 and 3 carry the sixteen characters from `0` to `?`.
pub open spec fn in_track_2_3_alphabet(c: char) -> bool {
    0x30 <= c as u32 <= 0x3f
}

/// The six-bit code of a track 1 character. The lower half of the alphabet
/// maps to 0..=31 and the upper half to 32..=63, so the code is the distance
/// from the space character.
pub open spec fn track_1_code(c: char) -> int {
    c as u32 - 0x20
}

/// The four-bit code of a track 2 or 3 character.
pub open spec fn track_2_3_code(c: char) -> int {
    c as u32 - 0x30
}

/// In terms of bits: a character of the lower half has its distance from the
/// space character as its code, and a character of the upper half its
/// distance from `@` with bit 5 set.
pub proof fn lemma_track_1_code_by_halves(c: char)
    requires
        in_track_1_alphabet(c),
    ensures
        c as u32 <= 0x3f ==> track_1_code(c) == c as u32 - 0x20,
        c as u32 >= 0x40 ==> track_1_code(c) == ((c as u32 - 0x40) as u8) | 0x20u8,
        0 <= track_1_code(c) < 64,
{
    if c as u32 >= 0x40 {
        let d: u8 = (c as u32 - 0x40) as u8;
        assert(d < 0x20 ==> d | 0x20u8 == d + 0x20) by (bit_vector);
    }
}

/// The character that stands for the lowest bit of `value`.
pub open spec fn bit_char(value: int) -> char {
    if value % 2 == 1 {
        '1'
    } else {
        '0'
    }
}

/// Six data bits of `code`, least significant first.
pub open spec fn six_bits(code: int) -> Seq<char> {
    seq![
        bit_char(code),
        bit_char(code / 2),
        bit_char(code / 4),
        bit_char(code / 8),
        bit_char(code / 16),
        bit_char(code / 32),
    ]
}

/// Four data bits of `code`, least significant first.
pub open spec fn four_bits(code: int) -> Seq<char> {
    seq![bit_char(code), bit_char(code / 2), bit_char(code / 4), bit_char(code / 8)]
}

/// Data bits followed by the bit that makes the number of ones odd.
pub open spec fn with_parity(data: Seq<char>) -> Seq<char> {
    data.push(parity_bit(data))
}

/// Bit-serial form of a track 1 character: seven characters.
pub open spec fn track_1_bits(c: char) -> Seq<char> {
    with_parity(six_bits(track_1_code(c)))
}

/// Bit-serial form of a track 2 or 3 character: five characters.
pub open spec fn track_2_3_bits(c: char) -> Seq<char> {
    with_parity(four_bits(track_2_3_code(c)))
}

/// Whatever the data bits are, adding the parity bit leaves an odd number of ones.
pub proof fn lemma_parity_makes_odd(data: Seq<char>)
    ensures
        count_ones(with_parity(data)) % 2 == 1,
{
    lemma_count_ones_push(data, parity_bit(data));
}

/// Every encoded track 1 character holds an odd number of ones.
pub proof fn lemma_track_1_bits_odd(c: char)
    ensures
        count_ones(track_1_bits(c)) % 2 == 1,
        track_1_bits(c).len() == 7,
{
    lemma_parity_makes_odd(six_bits(track_1_code(c)));
}

/// Every encoded track 2 or 3 character holds an odd number of ones.
pub proof fn lemma_track_2_3_bits_odd(c: char)
    ensures
        count_ones(track_2_3_bits(c)) % 2 == 1,
        track_2_3_bits(c).len() == 5,
{
    lemma_parity_makes_odd(four_bits(track_2_3_code(c)));
}

fn push_bit(bits: &mut String, value: u32)
    ensures
        final(bits)@ == old(bits)@.push(bit_char(value as int)),
{
    if value % 2 == 1 {
        proof { reveal_strlit("1"); }
        bits.append("1");
        assert(bits@ =~= old(bits)@.push('1'));
    } else {
        proof { reveal_strlit("0"); }
        bits.append("0");
        assert(bits@ =~= old(bits)@.push('0'));
    }
}

fn append_parity(bits: String) -> (result: Result<String, MsrxToolError>)
    ensures
        result is Ok,
        result.unwrap()@ == with_parity(bits@),
{
    let mut bits = bits;
    let ghost data = bits@;
    let check = parity(bits.as_str())?;
    bits.append(check.as_str());
    assert(bits@ =~= with_parity(data));
    Ok(bits)
}

/// Encoding of one character into the bits that go onto a track.
pub trait ReversedSignificantBitsFromChar {
    type Error;

    fn to_track_1_bits(&self) -> Result<String, MsrxToolError>;

    fn to_track_2_3_bits(&self) -> Result<String, MsrxToolError>;
}

impl ReversedSignificantBitsFromChar for char {
    type Error = MsrxToolError;

    /// Six data bits, least significant first, then the parity bit, so that
    /// the number of ones is odd. A character outside the track 1 alphabet
    /// has no code.
    fn to_track_1_bits(&self) -> (result: Result<String, MsrxToolError>)
        ensures
            in_track_1_alphabet(*self) ==> result is Ok && result.unwrap()@ == track_1_bits(*self),
            result is Ok ==> result.unwrap()@.len() == 7 && count_ones(result.unwrap()@) % 2 == 1,
            !in_track_1_alphabet(*self) ==> result is Err && result.unwrap_err()@
                == crate::msrx_tool_error::ErrorView::BitConversionError,
    {
        let value: u32 = *self as u32;
        if value < 0x20 || value > 0x5f {
            return Err(MsrxToolError::BitConversionError);
        }
        let code: u32 = value - 0x20;
        let mut bits = String::new();
        push_bit(&mut bits, code);
        push_bit(&mut bits, code / 2);
        push_bit(&mut bits, code / 4);
        push_bit(&mut bits, code / 8);
        push_bit(&mut bits, code / 16);
        push_bit(&mut bits, code / 32);
        assert(bits@ =~= six_bits(track_1_code(*self)));
        proof {
            lemma_track_1_bits_odd(*self);
        }
        append_parity(bits)
    }

    /// Four data bits, least significant first, then the parity bit, so
    /// that the number of ones is odd. A character outside the track 2 and 3
    /// alphabet has no code.
    fn to_track_2_3_bits(&self) -> (result: Result<String, MsrxToolError>)
        ensures
            in_track_2_3_alphabet(*self) ==> result is Ok && result.unwrap()@ == track_2_3_bits(
                *self,
            ),
            result is Ok ==> result.unwrap()@.len() == 5 && count_ones(result.unwrap()@) % 2 == 1,
            !in_track_2_3_alphabet(*self) ==> result is Err && result.unwrap_err()@
                == crate::msrx_tool_error::ErrorView::BitConversionError,
    {
        let value: u32 = *self as u32;
        if value < 0x30 || value > 0x3f {
            return Err(MsrxToolError::BitConversionError);
        }
        let code: u32 = value - 0x30;
        let mut bits = String::new();
        push_bit(&mut bits, code);
        push_bit(&mut bits, code / 2);
        push_bit(&mut bits, code / 4);
        push_bit(&mut bits, code / 8);
        assert(bits@ =~= four_bits(track_2_3_code(*self)));
        proof {
            lemma_track_2_3_bits_odd(*self);
        }
        append_parity(bits)
    }
}

} // verus!
