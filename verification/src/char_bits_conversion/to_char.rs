use vstd::prelude::*;
use crate::char_bits_conversion::from_char::{
    in_track_1_alphabet, in_track_2_3_alphabet, track_1_bits, track_1_code, track_2_3_bits,
    track_2_3_code,
};
use crate::msrx_tool_error::{ErrorView, MsrxToolError};

verus! {

/// A bit string holds nothing but the characters `0` and `1`.
pub open spec fn is_bit_string(bits: Seq<char>) -> bool {
    forall|i: int| 0 <= i < bits.len() ==> bits[i] == '0' || bits[i] == '1'
}

/// One for the character `1`, zero for anything else.
pub open spec fn bit_value(c: char) -> int {
    if c == '1' {
        1
    } else {
        0
    }
}

/// The number whose six lowest bits are the first six characters of `bits`,
/// least significant first.
pub open spec fn six_bit_value(bits: Seq<char>) -> int {
    bit_value(bits[0]) + 2 * bit_value(bits[1]) + 4 * bit_value(bits[2]) + 8 * bit_value(bits[3])
        + 16 * bit_value(bits[4]) + 32 * bit_value(bits[5])
}

/// The number whose four lowest bits are the first four characters of `bits`,
/// least significant first.
pub open spec fn four_bit_value(bits: Seq<char>) -> int {
    bit_value(bits[0]) + 2 * bit_value(bits[1]) + 4 * bit_value(bits[2]) + 8 * bit_value(bits[3])
}

/// The track 1 character that a bit string stands for: its first six
/// characters are the data bits, and whatever follows (the parity bit,
/// padding) is not looked at beyond being a bit. Codes below 32 land in the
/// lower half of the alphabet, the others in the upper half, so the character
/// is the code's distance from the space character. Shorter strings and
/// strings with other characters stand for nothing.
pub open spec fn track_1_char(bits: Seq<char>) -> Option<char> {
    if bits.len() >= 6 && is_bit_string(bits) {
        Some(((six_bit_value(bits) + 0x20) as u8) as char)
    } else {
        None
    }
}

/// The track 2 or 3 character that a bit string stands for: its first four
/// characters are the data bits.
pub open spec fn track_2_3_char(bits: Seq<char>) -> Option<char> {
    if bits.len() >= 4 && is_bit_string(bits) {
        Some(((four_bit_value(bits) + 0x30) as u8) as char)
    } else {
        None
    }
}

/// In terms of bits: a six-bit code with bit 5 clear becomes its character
/// by setting bit 5, one with bit 5 set by clearing it and setting bit 6;
/// a four-bit code becomes its character by setting bits 4 and 5.
pub proof fn lemma_characters_by_bits(v: u8)
    ensures
        v < 0x20 ==> v & 0x20 == 0 && v | 0x20 == v + 0x20,
        0x20 <= v < 0x40 ==> v & 0x20 != 0 && (v & !0x20u8) | 0x40 == v + 0x20,
        v < 0x10 ==> v | 0x30 == v + 0x30,
{
    assert(v < 0x20 ==> v & 0x20 == 0 && v | 0x20 == v + 0x20) by (bit_vector);
    assert(0x20 <= v < 0x40 ==> v & 0x20 != 0 && (v & !0x20u8) | 0x40 == v + 0x20)
        by (bit_vector);
    assert(v < 0x10 ==> v | 0x30 == v + 0x30) by (bit_vector);
}

/// Decoding undoes encoding on the whole track 1 alphabet.
pub proof fn lemma_track_1_round_trip(c: char)
    requires
        in_track_1_alphabet(c),
    ensures
        track_1_char(track_1_bits(c)) == Some(c),
{
    let code = track_1_code(c);
    let bits = track_1_bits(c);
    assert(bits.len() == 7);
    assert(six_bit_value(bits) == code);
    assert(((code + 0x20) as u8) as char == c);
}

/// Decoding undoes encoding on the whole track 2 and 3 alphabet.
pub proof fn lemma_track_2_3_round_trip(c: char)
    requires
        in_track_2_3_alphabet(c),
    ensures
        track_2_3_char(track_2_3_bits(c)) == Some(c),
{
    let code = track_2_3_code(c);
    let bits = track_2_3_bits(c);
    assert(bits.len() == 5);
    assert(four_bit_value(bits) == code);
    assert(((code + 0x30) as u8) as char == c);
}

/// Two to the power `k`.
pub open spec fn two_to(k: int) -> int
    decreases k,
{
    if k <= 0 {
        1
    } else {
        2 * two_to(k - 1)
    }
}

/// The number whose bits are the characters of `bits` from `from` up to,
/// and without, `width`, least significant first.
pub open spec fn value_from(bits: Seq<char>, from: int, width: int) -> int
    decreases width - from,
{
    if from >= width {
        0
    } else {
        bit_value(bits[from]) + 2 * value_from(bits, from + 1, width)
    }
}

proof fn lemma_value_from_is_bounded(bits: Seq<char>, from: int, width: int)
    requires
        0 <= from <= width,
    ensures
        0 <= value_from(bits, from, width) < two_to(width - from),
    decreases width - from,
{
    if from < width {
        lemma_value_from_is_bounded(bits, from + 1, width);
    }
}

/// Reads `bits` and returns the value of its first `width` characters, least
/// significant first, or nothing where the string is too short or holds a
/// character that is no bit.
fn read_bits(bits: &str, width: usize) -> (value: Option<u8>)
    requires
        width <= 6,
    ensures
        value is Some <==> bits@.len() >= width && is_bit_string(bits@),
        value is Some ==> value.unwrap() == value_from(bits@, 0, width as int),
{
    let n: usize = bits.unicode_len();
    if n < width {
        return None;
    }
    let mut k: usize = 0;
    while k < n
        invariant
            n == bits@.len(),
            k <= n,
            forall|j: int| 0 <= j < k ==> bits@[j] == '0' || bits@[j] == '1',
        decreases n - k,
    {
        let c = bits.get_char(k);
        if c != '0' && c != '1' {
            return None;
        }
        k += 1;
    }
    let mut value: u8 = 0;
    let mut i: usize = width;
    while i > 0
        invariant
            n == bits@.len(),
            i <= width <= n,
            width <= 6,
            value == value_from(bits@, i as int, width as int),
        decreases i,
    {
        proof {
            lemma_value_from_is_bounded(bits@, i as int, width as int);
            reveal_with_fuel(two_to, 7);
            assert(two_to(width - i) <= 32);
        }
        i -= 1;
        let c = bits.get_char(i);
        value = 2 * value + if c == '1' { 1 } else { 0 };
    }
    Some(value)
}

/// Decoding of the bits read from a track into one character.
pub trait ToChar {
    type Error;

    fn from_track_1_bits(&self, bits_per_character: u8) -> Result<char, MsrxToolError>;

    fn from_track_2_3_bits(&self, bits_per_character: u8) -> Result<char, MsrxToolError>;
}

impl ToChar for str {
    type Error = MsrxToolError;

    /// The data bits are the first six characters, whatever width the
    /// character was recorded with; parity is not checked.
    fn from_track_1_bits(&self, bits_per_character: u8) -> (result: Result<char, MsrxToolError>)
        ensures
            match track_1_char(self@) {
                Some(c) => result == Ok::<char, MsrxToolError>(c),
                None => result is Err && result.unwrap_err()@ == ErrorView::BitConversionError,
            },
    {
        proof {
            reveal_with_fuel(value_from, 7);
        }
        match read_bits(self, 6) {
            Some(value) => Ok((value + 0x20) as char),
            None => Err(MsrxToolError::BitConversionError),
        }
    }

    /// The data bits are the first four characters, whatever width the
    /// character was recorded with; parity is not checked.
    fn from_track_2_3_bits(&self, bits_per_character: u8) -> (result: Result<char, MsrxToolError>)
        ensures
            match track_2_3_char(self@) {
                Some(c) => result == Ok::<char, MsrxToolError>(c),
                None => result is Err && result.unwrap_err()@ == ErrorView::BitConversionError,
            },
    {
        proof {
            reveal_with_fuel(value_from, 5);
        }
        match read_bits(self, 4) {
            Some(value) => Ok((value + 0x30) as char),
            None => Err(MsrxToolError::BitConversionError),
        }
    }
}

impl ToChar for String {
    type Error = MsrxToolError;

    fn from_track_1_bits(&self, bits_per_character: u8) -> (result: Result<char, MsrxToolError>)
        ensures
            match track_1_char(self@) {
                Some(c) => result == Ok::<char, MsrxToolError>(c),
                None => result is Err && result.unwrap_err()@ == ErrorView::BitConversionError,
            },
    {
        self.as_str().from_track_1_bits(bits_per_character)
    }

    fn from_track_2_3_bits(&self, bits_per_character: u8) -> (result: Result<char, MsrxToolError>)
        ensures
            match track_2_3_char(self@) {
                Some(c) => result == Ok::<char, MsrxToolError>(c),
                None => result is Err && result.unwrap_err()@ == ErrorView::BitConversionError,
            },
    {
        self.as_str().from_track_2_3_bits(bits_per_character)
    }
}

} // verus!
