//! Conversion between characters and their bit-serial form on a track.
//! Track 1 carries six data bits per character, tracks 2 and 3 carry four;
//! the data bits travel least significant first and an odd-parity bit follows.

use vstd::prelude::*;
use crate::msrx_tool_error::MsrxToolError;

pub mod from_char;
pub mod to_char;

verus! {

/// Number of `'1'` characters in a bit string.
pub open spec fn count_ones(bits: Seq<char>) -> nat
    decreases bits.len(),
{
    if bits.len() == 0 {
        0
    } else {
        count_ones(bits.drop_last()) + if bits.last() == '1' { 1nat } else { 0nat }
    }
}

/// The bit that brings the number of ones in `bits` to an odd total.
pub open spec fn parity_bit(bits: Seq<char>) -> char {
    if count_ones(bits) % 2 != 0 {
        '0'
    } else {
        '1'
    }
}

/// Appending a character adds one to the count exactly when it is `'1'`.
pub proof fn lemma_count_ones_push(bits: Seq<char>, c: char)
    ensures
        count_ones(bits.push(c)) == count_ones(bits) + if c == '1' { 1nat } else { 0nat },
{
    assert(bits.push(c).drop_last() =~= bits);
}

/// The odd-parity bit for `bits`, as a one-character string.
pub fn parity(bits: &str) -> (result: Result<String, MsrxToolError>)
    ensures
        result is Ok,
        result.unwrap()@ == seq![parity_bit(bits@)],
{
    let n: usize = bits.unicode_len();
    let mut odd: bool = false;
    let mut i: usize = 0;
    while i < n
        invariant
            n == bits@.len(),
            i <= n,
            odd == (count_ones(bits@.take(i as int)) % 2 != 0),
        decreases n - i,
    {
        let c = bits.get_char(i);
        proof {
            assert(bits@.take(i as int + 1) =~= bits@.take(i as int).push(c));
            lemma_count_ones_push(bits@.take(i as int), c);
        }
        if c == '1' {
            odd = !odd;
        }
        i += 1;
    }
    proof {
        assert(bits@.take(n as int) =~= bits@);
    }
    if odd {
        proof { reveal_strlit("0"); }
        let s = "0".to_owned();
        assert(s@ =~= seq!['0']);
        Ok(s)
    } else {
        proof { reveal_strlit("1"); }
        let s = "1".to_owned();
        assert(s@ =~= seq!['1']);
        Ok(s)
    }
}

} // verus!
