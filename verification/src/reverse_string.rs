use vstd::prelude::*;
use crate::text::push_char;

verus! {

/// Text read backwards.
pub trait ReverseString {
    fn reverse(&self) -> String;
}

impl ReverseString for str {
    /// The characters of the text, last one first.
    fn reverse(&self) -> (reversed: String)
        ensures
            reversed@ == self@.reverse(),
    {
        let n: usize = self.unicode_len();
        let mut reversed = String::new();
        let mut i: usize = 0;
        while i < n
            invariant
                n == self@.len(),
                i <= n,
                reversed@.len() == i,
                forall|k: int| 0 <= k < i ==> reversed@[k] == self@[n - 1 - k],
            decreases n - i,
        {
            push_char(&mut reversed, self.get_char(n - 1 - i));
            i += 1;
        }
        assert(reversed@ =~= self@.reverse());
        reversed
    }
}

impl ReverseString for String {
    /// The characters of the text, last one first.
    fn reverse(&self) -> (reversed: String)
        ensures
            reversed@ == self@.reverse(),
    {
        self.as_str().reverse()
    }
}

} // verus!
