//! Reading a Modbus slave id typed as decimal text.
use vstd::prelude::*;

verus! {

pub open spec fn is_digit(c: char) -> bool {
    '0' <= c && c <= '9'
}

/// The number written by a string of decimal digits.
pub open spec fn digits_value(s: Seq<char>) -> int
    decreases s.len(),
{
    if s.len() == 0 {
        0
    } else {
        digits_value(s.drop_last()) * 10 + (s.last() as int - '0' as int)
    }
}

/// The slave id a text names: one or more decimal digits, with a value from 1
/// to 255.
pub open spec fn slave_of_text(s: Seq<char>) -> Option<u8> {
    if s.len() > 0 && (forall|i: int| 0 <= i < s.len() ==> #[trigger] is_digit(s[i])) && 1
        <= digits_value(s) <= 255 {
        Some(digits_value(s) as u8)
    } else {
        None
    }
}

proof fn lemma_digits_grow(s: Seq<char>, i: int)
    requires
        0 <= i <= s.len(),
        forall|j: int| 0 <= j < s.len() ==> #[trigger] is_digit(s[j]),
    ensures
        digits_value(s) >= digits_value(s.take(i)) >= 0,
    decreases s.len(),
{
    if s.len() > 0 {
        let s0 = s.drop_last();
        assert forall|j: int| 0 <= j < s0.len() implies #[trigger] is_digit(s0[j]) by {
            assert(s0[j] == s[j]);
        }
        if i == s.len() {
            assert(s.take(i) =~= s);
            lemma_digits_grow(s0, 0);
        } else {
            assert(s0.take(i) =~= s.take(i));
            lemma_digits_grow(s0, i);
        }
        assert(is_digit(s.last()));
    } else {
        assert(s.take(i) =~= s);
    }
}

/// Reads a slave id: decimal digits only, with a value from 1 to 255.
pub fn parse_slave(text: &str) -> (r: Option<u8>)
    ensures
        r == slave_of_text(text@),
{
    let n = text.unicode_len();
    if n == 0 {
        return None;
    }
    let mut acc: u32 = 0;
    let mut i: usize = 0;
    while i < n
        invariant
            n == text@.len(),
            i <= n,
            forall|j: int| 0 <= j < i ==> #[trigger] is_digit(text@[j]),
            acc == digits_value(text@.take(i as int)),
            acc <= 255,
        decreases n - i,
    {
        let c = text.get_char(i);
        if !('0' <= c && c <= '9') {
            assert(!is_digit(text@[i as int]));
            return None;
        }
        let d = (c as u32) - ('0' as u32);
        assert(text@.take(i + 1).drop_last() =~= text@.take(i as int));
        acc = acc * 10 + d;
        i += 1;
        if acc > 255 {
            proof {
                if forall|j: int| 0 <= j < text@.len() ==> #[trigger] is_digit(text@[j]) {
                    lemma_digits_grow(text@, i as int);
                }
            }
            return None;
        }
    }
    assert(text@.take(i as int) =~= text@);
    if acc == 0 {
        return None;
    }
    Some(acc as u8)
}

} // verus!
