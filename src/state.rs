//! The text form of a relay state: one '0' or '1' per relay.
use vstd::prelude::*;
use crate::protocol::N_RELAYS;

verus! {

/// A character that may stand for one relay.
pub open spec fn is_state_char(c: char) -> bool {
    c == '0' || c == '1'
}

/// A well-formed relay state string: exactly one valid character per relay.
pub open spec fn valid_state_str(s: Seq<char>) -> bool {
    &&& s.len() == N_RELAYS
    &&& forall|i: int| 0 <= i < s.len() ==> #[trigger] is_state_char(s[i])
}

/// The relay states a string stands for: '1' is on, anything else off.
pub open spec fn bools_of(s: Seq<char>) -> Seq<bool> {
    s.map_values(|c: char| c == '1')
}

/// The string that stands for a sequence of relay states.
pub open spec fn str_of(state: Seq<bool>) -> Seq<char> {
    state.map_values(|b: bool|
        if b {
            '1'
        } else {
            '0'
        })
}

/// Why a relay state string was refused.
#[derive(Clone, Copy, Debug, PartialEq, Eq, Structural)]
pub enum StateStrError {
    /// Not exactly one character per relay.
    WrongLength,
    /// A character other than '0' or '1'.
    BadChar,
}

/// True when `state` is a well-formed relay state string: both the length
/// and every character are checked.
pub fn check_state_str(state: &str) -> (r: bool)
    ensures
        r == valid_state_str(state@),
{
    if state.unicode_len() != N_RELAYS {
        return false;
    }
    all_state_chars(state)
}

/// True when every character of `state` is '0' or '1'.
fn all_state_chars(state: &str) -> (r: bool)
    ensures
        r == forall|i: int| 0 <= i < state@.len() ==> #[trigger] is_state_char(state@[i]),
{
    let n = state.unicode_len();
    let mut i: usize = 0;
    while i < n
        invariant
            n == state@.len(),
            i <= n,
            forall|j: int| 0 <= j < i ==> #[trigger] is_state_char(state@[j]),
        decreases n - i,
    {
        let c = state.get_char(i);
        if c != '0' && c != '1' {
            assert(!is_state_char(state@[i as int]));
            return false;
        }
        i += 1;
    }
    true
}

/// Reads a relay state string; fails on anything but exactly one '0' or '1'
/// per relay.
pub fn state_str_to_bool(state: &str) -> (r: Result<Vec<bool>, StateStrError>)
    ensures
        match r {
            Ok(v) => valid_state_str(state@) && v@ == bools_of(state@),
            Err(e) => !valid_state_str(state@) && (e == StateStrError::WrongLength
                <==> state@.len() != N_RELAYS),
        },
{
    let n = state.unicode_len();
    if n != N_RELAYS {
        return Err(StateStrError::WrongLength);
    }
    let mut v: Vec<bool> = Vec::new();
    let mut i: usize = 0;
    while i < n
        invariant
            n == state@.len(),
            n == N_RELAYS,
            i <= n,
            forall|j: int| 0 <= j < i ==> #[trigger] is_state_char(state@[j]),
            v@ == bools_of(state@.take(i as int)),
        decreases n - i,
    {
        let c = state.get_char(i);
        if c != '0' && c != '1' {
            assert(!is_state_char(state@[i as int]));
            return Err(StateStrError::BadChar);
        }
        v.push(c == '1');
        i += 1;
        assert(state@.take(i as int) =~= state@.take(i - 1).push(c));
    }
    assert(state@.take(i as int) =~= state@);
    Ok(v)
}

/// Writes relay states as a string of '0' and '1'.
pub fn state_bool_to_str(state: &[bool]) -> (r: String)
    ensures
        r@ == str_of(state@),
{
    let mut r = String::new();
    let mut i: usize = 0;
    while i < state.len()
        invariant
            i <= state@.len(),
            r@ == str_of(state@.take(i as int)),
        decreases state@.len() - i,
    {
        proof {
            reveal_strlit("1");
            reveal_strlit("0");
        }
        if state[i] {
            r.append("1");
        } else {
            r.append("0");
        }
        i += 1;
        assert(state@.take(i as int) =~= state@.take(i - 1).push(state@[i - 1]));
        assert(str_of(state@.take(i as int)) =~= str_of(state@.take(i - 1)).push(
            if state@[i - 1] { '1' } else { '0' },
        ));
    }
    assert(state@.take(i as int) =~= state@);
    r
}

} // verus!
