//! Validation of timer names and intervals.

use vstd::prelude::*;

verus! {

/// ASCII white space, as `char::is_whitespace` classifies it.
pub open spec fn is_ascii_space(c: char) -> bool {
    c == ' ' || c == '\t' || c == '\n' || c == '\r' || c == '\x0B' || c == '\x0C'
}

/// A timer name is valid when it is non-empty, ASCII only, and not all white space.
pub open spec fn valid_name(s: Seq<char>) -> bool {
    &&& s.len() > 0
    &&& forall|i: int| 0 <= i < s.len() ==> (s[i] as u32) < 128
    &&& exists|i: int| 0 <= i < s.len() && !is_ascii_space(#[trigger] s[i])
}

/// Returns whether `name` is a valid timer name.
pub fn check_valid_string(name: &str) -> (r: bool)
    ensures
        r == valid_name(name@),
{
    let n = name.unicode_len();
    if n == 0 {
        return false;
    }
    let mut i: usize = 0;
    let mut seen_text = false;
    while i < n
        invariant
            n == name@.len(),
            i <= n,
            forall|j: int| 0 <= j < i ==> (name@[j] as u32) < 128,
            seen_text == exists|j: int| 0 <= j < i && !is_ascii_space(#[trigger] name@[j]),
        decreases n - i,
    {
        let c = name.get_char(i);
        if (c as u32) >= 128 {
            return false;
        }
        if !(c == ' ' || c == '\t' || c == '\n' || c == '\r' || c == '\x0B' || c == '\x0C') {
            seen_text = true;
        }
        proof {
            if !seen_text {
                assert forall|j: int| 0 <= j < i + 1 implies is_ascii_space(#[trigger] name@[j]) by {
                    if j < i {
                        assert(!(0 <= j < i && !is_ascii_space(name@[j])));
                    }
                }
            } else {
                if !is_ascii_space(c) {
                    assert(!is_ascii_space(name@[i as int]));
                }
            }
        }
        i = i + 1;
    }
    seen_text
}

/// Returns whether `value` is a usable interval: strictly positive.
pub fn check_positive_u64(value: u64) -> (r: bool)
    ensures
        r == (value > 0),
{
    value > 0
}

} // verus!
