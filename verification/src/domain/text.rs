//! Reading a string as its sequence of characters, and classes of
//! characters.

use vstd::prelude::*;
use vstd::std_specs::iter::IteratorSpec;

verus! {

/// An ASCII letter or digit.
pub open spec fn is_alphanumeric(c: char) -> bool {
    ('a' <= c && c <= 'z') || ('A' <= c && c <= 'Z') || ('0' <= c && c <= '9')
}

/// Whether `c` is an ASCII letter or digit.
pub fn alphanumeric(c: char) -> (b: bool)
    ensures
        b == is_alphanumeric(c),
{
    ('a' <= c && c <= 'z') || ('A' <= c && c <= 'Z') || ('0' <= c && c <= '9')
}

/// The characters of `s`, in order.
pub fn chars_of(s: &str) -> (v: Vec<char>)
    ensures
        v@ == s@,
{
    let mut v: Vec<char> = Vec::new();
    let mut rest = s.chars();
    loop
        invariant
            v@.len() <= s@.len(),
            v@ == s@.take(v@.len() as int),
            rest.remaining() == s@.skip(v@.len() as int),
        decreases s@.len() - v@.len(),
    {
        match rest.next() {
            Some(c) => {
                proof {
                    let n = v@.len() as int;
                    assert(s@.skip(n).drop_first() =~= s@.skip(n + 1));
                    assert(s@.take(n).push(s@[n]) =~= s@.take(n + 1));
                }
                v.push(c);
            },
            None => {
                assert(s@.take(s@.len() as int) =~= s@);
                return v;
            },
        }
    }
}

} // verus!
