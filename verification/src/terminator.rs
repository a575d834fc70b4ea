//! Detection of the request terminator: the four-byte sequence
//! `\r\n\r\n` that separates HTTP headers from the body. The handler
//! treats its appearance anywhere in the accumulated bytes as the end
//! of the request.

use vstd::prelude::*;

verus! {

/// Carriage return.
pub const CR: u8 = 13;

/// Line feed.
pub const LF: u8 = 10;

/// The four-byte terminator `\r\n\r\n` starts at position `i` of `s`.
pub open spec fn is_terminator_at(s: Seq<u8>, i: int) -> bool {
    &&& 0 <= i
    &&& i + 4 <= s.len()
    &&& s[i] == CR
    &&& s[i + 1] == LF
    &&& s[i + 2] == CR
    &&& s[i + 3] == LF
}

/// The terminator `\r\n\r\n` occurs somewhere in `s`.
pub open spec fn has_terminator(s: Seq<u8>) -> bool {
    exists|i: int| is_terminator_at(s, i)
}

/// Scans `s` for the terminator `\r\n\r\n`.
pub fn contains_terminator(s: &[u8]) -> (found: bool)
    ensures
        found == has_terminator(s@),
{
    if s.len() < 4 {
        return false;
    }
    let mut i: usize = 0;
    while i <= s.len() - 4
        invariant
            4 <= s.len(),
            i <= s.len(),
            forall|j: int| 0 <= j < i ==> !is_terminator_at(s@, j),
        decreases s.len() - i,
    {
        if s[i] == CR && s[i + 1] == LF && s[i + 2] == CR && s[i + 3] == LF {
            assert(is_terminator_at(s@, i as int));
            return true;
        }
        i = i + 1;
    }
    false
}

} // verus!
