//! Byte-level substring search, the primitive behind the banner signature
//! matching.

use vstd::prelude::*;

verus! {

/// Holds when `needle` occurs in `haystack` starting at index `i`.
pub open spec fn matches_at(haystack: Seq<u8>, needle: Seq<u8>, i: int) -> bool {
    &&& 0 <= i
    &&& i + needle.len() <= haystack.len()
    &&& forall|k: int| 0 <= k < needle.len() ==> haystack[i + k] == needle[k]
}

/// Holds when `needle` occurs somewhere in `haystack`.
pub open spec fn contains_seq(haystack: Seq<u8>, needle: Seq<u8>) -> bool {
    exists|i: int| matches_at(haystack, needle, i)
}

/// Compares `needle` against the bytes of `haystack` beginning at `start`.
fn matches_at_exec(haystack: &[u8], needle: &[u8], start: usize) -> (r: bool)
    requires
        start + needle@.len() <= haystack@.len(),
    ensures
        r == matches_at(haystack@, needle@, start as int),
{
    let hl: usize = haystack.len();
    let mut j: usize = 0;
    while j < needle.len()
        invariant
            hl == haystack@.len(),
            start + needle@.len() <= hl,
            j <= needle@.len(),
            forall|k: int| 0 <= k < j ==> haystack@[start as int + k] == needle@[k],
        decreases needle@.len() - j,
    {
        if haystack[start + j] != needle[j] {
            return false;
        }
        j += 1;
    }
    true
}

/// Reports whether `needle` occurs anywhere in `haystack`, as a contiguous
/// run of bytes.
pub fn contains_bytes(haystack: &[u8], needle: &[u8]) -> (r: bool)
    ensures
        r == contains_seq(haystack@, needle@),
{
    let hl: usize = haystack.len();
    let nl: usize = needle.len();
    if nl > hl {
        return false;
    }
    if nl == 0 {
        assert(matches_at(haystack@, needle@, 0));
        return true;
    }
    let end: usize = hl - nl;
    let mut i: usize = 0;
    while i <= end
        invariant
            hl == haystack@.len(),
            nl == needle@.len(),
            1 <= nl <= hl,
            end == hl - nl,
            i <= end + 1,
            forall|k: int| 0 <= k < i ==> !matches_at(haystack@, needle@, k),
        decreases end + 1 - i,
    {
        if matches_at_exec(haystack, needle, i) {
            return true;
        }
        i += 1;
    }
    false
}

} // verus!
