//! Byte-sequence helpers shared by the proxy's header and payload logic.
//!
//! Header names and JSON texts are handled as raw bytes; these helpers give
//! ASCII lowercasing, substring search, and conversion from string literals.

use vstd::prelude::*;
use vstd::string::StrSliceExecFns;
use vstd::string::StringSliceAdditionalSpecFns;

verus! {

/// ASCII lowercasing of one byte: `A`..`Z` map to `a`..`z`, all else unchanged.
pub open spec fn spec_lower_byte(b: u8) -> u8 {
    if 65 <= b && b <= 90 {
        (b + 32) as u8
    } else {
        b
    }
}

/// ASCII lowercasing of a byte sequence.
pub open spec fn spec_lower(s: Seq<u8>) -> Seq<u8> {
    s.map_values(|b: u8| spec_lower_byte(b))
}

/// Returns the ASCII-lowercased copy of `s`.
pub fn lower_bytes(s: &Vec<u8>) -> (r: Vec<u8>)
    ensures
        r@ == spec_lower(s@),
{
    let mut out: Vec<u8> = Vec::new();
    let mut i: usize = 0;
    while i < s.len()
        invariant
            0 <= i <= s.len(),
            out@ =~= spec_lower(s@.subrange(0, i as int)),
        decreases s.len() - i,
    {
        let b = s[i];
        if 65 <= b && b <= 90 {
            out.push(b + 32);
        } else {
            out.push(b);
        }
        proof {
            assert(spec_lower(s@.subrange(0, i + 1 as int)) =~= spec_lower(
                s@.subrange(0, i as int),
            ).push(spec_lower_byte(s@[i as int])));
        }
        i = i + 1;
    }
    proof {
        assert(s@.subrange(0, s@.len() as int) =~= s@);
    }
    out
}

/// True when `name` equals `target` up to ASCII case.
pub fn name_matches(name: &Vec<u8>, target: &Vec<u8>) -> (r: bool)
    ensures
        r == (spec_lower(name@) == spec_lower(target@)),
{
    let a = lower_bytes(name);
    let b = lower_bytes(target);
    let eq = a == b;
    proof {
        if a@ =~= b@ {
            assert(a@ == b@);
        }
    }
    eq
}

/// `needle` occurs in `hay` starting at position `i`.
pub open spec fn spec_match_at(hay: Seq<u8>, needle: Seq<u8>, i: int) -> bool {
    &&& 0 <= i
    &&& i + needle.len() <= hay.len()
    &&& hay.subrange(i, i + needle.len()) == needle
}

/// `needle` occurs somewhere in `hay` (every sequence contains the empty one).
pub open spec fn spec_contains(hay: Seq<u8>, needle: Seq<u8>) -> bool {
    exists|i: int| spec_match_at(hay, needle, i)
}

/// Decides whether `needle` occurs contiguously in `hay`.
pub fn contains_bytes(hay: &Vec<u8>, needle: &Vec<u8>) -> (r: bool)
    ensures
        r == spec_contains(hay@, needle@),
{
    if needle.len() > hay.len() {
        proof {
            assert(forall|i: int| !spec_match_at(hay@, needle@, i));
        }
        return false;
    }
    let mut i: usize = 0;
    while i <= hay.len() - needle.len()
        invariant
            needle@.len() <= hay@.len(),
            hay@.len() <= usize::MAX,
            0 <= i <= hay@.len() - needle@.len() + 1,
            forall|k: int| 0 <= k < i ==> !spec_match_at(hay@, needle@, k),
        decreases hay@.len() + 1 - i,
    {
        let mut j: usize = 0;
        let mut matched = true;
        while matched && j < needle.len()
            invariant
                needle@.len() <= hay@.len(),
                hay@.len() <= usize::MAX,
                0 <= i <= hay@.len() - needle@.len(),
                0 <= j <= needle@.len(),
                matched ==> hay@.subrange(i as int, i + j as int) =~= needle@.subrange(
                    0,
                    j as int,
                ),
                !matched ==> !spec_match_at(hay@, needle@, i as int),
                !matched ==> needle@.len() > 0,
            decreases needle@.len() - j + (if matched {
                1int
            } else {
                0int
            }),
        {
            if hay[i + j] == needle[j] {
                proof {
                    assert(hay@.subrange(i as int, i + j + 1 as int) =~= hay@.subrange(
                        i as int,
                        i + j as int,
                    ).push(hay@[i + j]));
                    assert(needle@.subrange(0, j + 1 as int) =~= needle@.subrange(0, j as int).push(
                        needle@[j as int],
                    ));
                }
                j = j + 1;
            } else {
                proof {
                    if spec_match_at(hay@, needle@, i as int) {
                        assert(hay@.subrange(i as int, i + needle@.len() as int)[j as int]
                            == needle@[j as int]);
                    }
                }
                matched = false;
            }
        }
        if matched {
            proof {
                assert(needle@.subrange(0, needle@.len() as int) =~= needle@);
                assert(spec_match_at(hay@, needle@, i as int));
            }
            return true;
        }
        i = i + 1;
    }
    proof {
        assert(forall|k: int| !spec_match_at(hay@, needle@, k));
    }
    false
}

/// Copies the UTF-8 bytes of a string slice into a fresh byte vector.
pub fn str_to_bytes(s: &str) -> (r: Vec<u8>)
    ensures
        r@ == s.spec_bytes(),
{
    s.as_bytes_vec()
}

/// Appends the UTF-8 bytes of a string slice to `out`.
pub fn push_str_bytes(out: &mut Vec<u8>, s: &str)
    ensures
        final(out)@ == old(out)@ + s.spec_bytes(),
{
    let b = s.as_bytes();
    out.extend_from_slice(b);
}

/// Appends all bytes of `src` to `out`.
pub fn push_bytes(out: &mut Vec<u8>, src: &Vec<u8>)
    ensures
        final(out)@ == old(out)@ + src@,
{
    out.extend_from_slice(src.as_slice());
}

/// Decides byte-for-byte equality of two byte vectors.
pub fn bytes_eq(a: &Vec<u8>, b: &Vec<u8>) -> (r: bool)
    ensures
        r == (a@ == b@),
{
    let eq = a == b;
    proof {
        if eq {
            assert(a@ =~= b@);
        }
    }
    eq
}

/// Returns a copy of the byte vector with the same contents.
pub fn copy_bytes(s: &Vec<u8>) -> (r: Vec<u8>)
    ensures
        r@ == s@,
{
    let r = s.clone();
    proof {
        assert(r@ =~= s@);
    }
    r
}

} // verus!
