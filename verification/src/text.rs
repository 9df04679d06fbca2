//! Byte-level helpers for the line-oriented wire format.
//!
//! The protocol is plain ASCII text, so every pattern the decoders match
//! against is written here as a string literal and handed out as its byte
//! sequence, together with the few comparison primitives the decoders need.

use vstd::prelude::*;
use vstd::string::StringSliceAdditionalSpecFns;

verus! {

/// The bytes of an ASCII character sequence, one byte per character.
pub open spec fn bytes_of(s: Seq<char>) -> Seq<u8> {
    Seq::new(s.len(), |i: int| s[i] as u8)
}

/// `pat` is an initial segment of `s`.
pub open spec fn is_prefix_of(pat: Seq<u8>, s: Seq<u8>) -> bool {
    pat.len() <= s.len() && s.subrange(0, pat.len() as int) == pat
}

/// The bytes of an ASCII string slice, for handing a literal pattern to
/// the byte-level comparison functions.
pub fn ascii_bytes(s: &str) -> (p: &[u8])
    requires
        vstd::string::is_ascii(s),
    ensures
        p@ == bytes_of(s@),
{
    proof {
        vstd::string::is_ascii_spec_bytes(s);
        assert(s.spec_bytes() =~= bytes_of(s@));
    }
    s.as_bytes()
}

/// The two slices hold the same bytes.
pub fn bytes_eq(a: &[u8], b: &[u8]) -> (r: bool)
    ensures
        r == (a@ == b@),
{
    if a.len() != b.len() {
        return false;
    }
    let n = a.len();
    let mut i: usize = 0;
    while i < n
        invariant
            n == a@.len(),
            n == b@.len(),
            i <= n,
            forall|j: int| 0 <= j < i ==> a@[j] == b@[j],
        decreases n - i,
    {
        if a[i] != b[i] {
            return false;
        }
        i += 1;
    }
    proof {
        assert(a@ =~= b@);
    }
    true
}

/// `pat` is an initial segment of `line`.
pub fn has_prefix(line: &[u8], pat: &[u8]) -> (r: bool)
    ensures
        r == is_prefix_of(pat@, line@),
{
    if pat.len() > line.len() {
        return false;
    }
    let n = pat.len();
    let mut i: usize = 0;
    while i < n
        invariant
            n == pat@.len(),
            n <= line@.len(),
            i <= n,
            forall|j: int| 0 <= j < i ==> line@[j] == pat@[j],
        decreases n - i,
    {
        if line[i] != pat[i] {
            proof {
                assert(line@.subrange(0, n as int)[i as int] != pat@[i as int]);
            }
            return false;
        }
        i += 1;
    }
    proof {
        assert(line@.subrange(0, n as int) =~= pat@);
    }
    true
}

/// Append every byte of `s` to `v`.
pub fn append_bytes(v: &mut Vec<u8>, s: &[u8])
    ensures
        final(v)@ == old(v)@ + s@,
{
    let n = s.len();
    let mut i: usize = 0;
    while i < n
        invariant
            i <= n,
            n == s@.len(),
            v@ == old(v)@ + s@.subrange(0, i as int),
        decreases n - i,
    {
        v.push(s[i]);
        proof {
            assert(old(v)@ + s@.subrange(0, i + 1 as int) =~= (old(v)@ + s@.subrange(
                0,
                i as int,
            )).push(s@[i as int]));
        }
        i += 1;
    }
    proof {
        assert(s@.subrange(0, n as int) =~= s@);
    }
}

/// A copy of `line` from position `from` to the end.
pub fn suffix_from(line: &[u8], from: usize) -> (r: Vec<u8>)
    requires
        from <= line@.len(),
    ensures
        r@ == line@.subrange(from as int, line@.len() as int),
{
    let mut r: Vec<u8> = Vec::new();
    let n = line.len();
    let mut i: usize = from;
    while i < n
        invariant
            from <= i <= n,
            n == line@.len(),
            r@ == line@.subrange(from as int, i as int),
        decreases n - i,
    {
        r.push(line[i]);
        proof {
            assert(r@ =~= line@.subrange(from as int, i + 1 as int));
        }
        i += 1;
    }
    r
}

} // verus!
