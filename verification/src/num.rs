//! Decimal numbers on the wire: parsing unsigned integers, parsing the
//! fractional `elapsed` field, and formatting an integer for a command line.

use vstd::prelude::*;

verus! {

/// `b` is an ASCII decimal digit.
pub open spec fn is_digit(b: u8) -> bool {
    48 <= b <= 57
}

/// Every byte of `s` is an ASCII decimal digit.
pub open spec fn all_digits(s: Seq<u8>) -> bool {
    forall|i: int| 0 <= i < s.len() ==> is_digit(#[trigger] s[i])
}

/// The value of a digit sequence read as a decimal number.
pub open spec fn dec_val(s: Seq<u8>) -> int
    decreases s.len(),
{
    if s.len() == 0 {
        0
    } else {
        dec_val(s.drop_last()) * 10 + (s.last() - 48)
    }
}

/// What parsing `s` as an unbounded unsigned decimal integer yields:
/// the value when `s` is one or more digits, nothing otherwise.
pub open spec fn parse_dec(s: Seq<u8>) -> Option<int> {
    if s.len() > 0 && all_digits(s) {
        Some(dec_val(s))
    } else {
        None
    }
}

proof fn lemma_dec_val_take_step(s: Seq<u8>, i: int)
    requires
        0 <= i < s.len(),
    ensures
        dec_val(s.take(i + 1)) == dec_val(s.take(i)) * 10 + (s[i] - 48),
{
    assert(s.take(i + 1).drop_last() =~= s.take(i));
    assert(s.take(i + 1).last() == s[i]);
}

/// A digit sequence is worth a non-negative amount.
proof fn lemma_dec_val_nonneg(s: Seq<u8>)
    requires
        all_digits(s),
    ensures
        dec_val(s) >= 0,
    decreases s.len(),
{
    if s.len() > 0 {
        assert(all_digits(s.drop_last()));
        lemma_dec_val_nonneg(s.drop_last());
    }
}

/// A digit sequence is worth at least any of its initial segments.
proof fn lemma_dec_val_take_le(s: Seq<u8>, i: int)
    requires
        0 <= i <= s.len(),
        all_digits(s),
    ensures
        dec_val(s.take(i)) <= dec_val(s),
    decreases s.len() - i,
{
    if i == s.len() {
        assert(s.take(i) =~= s);
    } else {
        lemma_dec_val_take_le(s, i + 1);
        lemma_dec_val_take_step(s, i);
        assert(all_digits(s.take(i)));
        lemma_dec_val_nonneg(s.take(i));
    }
}

/// Parse `s` as an unsigned decimal integer no greater than `max`.
/// Yields the value exactly when `s` is one or more digits and the value
/// fits; an empty slice, a non-digit byte, or a value above `max` yields
/// nothing.
pub fn parse_dec_bounded(s: &[u8], max: u64) -> (r: Option<u64>)
    ensures
        match parse_dec(s@) {
            Some(v) => if v <= max { 0 <= v && r == Some(v as u64) } else { r is None },
            None => r is None,
        },
{
    if s.len() == 0 {
        return None;
    }
    let n = s.len();
    let mut acc: u64 = 0;
    let mut i: usize = 0;
    while i < n
        invariant
            0 < n == s@.len(),
            i <= n,
            forall|j: int| 0 <= j < i ==> is_digit(#[trigger] s@[j]),
            acc == dec_val(s@.take(i as int)),
            acc <= max,
        decreases n - i,
    {
        let b = s[i];
        if b < 48 || b > 57 {
            return None;
        }
        proof {
            lemma_dec_val_take_step(s@, i as int);
        }
        let d = (b - 48) as u64;
        let hi = match acc.checked_mul(10) {
            Some(hi) => hi,
            None => {
                proof {
                    if all_digits(s@) {
                        lemma_dec_val_take_le(s@, i + 1 as int);
                    }
                }
                return None;
            },
        };
        let acc2 = match hi.checked_add(d) {
            Some(acc2) => acc2,
            None => {
                proof {
                    if all_digits(s@) {
                        lemma_dec_val_take_le(s@, i + 1 as int);
                    }
                }
                return None;
            },
        };
        if acc2 > max {
            proof {
                if all_digits(s@) {
                    lemma_dec_val_take_le(s@, i + 1 as int);
                }
            }
            return None;
        }
        acc = acc2;
        i += 1;
    }
    proof {
        assert(s@.take(n as int) =~= s@);
    }
    Some(acc)
}

/// The position of the first `.` in `s`, or the length of `s` when there
/// is none.
pub open spec fn dot_pos(s: Seq<u8>) -> int
    decreases s.len(),
{
    if s.len() == 0 {
        0
    } else if s[0] == 46 {
        0
    } else {
        1 + dot_pos(s.drop_first())
    }
}

proof fn lemma_dot_pos_at(s: Seq<u8>, d: int)
    requires
        0 <= d <= s.len(),
        forall|j: int| 0 <= j < d ==> s[j] != 46,
        d < s.len() ==> s[d] == 46,
        d == s.len() || s[d] == 46,
    ensures
        dot_pos(s) == d,
    decreases d,
{
    if s.len() == 0 {
    } else if d == 0 {
        if s.len() > 0 && s[0] != 46 {
            assert(false);
        }
    } else {
        lemma_dot_pos_at(s.drop_first(), d - 1);
    }
}

/// The digits before the first `.` of `s`, or all of `s` when there is
/// no `.`.
pub open spec fn int_part(s: Seq<u8>) -> Seq<u8> {
    s.take(dot_pos(s))
}

/// The bytes after the first `.` of `s`, empty when there is no `.`.
pub open spec fn frac_part(s: Seq<u8>) -> Seq<u8> {
    if dot_pos(s) == s.len() {
        Seq::empty()
    } else {
        s.subrange(dot_pos(s) + 1, s.len() as int)
    }
}

/// `s` is a non-negative decimal number with an optional fractional part:
/// digits around at most one `.`, with at least one digit in all.
pub open spec fn elapsed_accepted(s: Seq<u8>) -> bool {
    all_digits(int_part(s)) && all_digits(frac_part(s)) && (int_part(s).len() > 0 || frac_part(
        s,
    ).len() > 0)
}

/// The whole-second reading of an accepted elapsed value: the integer
/// part, rounded up when the first fractional digit is five or more.
pub open spec fn elapsed_rounded(s: Seq<u8>) -> int {
    dec_val(int_part(s)) + if frac_part(s).len() > 0 && frac_part(s)[0] >= 53 {
        1int
    } else {
        0int
    }
}

/// What parsing `s` as an elapsed time in seconds yields: the rounded
/// whole-second value clamped to `u16::MAX`, or nothing when `s` is not
/// an accepted decimal number.
pub open spec fn parse_elapsed_spec(s: Seq<u8>) -> Option<u16> {
    if elapsed_accepted(s) {
        if elapsed_rounded(s) <= u16::MAX {
            Some(elapsed_rounded(s) as u16)
        } else {
            Some(u16::MAX)
        }
    } else {
        None
    }
}

/// Parse `s` as a decimal elapsed time, rounding to the nearest whole
/// second and clamping to `u16::MAX`.
pub fn parse_elapsed(s: &[u8]) -> (r: Option<u16>)
    ensures
        r == parse_elapsed_spec(s@),
{
    let n = s.len();
    let mut d: usize = 0;
    while d < n && s[d] != 46
        invariant
            0 <= d <= n,
            n == s@.len(),
            forall|j: int| 0 <= j < d ==> s@[j] != 46,
        decreases n - d,
    {
        d += 1;
    }
    proof {
        lemma_dot_pos_at(s@, d as int);
        assert(int_part(s@) == s@.subrange(0, d as int));
    }
    let ip = vstd::slice::slice_subrange(s, 0, d);
    let fp = if d < n {
        vstd::slice::slice_subrange(s, d + 1, n)
    } else {
        vstd::slice::slice_subrange(s, n, n)
    };
    proof {
        assert(ip@ == int_part(s@));
        if d < n {
            assert(fp@ == frac_part(s@));
        } else {
            assert(fp@ =~= frac_part(s@));
        }
    }
    if ip.len() == 0 && fp.len() == 0 {
        return None;
    }
    let mut exceeded = false;
    let mut acc: u32 = 0;
    let m = ip.len();
    let mut i: usize = 0;
    while i < m
        invariant
            0 <= i <= m,
            m == ip@.len(),
            ip@ == int_part(s@),
            forall|j: int| 0 <= j < i ==> is_digit(#[trigger] ip@[j]),
            !exceeded ==> acc == dec_val(ip@.take(i as int)) && acc <= 65535,
            exceeded ==> dec_val(ip@.take(i as int)) > 65535,
        decreases m - i,
    {
        let b = ip[i];
        if b < 48 || b > 57 {
            assert(!all_digits(ip@));
            return None;
        }
        proof {
            lemma_dec_val_take_step(ip@, i as int);
        }
        if exceeded {
            proof {
                lemma_dec_val_nonneg(ip@.take(i as int).push(b));
                assert(ip@.take(i + 1 as int) =~= ip@.take(i as int).push(b));
            }
        } else {
            let acc2: u32 = acc * 10 + (b - 48) as u32;
            if acc2 > 65535 {
                exceeded = true;
            } else {
                acc = acc2;
            }
        }
        i += 1;
    }
    proof {
        assert(ip@.take(m as int) =~= ip@);
    }
    let mut k: usize = 0;
    let fl = fp.len();
    while k < fl
        invariant
            0 <= k <= fl,
            fl == fp@.len(),
            fp@ == frac_part(s@),
            forall|j: int| 0 <= j < k ==> is_digit(#[trigger] fp@[j]),
        decreases fl - k,
    {
        let b = fp[k];
        if b < 48 || b > 57 {
            assert(!all_digits(fp@));
            return None;
        }
        k += 1;
    }
    let round_up = fl > 0 && fp[0] >= 53;
    if exceeded {
        proof {
            if frac_part(s@).len() > 0 && frac_part(s@)[0] >= 53 {
                assert(elapsed_rounded(s@) > 65535);
            }
        }
        Some(65535)
    } else {
        let v: u32 = if round_up {
            acc + 1
        } else {
            acc
        };
        if v > 65535 {
            Some(65535)
        } else {
            Some(v as u16)
        }
    }
}

/// The decimal digits of `n`, most significant first.
pub open spec fn dec_digits(n: int) -> Seq<u8>
    decreases n,
{
    if n < 10 {
        seq![(48 + if n >= 0 { n } else { 0 }) as u8]
    } else {
        dec_digits(n / 10).push((48 + n % 10) as u8)
    }
}

/// The shortest decimal rendering of `n`, most significant digit first.
pub fn format_usize(n: usize) -> (r: Vec<u8>)
    ensures
        r@ == dec_digits(n as int),
    decreases n,
{
    if n < 10 {
        let mut r: Vec<u8> = Vec::new();
        r.push(48 + n as u8);
        r
    } else {
        let mut r = format_usize(n / 10);
        r.push(48 + (n % 10) as u8);
        r
    }
}

} // verus!
