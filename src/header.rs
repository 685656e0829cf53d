//! Reading the response headers that a download depends on.
use vstd::prelude::*;

verus! {

pub open spec fn is_digit(c: char) -> bool {
    '0' <= c && c <= '9'
}

pub open spec fn digit_value(c: char) -> nat {
    (c as u32 - '0' as u32) as nat
}

/// The number written by a string of decimal digits.
pub open spec fn digits_value(s: Seq<char>) -> nat
    decreases s.len(),
{
    if s.len() == 0 {
        0
    } else {
        digits_value(s.drop_last()) * 10 + digit_value(s.last())
    }
}

/// The text after an optional leading `+`.
pub open spec fn unsigned_digits(s: Seq<char>) -> Seq<char> {
    if s.len() > 0 && s[0] == '+' {
        s.drop_first()
    } else {
        s
    }
}

/// How an unsigned 64-bit integer is read from text: an optional `+`, then
/// at least one decimal digit, with a value that fits.
pub open spec fn parse_u64(s: Seq<char>) -> Option<u64> {
    let d = unsigned_digits(s);
    if d.len() > 0 && (forall|i: int| 0 <= i < d.len() ==> is_digit(#[trigger] d[i]))
        && digits_value(d) <= u64::MAX {
        Some(digits_value(d) as u64)
    } else {
        None
    }
}

/// Whether `c` equals the lower-case ASCII letter or symbol `t` up to ASCII case.
pub open spec fn ascii_fold_eq(c: char, t: char) -> bool {
    c == t || ('a' <= t && t <= 'z' && c as u32 + 32 == t as u32)
}

/// Whether the Accept-Ranges value announces byte ranges: `bytes`, in any
/// ASCII case.
pub open spec fn is_bytes_unit(s: Seq<char>) -> bool {
    s.len() == 5 && forall|i: int| 0 <= i < 5 ==> ascii_fold_eq(#[trigger] s[i], "bytes"@[i])
}

/// The Content-Length of a response, when the header is present and holds a
/// number.
pub fn parse_content_length(value: Option<&str>) -> (r: Option<u64>)
    ensures
        r == match value {
            Some(v) => parse_u64(v@),
            None => None,
        },
{
    match value {
        Some(v) => parse_decimal_u64(v),
        None => None,
    }
}

/// Reads an unsigned 64-bit integer written in decimal.
pub fn parse_decimal_u64(s: &str) -> (r: Option<u64>)
    ensures
        r == parse_u64(s@),
{
    let len = s.unicode_len();
    let start: usize = if len > 0 && s.get_char(0) == '+' {
        1
    } else {
        0
    };
    let ghost d = unsigned_digits(s@);
    assert(d =~= s@.subrange(start as int, len as int));
    if start == len {
        return None;
    }
    let mut i: usize = start;
    let mut acc: u64 = 0;
    while i < len
        invariant
            start <= i <= len == s@.len(),
            d =~= s@.subrange(start as int, len as int),
            d == unsigned_digits(s@),
            forall|j: int| 0 <= j < i - start ==> is_digit(#[trigger] d[j]),
            acc as nat == digits_value(d.subrange(0, i - start)),
        decreases len - i,
    {
        let c = s.get_char(i);
        assert(d[i - start] == s@[i as int]);
        if !('0' <= c && c <= '9') {
            assert(!is_digit(d[i - start]));
            assert(!is_digit(unsigned_digits(s@)[i - start]));
            assert(parse_u64(s@) is None);
            return None;
        }
        let v = (c as u32 - '0' as u32) as u64;
        assert(d.subrange(0, i + 1 - start).drop_last() =~= d.subrange(0, i - start));
        assert(digits_value(d.subrange(0, i + 1 - start)) == acc * 10 + v);
        if acc > (u64::MAX - v) / 10 {
            proof {
                lemma_digits_prefix_bound(d, (i + 1 - start) as int);
                assert(acc * 10 + v > u64::MAX) by (nonlinear_arith)
                    requires
                        acc > (u64::MAX - v) / 10,
                        v <= 9,
                ;
                assert(digits_value(d) > u64::MAX);
                assert(parse_u64(s@) is None);
            }
            return None;
        }
        acc = acc * 10 + v;
        i = i + 1;
    }
    assert(d.subrange(0, len - start) =~= d);
    Some(acc)
}

/// A number written with more digits cannot be smaller than its prefix.
proof fn lemma_digits_prefix_bound(d: Seq<char>, k: int)
    requires
        0 <= k <= d.len(),
    ensures
        digits_value(d.subrange(0, k)) <= digits_value(d),
    decreases d.len() - k,
{
    if k < d.len() {
        lemma_digits_prefix_bound(d, k + 1);
        assert(d.subrange(0, k + 1).drop_last() =~= d.subrange(0, k));
    } else {
        assert(d.subrange(0, k) =~= d);
    }
}

/// Whether the Accept-Ranges header announces byte ranges.
pub fn accepts_byte_ranges(value: Option<&str>) -> (r: bool)
    ensures
        r == match value {
            Some(v) => is_bytes_unit(v@),
            None => false,
        },
{
    match value {
        Some(v) => is_bytes(v),
        None => false,
    }
}

/// Whether `s` is `bytes` in any ASCII case.
pub fn is_bytes(s: &str) -> (r: bool)
    ensures
        r == is_bytes_unit(s@),
{
    let unit = "bytes";
    proof {
        reveal_strlit("bytes");
    }
    if s.unicode_len() != 5 {
        return false;
    }
    let mut i: usize = 0;
    while i < 5
        invariant
            i <= 5,
            s@.len() == 5,
            unit@ == "bytes"@,
            unit@.len() == 5,
            forall|j: int| 0 <= j < i ==> ascii_fold_eq(#[trigger] s@[j], "bytes"@[j]),
        decreases 5 - i,
    {
        let c = s.get_char(i);
        let t = unit.get_char(i);
        if !(c == t || ('a' <= t && t <= 'z' && c as u32 + 32 == t as u32)) {
            assert(!ascii_fold_eq(s@[i as int], "bytes"@[i as int]));
            assert(!is_bytes_unit(s@));
            return false;
        }
        i = i + 1;
    }
    true
}

} // verus!
