//! Decimal rendering of integers and of byte counts.
use vstd::prelude::*;

verus! {

/// The character of decimal digit `d`.
pub open spec fn digit_char(d: nat) -> char {
    "0123456789"@[d as int]
}

/// The decimal digits of `n`, most significant first, without leading zeros.
pub open spec fn decimal(n: nat) -> Seq<char>
    decreases n,
{
    if n < 10 {
        seq![digit_char(n)]
    } else {
        decimal(n / 10).push(digit_char(n % 10))
    }
}

proof fn lemma_digit_chars()
    ensures
        forall|a: nat, b: nat| a < 10 && b < 10 && digit_char(a) == digit_char(b) ==> a == b,
        forall|a: nat| a < 10 ==> digit_char(a) != '(' && digit_char(a) != ')',
{
    reveal_strlit("0123456789");
}

pub proof fn lemma_decimal_len(n: nat)
    ensures
        decimal(n).len() >= 1,
        n >= 10 ==> decimal(n).len() >= 2,
        forall|i: int| 0 <= i < decimal(n).len() ==> decimal(n)[i] != '(' && decimal(n)[i] != ')',
    decreases n,
{
    lemma_digit_chars();
    if n >= 10 {
        lemma_decimal_len(n / 10);
    }
}

/// Distinct numbers have distinct decimal renderings.
pub proof fn lemma_decimal_injective(a: nat, b: nat)
    requires
        decimal(a) == decimal(b),
    ensures
        a == b,
    decreases a,
{
    lemma_digit_chars();
    lemma_decimal_len(a);
    lemma_decimal_len(b);
    if a < 10 && b < 10 {
        assert(decimal(a)[0] == digit_char(a));
    } else if a >= 10 && b >= 10 {
        let da = decimal(a);
        assert(da.last() == digit_char(a % 10));
        assert(decimal(b).last() == digit_char(b % 10));
        assert(decimal(a / 10) == da.drop_last());
        assert(decimal(b / 10) == decimal(b).drop_last());
        lemma_decimal_injective(a / 10, b / 10);
    } else {
        lemma_decimal_len(a / 10);
        lemma_decimal_len(b / 10);
    }
}

fn digit_str(d: u64) -> (r: &'static str)
    requires
        d < 10,
    ensures
        r@ == seq![digit_char(d as nat)],
{
    let all = "0123456789";
    proof {
        reveal_strlit("0123456789");
    }
    let r = all.substring_char(d as usize, d as usize + 1);
    assert(r@ =~= seq![digit_char(d as nat)]);
    r
}

/// Renders `n` in decimal.
pub fn decimal_string(n: u64) -> (r: String)
    ensures
        r@ == decimal(n as nat),
    decreases n,
{
    if n < 10 {
        String::from_str(digit_str(n))
    } else {
        let mut s = decimal_string(n / 10);
        s.append(digit_str(n % 10));
        proof {
            assert(s@ =~= decimal(n as nat));
        }
        s
    }
}

/// `value / unit` in hundredths, rounded to nearest with ties to even.
pub open spec fn hundredths(value: nat, unit: nat) -> nat
    recommends
        unit > 0,
{
    let q = value * 100 / unit;
    let r = value * 100 % unit;
    if 2 * r > unit || (2 * r == unit && q % 2 == 1) {
        q + 1
    } else {
        q
    }
}

/// `value / unit` with two decimals.
pub open spec fn fixed_two(value: nat, unit: nat) -> Seq<char> {
    let h = hundredths(value, unit);
    let frac = h % 100;
    decimal(h / 100) + "."@ + (if frac < 10 {
        "0"@ + decimal(frac)
    } else {
        decimal(frac)
    })
}

pub open spec fn kib() -> nat {
    1024
}

pub open spec fn mib() -> nat {
    1024 * 1024
}

pub open spec fn gib() -> nat {
    1024 * 1024 * 1024
}

/// A byte count for display: whole bytes below one KiB, otherwise KB, MB or
/// GB (binary multiples) with two decimals.
pub open spec fn human_size(size: nat) -> Seq<char> {
    if size < kib() {
        decimal(size) + " B"@
    } else if size < mib() {
        fixed_two(size, kib()) + " KB"@
    } else if size < gib() {
        fixed_two(size, mib()) + " MB"@
    } else {
        fixed_two(size, gib()) + " GB"@
    }
}

fn fixed_two_string(value: u64, unit: u64) -> (r: String)
    requires
        unit == kib() || unit == mib() || unit == gib(),
    ensures
        r@ == fixed_two(value as nat, unit as nat),
{
    let scaled: u128 = value as u128 * 100;
    let q: u128 = scaled / (unit as u128);
    let rem: u128 = scaled % (unit as u128);
    let h: u128 = if 2 * rem > unit as u128 || (2 * rem == unit as u128 && q % 2 == 1) {
        q + 1
    } else {
        q
    };
    assert(h == hundredths(value as nat, unit as nat));
    assert(q <= scaled) by (nonlinear_arith)
        requires
            q == scaled / (unit as u128),
            unit >= 1,
    ;
    let whole = (h / 100) as u64;
    let frac = (h % 100) as u64;
    let mut s = decimal_string(whole);
    s.append(".");
    if frac < 10 {
        s.append("0");
    }
    let f = decimal_string(frac);
    s.append(f.as_str());
    proof {
        if frac < 10 {
            assert(s@ =~= fixed_two(value as nat, unit as nat));
        } else {
            assert(s@ =~= fixed_two(value as nat, unit as nat));
        }
    }
    s
}

/// Renders a byte count for display.
pub fn get_human_readable_size(size: u64) -> (r: String)
    ensures
        r@ == human_size(size as nat),
{
    let s = if size < 1024 {
        let mut d = decimal_string(size);
        d.append(" B");
        d
    } else if size < 1024 * 1024 {
        let mut d = fixed_two_string(size, 1024);
        d.append(" KB");
        d
    } else if size < 1024 * 1024 * 1024 {
        let mut d = fixed_two_string(size, 1024 * 1024);
        d.append(" MB");
        d
    } else {
        let mut d = fixed_two_string(size, 1024 * 1024 * 1024);
        d.append(" GB");
        d
    };
    s
}

} // verus!
