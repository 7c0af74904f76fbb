//! Decimal text for fixed-point quantities, as it appears in the reasons
//! that safety and guard decisions carry.

use vstd::prelude::*;
use vstd::string::*;

verus! {

/// The character of one decimal digit.
pub open spec fn digit_char(d: int) -> char {
    if d == 0 {
        '0'
    } else if d == 1 {
        '1'
    } else if d == 2 {
        '2'
    } else if d == 3 {
        '3'
    } else if d == 4 {
        '4'
    } else if d == 5 {
        '5'
    } else if d == 6 {
        '6'
    } else if d == 7 {
        '7'
    } else if d == 8 {
        '8'
    } else {
        '9'
    }
}

/// The decimal digits of `n`, without leading zeros.
pub open spec fn decimal_digits(n: nat) -> Seq<char>
    decreases n,
{
    if n < 10 {
        seq![digit_char(n as int)]
    } else {
        decimal_digits(n / 10).push(digit_char((n % 10) as int))
    }
}

/// The last `width` decimal digits of `n`, with leading zeros.
pub open spec fn padded_digits(n: nat, width: nat) -> Seq<char>
    decreases width,
{
    if width == 0 {
        Seq::<char>::empty()
    } else {
        padded_digits(n / 10, (width - 1) as nat).push(digit_char((n % 10) as int))
    }
}

/// Ten to the power `k`.
pub open spec fn pow10(k: nat) -> nat
    decreases k,
{
    if k == 0 {
        1
    } else {
        10 * pow10((k - 1) as nat)
    }
}

/// The magnitude `m`, in millionths, rounded half up to `places` decimals
/// and counted in units of the last decimal kept.
pub open spec fn rounded_units(m: nat, places: nat) -> nat
    recommends
        places <= 6,
{
    let unit = pow10((6 - places) as nat);
    (m + unit / 2) / unit
}

/// The text of a magnitude in millionths with `places` decimals: the whole
/// part, a point, and exactly `places` digits.
pub open spec fn magnitude_text(m: nat, places: nat) -> Seq<char>
    recommends
        places <= 6,
{
    let t = rounded_units(m, places);
    decimal_digits(t / pow10(places)) + seq!['.'] + padded_digits(t % pow10(places), places)
}

/// The text of a signed quantity in millionths with `places` decimals.
pub open spec fn fixed_text(v: int, places: nat) -> Seq<char>
    recommends
        places <= 6,
{
    if v < 0 {
        seq!['-'] + magnitude_text((-v) as nat, places)
    } else {
        magnitude_text(v as nat, places)
    }
}

fn digit_str(d: u64) -> (s: &'static str)
    requires
        d < 10,
    ensures
        s@ == seq![digit_char(d as int)],
{
    proof {
        reveal_strlit("0");
        reveal_strlit("1");
        reveal_strlit("2");
        reveal_strlit("3");
        reveal_strlit("4");
        reveal_strlit("5");
        reveal_strlit("6");
        reveal_strlit("7");
        reveal_strlit("8");
        reveal_strlit("9");
    }
    let s = if d == 0 {
        "0"
    } else if d == 1 {
        "1"
    } else if d == 2 {
        "2"
    } else if d == 3 {
        "3"
    } else if d == 4 {
        "4"
    } else if d == 5 {
        "5"
    } else if d == 6 {
        "6"
    } else if d == 7 {
        "7"
    } else if d == 8 {
        "8"
    } else {
        "9"
    };
    assert(s@ =~= seq![digit_char(d as int)]);
    s
}

/// Appends the decimal digits of `n` to `out`.
pub fn append_decimal(out: &mut String, n: u64)
    ensures
        final(out)@ == old(out)@ + decimal_digits(n as nat),
    decreases n,
{
    if n >= 10 {
        append_decimal(out, n / 10);
    }
    let ghost before = out@;
    out.append(digit_str(n % 10));
    proof {
        if n >= 10 {
            assert(out@ =~= old(out)@ + decimal_digits((n / 10) as nat).push(
                digit_char((n % 10) as int),
            ));
        } else {
            assert(out@ =~= old(out)@ + seq![digit_char(n as int)]);
        }
    }
}

/// Appends the last `width` decimal digits of `n` to `out`, with leading zeros.
pub fn append_padded(out: &mut String, n: u64, width: u32)
    ensures
        final(out)@ == old(out)@ + padded_digits(n as nat, width as nat),
    decreases width,
{
    if width == 0 {
        assert(out@ =~= old(out)@ + padded_digits(n as nat, 0));
    } else {
        append_padded(out, n / 10, width - 1);
        out.append(digit_str(n % 10));
        assert(out@ =~= old(out)@ + padded_digits((n / 10) as nat, (width - 1) as nat).push(
            digit_char((n % 10) as int),
        ));
    }
}

/// Ten to the power `k`, for the powers that a millionth can be cut into.
pub fn power_of_ten(k: u32) -> (p: u64)
    requires
        k <= 6,
    ensures
        p as nat == pow10(k as nat),
        1 <= p <= 1_000_000,
{
    reveal_with_fuel(pow10, 8);
    if k == 0 {
        1
    } else if k == 1 {
        10
    } else if k == 2 {
        100
    } else if k == 3 {
        1_000
    } else if k == 4 {
        10_000
    } else if k == 5 {
        100_000
    } else {
        1_000_000
    }
}

/// The distance of `v` from zero.
pub fn magnitude_of(v: i64) -> (m: u64)
    ensures
        m as int == (if v < 0 {
            -(v as int)
        } else {
            v as int
        }),
{
    if v >= 0 {
        v as u64
    } else if v == i64::MIN {
        9_223_372_036_854_775_808u64
    } else {
        (-v) as u64
    }
}

/// Appends the text of the magnitude `m`, in millionths, with `places` decimals.
pub fn append_magnitude(out: &mut String, m: u64, places: u32)
    requires
        places <= 6,
    ensures
        final(out)@ == old(out)@ + magnitude_text(m as nat, places as nat),
{
    let unit: u64 = power_of_ten(6 - places);
    let whole_unit: u64 = power_of_ten(places);
    let wide: u128 = (m as u128 + (unit / 2) as u128) / (unit as u128);
    assert(wide <= m) by (nonlinear_arith)
        requires
            unit >= 1,
            m >= 0,
            wide == (m + unit / 2) / (unit as int),
    ;
    let t: u64 = wide as u64;
    append_decimal(out, t / whole_unit);
    proof {
        reveal_strlit(".");
    }
    out.append(".");
    append_padded(out, t % whole_unit, places);
    proof {
        assert(t as nat == rounded_units(m as nat, places as nat));
        assert(out@ =~= old(out)@ + magnitude_text(m as nat, places as nat));
    }
}

/// Appends the text of `v`, a signed quantity in millionths, with `places` decimals.
pub fn append_fixed(out: &mut String, v: i64, places: u32)
    requires
        places <= 6,
    ensures
        final(out)@ == old(out)@ + fixed_text(v as int, places as nat),
{
    let magnitude: u64 = magnitude_of(v);
    if v < 0 {
        proof {
            reveal_strlit("-");
        }
        out.append("-");
    }
    let ghost signed = out@;
    append_magnitude(out, magnitude, places);
    proof {
        if v < 0 {
            assert("-"@ =~= seq!['-']);
            assert(out@ =~= old(out)@ + (seq!['-'] + magnitude_text(
                magnitude as nat,
                places as nat,
            )));
        }
    }
}

} // verus!
