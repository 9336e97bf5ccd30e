//! Prices, volumes and sums of money.
//!
//! A price, a volume or a sum of money is an integer number of ten-thousandths,
//! so that every comparison and every sum is exact. The product of a price and
//! a volume is a number of hundred-millionths; a rate times such a product is
//! a number of units of which `10^12` make one.
use crate::text;
use vstd::prelude::*;
use vstd::string::*;

verus! {

/// One, in ten-thousandths.
pub const ONE: i64 = 10_000;

/// Volumes of at most this size count as nothing left to fill.
pub const VOLUME_TOLERANCE: i64 = 10;

/// The nearest `i64`.
pub open spec fn clamp64(x: int) -> int {
    if x < i64::MIN {
        i64::MIN as int
    } else if x > i64::MAX {
        i64::MAX as int
    } else {
        x
    }
}

/// The nearest `i128`.
pub open spec fn clamp128(x: int) -> int {
    if x < i128::MIN {
        i128::MIN as int
    } else if x > i128::MAX {
        i128::MAX as int
    } else {
        x
    }
}

/// Adds two amounts; a sum out of range stays at the end of the range.
pub fn plus(a: i64, b: i64) -> (r: i64)
    ensures
        r == clamp64(a + b),
{
    let s: i128 = a as i128 + b as i128;
    if s < i64::MIN as i128 {
        i64::MIN
    } else if s > i64::MAX as i128 {
        i64::MAX
    } else {
        s as i64
    }
}

/// Subtracts two amounts; a difference out of range stays at the end of the range.
pub fn minus(a: i64, b: i64) -> (r: i64)
    ensures
        r == clamp64(a - b),
{
    let s: i128 = a as i128 - b as i128;
    if s < i64::MIN as i128 {
        i64::MIN
    } else if s > i64::MAX as i128 {
        i64::MAX
    } else {
        s as i64
    }
}

/// Adds to a running total, which stays at the end of its range once it is there.
pub fn total_plus(a: i128, b: i128) -> (r: i128)
    ensures
        r == clamp128(a + b),
{
    match a.checked_add(b) {
        Some(s) => s,
        None => if b < 0 {
            i128::MIN
        } else {
            i128::MAX
        },
    }
}

/// The product of a price and a volume, in hundred-millionths.
pub fn product(price: i64, volume: i64) -> (r: i128)
    ensures
        r == price * volume,
        -0x4000_0000_0000_0000_0000_0000_0000_0000 <= r <= 0x4000_0000_0000_0000_0000_0000_0000_0000,
{
    assert(-0x4000_0000_0000_0000_0000_0000_0000_0000 <= price * volume
        <= 0x4000_0000_0000_0000_0000_0000_0000_0000) by (nonlinear_arith)
        requires
            -0x8000_0000_0000_0000 <= price <= 0x7fff_ffff_ffff_ffff,
            -0x8000_0000_0000_0000 <= volume <= 0x7fff_ffff_ffff_ffff,
    ;
    price as i128 * volume as i128
}

/// The whole number nearest to `n / d`, the even one of two that are as near.
pub open spec fn rounded(n: nat, d: nat) -> nat {
    let q = n / d;
    let r = n % d;
    if 2 * r > d || (2 * r == d && q % 2 == 1) {
        (q + 1) as nat
    } else {
        q
    }
}

/// The magnitude of an integer.
pub open spec fn magnitude(x: int) -> nat {
    if x < 0 {
        (-x) as nat
    } else {
        x as nat
    }
}

/// A sum of money with two decimals, where `cent` units make one hundredth.
pub open spec fn money_text(x: int, cent: nat) -> Seq<char> {
    let h = rounded(magnitude(x), cent);
    (if x < 0 {
        "-"@
    } else {
        ""@
    }) + text::digits(h / 100) + "."@ + text::zero_padded(text::digits(h % 100), 2)
}

/// Writes a sum of money that is given in rounded hundredths, with its sign.
fn hundredths_text(negative: bool, h: u128) -> (r: String)
    ensures
        r@ == (if negative {
            "-"@
        } else {
            ""@
        }) + text::digits((h / 100) as nat) + "."@ + text::zero_padded(text::digits((h % 100) as nat), 2),
{
    let sign = if negative {
        "-".to_string()
    } else {
        "".to_string()
    };
    let whole = text::joined(sign.as_str(), text::digits_text(h / 100).as_str());
    let dotted = text::joined(whole.as_str(), ".");
    text::joined(dotted.as_str(), text::padded_digits_text(h % 100, 2).as_str())
}

/// Writes an amount in ten-thousandths with two decimals.
pub fn amount_text(x: i64) -> (r: String)
    ensures
        r@ == money_text(x as int, 100),
{
    let m: u128 = if x < 0 {
        (-(x as i128)) as u128
    } else {
        x as u128
    };
    let q: u128 = m / 100;
    let rest: u128 = m % 100;
    let h: u128 = if rest > 50 || (rest == 50 && q % 2 == 1) {
        q + 1
    } else {
        q
    };
    hundredths_text(x < 0, h)
}

/// The rate of the funds that an order takes, in ten-thousandths of its
/// turnover: the whole turnover to open by buying, a fifth of it to open by
/// selling, and the commission of three in any case.
pub open spec fn funds_rate(direction: Seq<char>, offset: Seq<char>) -> int {
    if direction == "BUY"@ && offset == "OPEN"@ {
        10_003
    } else if direction == "SELL"@ && offset == "OPEN"@ {
        2_003
    } else {
        3
    }
}

/// The funds that an order takes, in units of which `10^12` make one.
pub open spec fn required_funds(direction: Seq<char>, offset: Seq<char>, price: int, volume: int) -> int {
    price * volume * funds_rate(direction, offset)
}

/// Whether an amount in ten-thousandths covers funds in units of which `10^12`
/// make one.
pub open spec fn covers(available: int, required: int) -> bool {
    available * 100_000_000 >= required
}

/// The rate of the funds that an order takes.
pub fn rate_of(direction: &str, offset: &str) -> (r: i128)
    ensures
        r == funds_rate(direction@, offset@),
        3 <= r <= 10_003,
{
    if text::same(offset, "OPEN") {
        if text::same(direction, "BUY") {
            return 10_003;
        }
        if text::same(direction, "SELL") {
            return 2_003;
        }
    }
    3
}

/// Whether `available` covers a turnover at a rate.
pub fn covers_turnover(available: i64, price: i64, volume: i64, rate: i128) -> (r: bool)
    requires
        3 <= rate <= 10_003,
    ensures
        r == covers(available as int, price * volume * rate),
{
    let turnover: i128 = product(price, volume);
    let have: i128 = available as i128 * 100_000_000;
    let far: i128 = 0x1_0000_0000_0000_0000_0000_0000;
    if turnover > far {
        assert(turnover * rate > far) by (nonlinear_arith)
            requires
                turnover > far,
                rate >= 3,
                far > 0,
        ;
        return false;
    }
    if turnover < -far {
        assert(turnover * rate < -far) by (nonlinear_arith)
            requires
                turnover < -far,
                rate >= 3,
                far > 0,
        ;
        return true;
    }
    assert(-far * 10_003 <= turnover * rate <= far * 10_003) by (nonlinear_arith)
        requires
            -far <= turnover <= far,
            3 <= rate <= 10_003,
            far > 0,
    ;
    have >= turnover * rate
}

/// Writes the funds of a turnover at a rate with two decimals.
pub fn funds_text(price: i64, volume: i64, rate: i128) -> (r: String)
    requires
        3 <= rate <= 10_003,
    ensures
        r@ == money_text(price * volume * rate, 10_000_000_000),
{
    let turnover: i128 = product(price, volume);
    let a: u128 = if turnover < 0 {
        (-turnover) as u128
    } else {
        turnover as u128
    };
    let k: u128 = rate as u128;
    let d: u128 = 10_000_000_000;
    let q0: u128 = a / d;
    let r0: u128 = a % d;
    assert(q0 * k <= 0x1_0000_0000_0000_0000_0000_0000_0000 * 1 && r0 * k <= d * 10_003) by (nonlinear_arith)
        requires
            q0 <= 0x4000_0000_0000_0000_0000_0000_0000_0000int / 10_000_000_000int,
            r0 <= d,
            k <= 10_003,
    ;
    let q: u128 = q0 * k + (r0 * k) / d;
    let rest: u128 = (r0 * k) % d;
    let h: u128 = if rest > d / 2 || (rest == d / 2 && q % 2 == 1) {
        q + 1
    } else {
        q
    };
    proof {
        let n: int = a * k;
        assert(n == q0 * k * d + r0 * k) by (nonlinear_arith)
            requires
                n == a * k,
                a == q0 * d + r0,
        ;
        assert((q0 * k) * d + r0 * k == d * (q0 * k) + r0 * k) by (nonlinear_arith);
        vstd::arithmetic::div_mod::lemma_div_multiples_vanish_fancy(q0 * k, 0, d as int);
        vstd::arithmetic::div_mod::lemma_fundamental_div_mod(r0 * k, d as int);
        vstd::arithmetic::div_mod::lemma_fundamental_div_mod_converse(n, d as int, q as int, rest as int);
        assert(magnitude(turnover * rate) == n) by {
            if turnover < 0 {
                assert(turnover * rate < 0 && (-turnover) * rate == -(turnover * rate)) by (nonlinear_arith)
                    requires
                        turnover < 0,
                        rate >= 3,
                ;
            } else {
                assert(turnover * rate >= 0) by (nonlinear_arith)
                    requires
                        turnover >= 0,
                        rate >= 3,
                ;
            }
        }
        assert((turnover < 0) == (turnover * rate < 0)) by (nonlinear_arith)
            requires
                rate >= 3,
        ;
        assert(rounded(n as nat, d as nat) == h);
    }
    hundredths_text(turnover < 0, h)
}

/// A sum that fits stays as it is, and one that does not is the end of the range
/// that is nearest to it; no number of the range is nearer.
pub proof fn sums_stay_within_range(x: int, y: i64, z: i128)
    ensures
        i64::MIN <= clamp64(x) <= i64::MAX,
        i128::MIN <= clamp128(x) <= i128::MAX,
        i64::MIN <= x <= i64::MAX ==> clamp64(x) == x,
        i128::MIN <= x <= i128::MAX ==> clamp128(x) == x,
        magnitude(x - clamp64(x)) <= magnitude(x - y),
        magnitude(x - clamp128(x)) <= magnitude(x - z),
        magnitude(x) == x || magnitude(x) == -x,
{
}

/// A rounded quotient is at most half a unit away from the exact one; where two whole
/// numbers are as near, it is the even one.
pub proof fn rounding_is_to_the_nearest(n: nat, d: nat)
    requires
        d > 0,
    ensures
        ({
            let r = rounded(n, d);
            &&& 2 * (n - d * r) <= d
            &&& 2 * (d * r - n) <= d
            &&& 2 * (n - d * r) == d || 2 * (d * r - n) == d ==> r % 2 == 0
        }),
{
    let q = n / d;
    let rest = n % d;
    vstd::arithmetic::div_mod::lemma_fundamental_div_mod(n as int, d as int);
    assert(d * (q + 1) == d * q + d) by (nonlinear_arith);
}

/// A sum of money is written as its sign where it is negative, whole units, a dot and
/// two digits of hundredths; together they denote the sum, rounded to hundredths.
pub proof fn money_is_written_in_hundredths(x: int, cent: nat)
    requires
        cent > 0,
    ensures
        ({
            let s = money_text(x, cent);
            let n = s.len() as int;
            let first: int = if x < 0 {
                1
            } else {
                0
            };
            let h = 100 * text::number(s.subrange(first, n - 3)) + text::number(
                s.subrange(n - 2, n),
            );
            &&& n >= first + 4
            &&& s[n - 3] == '.'
            &&& x < 0 ==> s[0] == '-'
            &&& 2 * (magnitude(x) - cent * h) <= cent
            &&& 2 * (cent * h - magnitude(x)) <= cent
        }),
{
    let s = money_text(x, cent);
    let n = s.len() as int;
    let h = rounded(magnitude(x), cent);
    reveal_strlit("-");
    reveal_strlit("");
    reveal_strlit(".");
    let whole = text::digits(h / 100);
    let cents = text::zero_padded(text::digits(h % 100), 2);
    text::digits_denote(h / 100);
    text::padded_digits_denote(h % 100, 2);
    assert(vstd::arithmetic::power::pow(10, 2) == 100) by {
        reveal(vstd::arithmetic::power::pow);
        reveal_with_fuel(vstd::arithmetic::power::pow, 3);
    }
    text::digits_are_few(h % 100, 2);
    assert(cents.len() == 2);
    let first: int = if x < 0 {
        1
    } else {
        0
    };
    assert(s.subrange(first, n - 3) =~= whole);
    assert(s.subrange(n - 2, n) =~= cents);
    rounding_is_to_the_nearest(magnitude(x), cent);
}

} // verus!
