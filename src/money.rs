use vstd::prelude::*;

verus! {

/// Fixed-point scale of growth factors: a factor of 1 is held as `FACTOR_ONE`.
pub const FACTOR_ONE: i64 = 1_200_000_000_000;

/// Basis points per year turned into a monthly rate: a rate of `bp` basis points a
/// year is `bp / MONTHLY_RATE_DEN` per month.
pub const MONTHLY_RATE_DEN: i64 = 120_000;

/// Basis points in one whole.
pub const ANNUAL_RATE_DEN: i64 = 10_000;

/// A value brought into the range of `i64`, as an overflowing amount saturates.
pub open spec fn clamp(x: int) -> int {
    if x > i64::MAX {
        i64::MAX as int
    } else if x < i64::MIN {
        i64::MIN as int
    } else {
        x
    }
}

pub fn saturate(x: i128) -> (r: i64)
    ensures
        r == clamp(x as int),
{
    if x > i64::MAX as i128 {
        i64::MAX
    } else if x < i64::MIN as i128 {
        i64::MIN
    } else {
        x as i64
    }
}

/// Division rounded down, for a positive divisor.
pub fn floor_div(x: i128, d: i128) -> (q: i128)
    requires
        d > 0,
    ensures
        q == x / d,
        x >= 0 ==> 0 <= q <= x,
        x < 0 ==> x <= q < 0,
{
    proof {
        if x >= 0 {
            assert(0 <= x / d <= x) by (nonlinear_arith) requires x >= 0, d > 0;
        } else {
            assert(x <= x / d < 0) by (nonlinear_arith) requires x < 0, d > 0;
        }
    }
    match x.checked_div_euclid(d) {
        Some(q) => q,
        None => 0,
    }
}

/// Monthly rate of `bp` basis points a year, in units of `1 / FACTOR_ONE`.
pub const MONTHLY_RATE_SCALE: i64 = 10_000_000;

/// Share of the balance that the withdrawal rule pays out each year, in percent.
pub const WITHDRAWAL_PERCENT: i64 = 4;

/// `x / d` rounded down, for a divisor of either sign.
pub open spec fn floor_quot(x: int, d: int) -> int {
    if d > 0 {
        x / d
    } else {
        (-x) / (-d)
    }
}

/// One period of growth at `bp / den`, rounded down and saturated.
pub open spec fn grow(v: int, bp: int, den: int) -> int {
    clamp(v + (v * bp) / den)
}

/// The fixed-point growth factor `(1 + bp / den) ^ periods`, scaled by `FACTOR_ONE`.
pub open spec fn growth(bp: int, den: int, periods: nat) -> int
    decreases periods,
{
    if periods == 0 {
        FACTOR_ONE as int
    } else {
        grow(growth(bp, den, (periods - 1) as nat), bp, den)
    }
}

/// One month: the balance earns the monthly rate, then the contribution comes in.
pub open spec fn month_step(b: int, bp: int, c: int) -> int {
    clamp(b + (b * bp) / (MONTHLY_RATE_DEN as int) + c)
}

/// The balance after `months` months, starting from `b`, contributing `c` a month.
pub open spec fn simulate(b: int, bp: int, c: int, months: nat) -> int
    decreases months,
{
    if months == 0 {
        b
    } else {
        month_step(simulate(b, bp, c, (months - 1) as nat), bp, c)
    }
}

/// Closed form `pv * g + c * (g - 1) / r`, with `g` the monthly growth factor over
/// `months` months and `r` the monthly rate.
pub open spec fn future_value_spec(pv: int, c: int, bp: int, months: nat) -> int {
    let g = growth(bp, MONTHLY_RATE_DEN as int, months);
    let r = bp * MONTHLY_RATE_SCALE;
    clamp(pv * g / (FACTOR_ONE as int) + floor_quot(c * (g - FACTOR_ONE), r))
}

/// Sustainable yearly withdrawal from a balance: a fixed share of it.
pub open spec fn safe_withdrawal_spec(net_worth: int) -> int {
    net_worth * WITHDRAWAL_PERCENT / 100
}

/// A balance expressed in the money of the start, given the inflation factor `g`;
/// a factor that has fallen to zero leaves the balance unbounded.
pub open spec fn deflate_spec(b: int, g: int) -> int {
    if g > 0 {
        clamp(b * FACTOR_ONE / g)
    } else if b >= 0 {
        i64::MAX as int
    } else {
        i64::MIN as int
    }
}

pub(crate) proof fn lemma_mul_range(a: int, b: int)
    requires
        -0x8000_0000_0000_0000 <= a <= 0x7fff_ffff_ffff_ffff,
        -0x8000_0000_0000_0000 <= b <= 0x7fff_ffff_ffff_ffff,
    ensures
        -0x4000_0000_0000_0000_0000_0000_0000_0000 < a * b
            <= 0x4000_0000_0000_0000_0000_0000_0000_0000,
{
    let m: int = 0x8000_0000_0000_0000;
    assert(m * m == 0x4000_0000_0000_0000_0000_0000_0000_0000) by (nonlinear_arith)
        requires m == 0x8000_0000_0000_0000;
    if a >= 0 && b >= 0 {
        assert(0 <= a * b <= m * m) by (nonlinear_arith) requires 0 <= a < m, 0 <= b < m;
    } else if a < 0 && b < 0 {
        assert(0 < a * b <= m * m) by (nonlinear_arith) requires -m <= a < 0, -m <= b < 0;
    } else if a < 0 {
        assert(-m * m < a * b <= 0) by (nonlinear_arith) requires -m <= a < 0, 0 <= b < m;
    } else {
        assert(-m * m < a * b <= 0) by (nonlinear_arith) requires 0 <= a < m, -m <= b < 0;
    }
}

fn grow_once(v: i64, bp: i64, den: i64) -> (r: i64)
    requires
        den > 0,
    ensures
        r == grow(v as int, bp as int, den as int),
{
    proof {
        lemma_mul_range(v as int, bp as int);
    }
    let q = floor_div((v as i128) * (bp as i128), den as i128);
    saturate(v as i128 + q)
}

/// Growth factor of `periods` periods at `bp / den` each, scaled by `FACTOR_ONE`.
pub fn growth_factor(bp: i64, den: i64, periods: u64) -> (g: i64)
    requires
        den > 0,
    ensures
        g == growth(bp as int, den as int, periods as nat),
{
    let mut g: i64 = FACTOR_ONE;
    let mut k: u64 = 0;
    while k < periods
        invariant
            den > 0,
            k <= periods,
            g == growth(bp as int, den as int, k as nat),
        decreases periods - k,
    {
        g = grow_once(g, bp, den);
        k = k + 1;
    }
    g
}

pub(crate) fn month_once(b: i64, bp: i64, c: i64) -> (r: i64)
    ensures
        r == month_step(b as int, bp as int, c as int),
{
    proof {
        lemma_mul_range(b as int, bp as int);
    }
    let q = floor_div((b as i128) * (bp as i128), MONTHLY_RATE_DEN as i128);
    saturate(b as i128 + q + c as i128)
}

/// Month-by-month compounding of `balance` at `bp` basis points a year, with
/// `monthly` paid in at the end of each month.
pub fn compound(balance: i64, monthly: i64, bp: i64, months: u64) -> (r: i64)
    ensures
        r == simulate(balance as int, bp as int, monthly as int, months as nat),
{
    let mut b = balance;
    let mut k: u64 = 0;
    while k < months
        invariant
            k <= months,
            b == simulate(balance as int, bp as int, monthly as int, k as nat),
        decreases months - k,
    {
        b = month_once(b, bp, monthly);
        k = k + 1;
    }
    b
}

/// Future value in closed form of a present value and a monthly contribution, at
/// `bp` basis points a year, after `months` months.
pub fn future_value(present_value: i64, monthly: i64, bp: i64, months: u64) -> (r: i64)
    requires
        bp != 0,
    ensures
        r == future_value_spec(present_value as int, monthly as int, bp as int, months as nat),
{
    let g = growth_factor(bp, MONTHLY_RATE_DEN, months);
    proof {
        lemma_mul_range(present_value as int, g as int);
        lemma_mul_range(monthly as int, g as int);
        lemma_mul_range(monthly as int, FACTOR_ONE as int);
        assert(-0x8000_0000_0000_0000 * 10_000_000 <= bp * MONTHLY_RATE_SCALE
            <= 0x7fff_ffff_ffff_ffff * 10_000_000) by (nonlinear_arith)
            requires -0x8000_0000_0000_0000 <= bp <= 0x7fff_ffff_ffff_ffff;
    }
    let pv_part = floor_div((present_value as i128) * (g as i128), FACTOR_ONE as i128);
    let num = (monthly as i128) * (g as i128) - (monthly as i128) * (FACTOR_ONE as i128);
    let r = (bp as i128) * (MONTHLY_RATE_SCALE as i128);
    proof {
        assert(num == monthly * (g - FACTOR_ONE)) by (nonlinear_arith)
            requires num == monthly * g - monthly * FACTOR_ONE;
    }
    let annuity = if r > 0 {
        floor_div(num, r)
    } else {
        floor_div(-num, -r)
    };
    saturate(pv_part + annuity)
}

/// The yearly withdrawal that the withdrawal rule allows from `net_worth`.
pub fn safe_withdrawal(net_worth: i64) -> (r: i64)
    ensures
        r == safe_withdrawal_spec(net_worth as int),
{
    let q = floor_div((net_worth as i128) * (WITHDRAWAL_PERCENT as i128), 100);
    q as i64
}

/// `b` in the money of the start, given the inflation factor `g`.
pub fn deflate(b: i64, g: i64) -> (r: i64)
    ensures
        r == deflate_spec(b as int, g as int),
{
    if g > 0 {
        proof {
            lemma_mul_range(b as int, FACTOR_ONE as int);
        }
        let q = floor_div((b as i128) * (FACTOR_ONE as i128), g as i128);
        saturate(q)
    } else if b >= 0 {
        i64::MAX
    } else {
        i64::MIN
    }
}

} // verus!
