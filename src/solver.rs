use vstd::arithmetic::div_mod::lemma_div_is_ordered;
use vstd::prelude::*;

use crate::money::{
    clamp, compound, deflate, deflate_spec, floor_div, growth, growth_factor, saturate,
    simulate, MONTHLY_RATE_DEN,
};

verus! {

/// One currency unit, in the millionths that amounts are held in.
pub const UNIT: i64 = 1_000_000;

/// How close to the target the deflated balance must come: one hundred units.
pub const TOLERANCE: i64 = 100_000_000;

/// Least upper end of the search: one million units a year.
pub const SEARCH_CEILING: i64 = 1_000_000_000_000;

/// Most halvings of the search interval.
pub const SEARCH_STEPS: u32 = 100;

pub open spec fn abs(x: int) -> int {
    if x < 0 {
        -x
    } else {
        x
    }
}

pub open spec fn max(a: int, b: int) -> int {
    if a < b {
        b
    } else {
        a
    }
}

/// `v` rounded to the nearest whole unit, halves upward.
pub open spec fn round_to_unit(v: int) -> int {
    clamp((v + UNIT / 2) / (UNIT as int) * UNIT)
}

/// The portfolio after `months` months with `x` a year paid in monthly, in the
/// money of the start, given the inflation factor `g`.
pub open spec fn deflated_value(cur: int, bp: int, x: int, months: nat, g: int) -> int {
    deflate_spec(simulate(cur, bp, x / 12, months), g)
}

/// Upper end of the search interval for the given current yearly contributions.
pub open spec fn search_ceiling(current_annual: int) -> int {
    max(clamp(current_annual * 2), SEARCH_CEILING as int)
}

/// Bisection for the yearly contribution that reaches `target`: the last midpoint,
/// and whether it came within the tolerance.
pub open spec fn bisect(
    cur: int,
    target: int,
    bp: int,
    months: nat,
    g: int,
    low: int,
    high: int,
    steps: nat,
) -> (int, bool)
    decreases steps,
{
    let mid = (low + high) / 2;
    if steps == 0 {
        (mid, false)
    } else {
        let v = deflated_value(cur, bp, mid, months, g);
        if abs(v - target) < TOLERANCE {
            (mid, true)
        } else if v < target {
            bisect(cur, target, bp, months, g, mid, high, (steps - 1) as nat)
        } else {
            bisect(cur, target, bp, months, g, low, mid, (steps - 1) as nat)
        }
    }
}

/// The search that the solver runs, on its own inputs.
pub open spec fn solver_search(
    cur: int,
    target: int,
    years: nat,
    return_rate: int,
    inflation_rate: int,
    current_annual: int,
) -> (int, bool) {
    let months = years * 12;
    bisect(
        cur,
        target,
        return_rate,
        months,
        growth(inflation_rate, MONTHLY_RATE_DEN as int, months),
        0,
        search_ceiling(current_annual),
        SEARCH_STEPS as nat,
    )
}

pub open spec fn additional_savings(
    cur: int,
    target: int,
    years: nat,
    return_rate: int,
    inflation_rate: int,
    current_annual: int,
) -> int {
    if years == 0 || cur >= target {
        0
    } else {
        let mid = solver_search(cur, target, years, return_rate, inflation_rate, current_annual).0;
        round_to_unit(max(0, mid - current_annual))
    }
}

fn nearest_unit(v: i128) -> (r: i64)
    requires
        0 <= v <= 2 * 0x8000_0000_0000_0000,
    ensures
        r == round_to_unit(v as int),
{
    let q = floor_div(v + (UNIT / 2) as i128, UNIT as i128);
    saturate(q * UNIT as i128)
}

/// The extra yearly contribution, on top of `current_annual_contributions`, that
/// brings the portfolio after `years` years of monthly compounding, deflated by
/// inflation, within the tolerance of `target_portfolio`; found by bisection and
/// rounded to a whole unit. Zero when the target is already met or no time is left.
pub fn calculate_additional_annual_savings(
    current_portfolio: i64,
    target_portfolio: i64,
    years: u32,
    return_rate: i64,
    inflation_rate: i64,
    current_annual_contributions: i64,
) -> (r: i64)
    ensures
        r == additional_savings(
            current_portfolio as int,
            target_portfolio as int,
            years as nat,
            return_rate as int,
            inflation_rate as int,
            current_annual_contributions as int,
        ),
        (years == 0 || current_portfolio >= target_portfolio) ==> r == 0,
        r >= 0,
{
    if years == 0 || current_portfolio >= target_portfolio {
        return 0;
    }
    let months: u64 = years as u64 * 12;
    let g = growth_factor(inflation_rate, MONTHLY_RATE_DEN, months);
    let doubled = saturate(current_annual_contributions as i128 * 2);
    let mut low: i64 = 0;
    let mut high: i64 = if doubled < SEARCH_CEILING {
        SEARCH_CEILING
    } else {
        doubled
    };
    let ghost cur = current_portfolio as int;
    let ghost target = target_portfolio as int;
    let ghost whole = solver_search(
        cur,
        target,
        years as nat,
        return_rate as int,
        inflation_rate as int,
        current_annual_contributions as int,
    );
    let mut step: u32 = 0;
    while step < SEARCH_STEPS
        invariant
            0 <= low <= high,
            step <= SEARCH_STEPS,
            years > 0,
            current_portfolio < target_portfolio,
            months == years * 12,
            g == growth(inflation_rate as int, MONTHLY_RATE_DEN as int, months as nat),
            cur == current_portfolio,
            target == target_portfolio,
            bisect(
                cur,
                target,
                return_rate as int,
                months as nat,
                g as int,
                low as int,
                high as int,
                (SEARCH_STEPS - step) as nat,
            ) == whole,
            whole == solver_search(
                cur,
                target,
                years as nat,
                return_rate as int,
                inflation_rate as int,
                current_annual_contributions as int,
            ),
        decreases SEARCH_STEPS - step,
    {
        let mid = ((low as i128 + high as i128) / 2) as i64;
        let balance = compound(current_portfolio, mid / 12, return_rate, months);
        let value = deflate(balance, g);
        let gap = value as i128 - target_portfolio as i128;
        if -(TOLERANCE as i128) < gap && gap < TOLERANCE as i128 {
            return nearest_unit(
                if mid as i128 > current_annual_contributions as i128 {
                    mid as i128 - current_annual_contributions as i128
                } else {
                    0
                },
            );
        }
        if value < target_portfolio {
            low = mid;
        } else {
            high = mid;
        }
        step = step + 1;
    }
    let mid = ((low as i128 + high as i128) / 2) as i64;
    nearest_unit(
        if mid as i128 > current_annual_contributions as i128 {
            mid as i128 - current_annual_contributions as i128
        } else {
            0
        },
    )
}

proof fn lemma_bisect_hit(
    cur: int,
    target: int,
    bp: int,
    months: nat,
    g: int,
    low: int,
    high: int,
    steps: nat,
)
    ensures
        bisect(cur, target, bp, months, g, low, high, steps).1 ==> abs(
            deflated_value(cur, bp, bisect(cur, target, bp, months, g, low, high, steps).0, months, g)
                - target,
        ) < TOLERANCE,
    decreases steps,
{
    if steps > 0 {
        let mid = (low + high) / 2;
        lemma_bisect_hit(cur, target, bp, months, g, mid, high, (steps - 1) as nat);
        lemma_bisect_hit(cur, target, bp, months, g, low, mid, (steps - 1) as nat);
    }
}

proof fn lemma_round_to_unit_monotone(v: int, w: int)
    requires
        v <= w,
    ensures
        round_to_unit(v) <= round_to_unit(w),
{
    lemma_div_is_ordered(v + UNIT / 2, w + UNIT / 2, UNIT as int);
    let a = (v + UNIT / 2) / (UNIT as int);
    let b = (w + UNIT / 2) / (UNIT as int);
    assert(a * UNIT <= b * UNIT) by (nonlinear_arith) requires a <= b;
}

/// Whenever the search stops within the tolerance, the result is the distance,
/// rounded to a whole unit and at least zero, from the current yearly contributions
/// to a yearly total that brings the deflated portfolio within the tolerance of the
/// target.
pub proof fn law_additional_savings_reach_target(
    current_portfolio: i64,
    target_portfolio: i64,
    years: u32,
    return_rate: i64,
    inflation_rate: i64,
    current_annual_contributions: i64,
)
    requires
        years > 0,
        current_portfolio < target_portfolio,
        solver_search(
            current_portfolio as int,
            target_portfolio as int,
            years as nat,
            return_rate as int,
            inflation_rate as int,
            current_annual_contributions as int,
        ).1,
    ensures
        exists|total: int|
            abs(
                #[trigger] deflated_value(
                    current_portfolio as int,
                    return_rate as int,
                    total,
                    years as nat * 12,
                    growth(inflation_rate as int, MONTHLY_RATE_DEN as int, years as nat * 12),
                ) - target_portfolio,
            ) < TOLERANCE && additional_savings(
                current_portfolio as int,
                target_portfolio as int,
                years as nat,
                return_rate as int,
                inflation_rate as int,
                current_annual_contributions as int,
            ) == round_to_unit(max(0, total - current_annual_contributions)),
{
    let months = years as nat * 12;
    let g = growth(inflation_rate as int, MONTHLY_RATE_DEN as int, months);
    lemma_bisect_hit(
        current_portfolio as int,
        target_portfolio as int,
        return_rate as int,
        months,
        g,
        0,
        search_ceiling(current_annual_contributions as int),
        SEARCH_STEPS as nat,
    );
    let total = solver_search(
        current_portfolio as int,
        target_portfolio as int,
        years as nat,
        return_rate as int,
        inflation_rate as int,
        current_annual_contributions as int,
    ).0;
    assert(abs(
        deflated_value(current_portfolio as int, return_rate as int, total, months, g)
            - target_portfolio,
    ) < TOLERANCE);
}

/// Raising the current yearly contributions never raises the extra savings needed,
/// while twice the contributions stay under the least upper end of the search.
pub proof fn law_more_contributions_need_no_more_savings(
    current_portfolio: i64,
    target_portfolio: i64,
    years: u32,
    return_rate: i64,
    inflation_rate: i64,
    current_annual_contributions: i64,
    raised_annual_contributions: i64,
)
    requires
        current_annual_contributions <= raised_annual_contributions,
        raised_annual_contributions * 2 <= SEARCH_CEILING,
    ensures
        additional_savings(
            current_portfolio as int,
            target_portfolio as int,
            years as nat,
            return_rate as int,
            inflation_rate as int,
            raised_annual_contributions as int,
        ) <= additional_savings(
            current_portfolio as int,
            target_portfolio as int,
            years as nat,
            return_rate as int,
            inflation_rate as int,
            current_annual_contributions as int,
        ),
{
    assert(search_ceiling(current_annual_contributions as int) == SEARCH_CEILING);
    assert(search_ceiling(raised_annual_contributions as int) == SEARCH_CEILING);
    let mid = solver_search(
        current_portfolio as int,
        target_portfolio as int,
        years as nat,
        return_rate as int,
        inflation_rate as int,
        current_annual_contributions as int,
    ).0;
    lemma_round_to_unit_monotone(
        max(0, mid - raised_annual_contributions),
        max(0, mid - current_annual_contributions),
    );
}

} // verus!
