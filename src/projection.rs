use vstd::prelude::*;

use crate::models::{
    AccountBalance, Assumptions, ChildInfo, ContributionConfig, HouseholdConfig,
    RetirementProjection, YearlyProjection,
};
use crate::money::{
    clamp, floor_div, future_value, future_value_spec, growth, growth_factor,
    month_once, safe_withdrawal, safe_withdrawal_spec, saturate, simulate, ANNUAL_RATE_DEN,
    FACTOR_ONE,
};

verus! {

/// Calendar year of the first row of a yearly projection.
pub const BASE_YEAR: u32 = 2025;

/// One row of the simple, yearly compounded projection.
#[derive(Clone, Copy, Debug, PartialEq, Eq)]
pub struct SimpleProjection {
    pub year: u32,
    pub age: u32,
    pub portfolio_value: i64,
}

/// Whole years from `current_age` to `retirement_age`, zero once it is reached.
pub open spec fn years_until(current_age: u32, retirement_age: u32) -> nat {
    if retirement_age > current_age {
        (retirement_age - current_age) as nat
    } else {
        0
    }
}

/// The balance that the terminal projection starts from: all accounts but the RESP.
pub open spec fn projected_balance(b: AccountBalance) -> int {
    clamp(b.rrsp + b.tfsa + b.non_registered)
}

/// The monthly deposit that the terminal projection uses: all accounts but the RESP.
pub open spec fn projected_monthly(c: ContributionConfig) -> int {
    (c.rrsp_annual + c.tfsa_annual + c.non_registered_annual) / 12
}

/// The retirement snapshot: balances as they are when retirement is reached, else
/// grown in closed form to retirement, with the withdrawal rule applied.
pub open spec fn projection_spec(
    h: HouseholdConfig,
    b: AccountBalance,
    c: ContributionConfig,
    a: Assumptions,
    current_age: u32,
) -> RetirementProjection {
    let years = years_until(current_age, h.retirement_age);
    if years == 0 {
        RetirementProjection {
            current_age,
            retirement_age: h.retirement_age,
            years_to_retirement: 0,
            net_worth_at_retirement: projected_balance(b) as i64,
            annual_withdrawal: 0,
            pension_equivalent: 0,
        }
    } else {
        let nw = future_value_spec(
            projected_balance(b),
            projected_monthly(c),
            a.return_rate as int,
            years * 12,
        );
        let w = safe_withdrawal_spec(nw);
        RetirementProjection {
            current_age,
            retirement_age: h.retirement_age,
            years_to_retirement: years as u32,
            net_worth_at_retirement: nw as i64,
            annual_withdrawal: w as i64,
            pension_equivalent: w as i64,
        }
    }
}

/// Projects the accounts (but the RESP) to retirement in closed form and applies
/// the withdrawal rule. The children are accepted and not used.
pub fn calculate_projection(
    household_config: &HouseholdConfig,
    account_balance: &AccountBalance,
    contributions: &ContributionConfig,
    _children: &[ChildInfo],
    assumptions: &Assumptions,
    current_age: u32,
) -> (r: RetirementProjection)
    requires
        years_until(current_age, household_config.retirement_age) > 0 ==> assumptions.return_rate
            != 0,
    ensures
        r == projection_spec(
            *household_config,
            *account_balance,
            *contributions,
            *assumptions,
            current_age,
        ),
        years_until(current_age, household_config.retirement_age) == 0 ==> {
            &&& r.years_to_retirement == 0
            &&& r.annual_withdrawal == 0
            &&& r.pension_equivalent == 0
            &&& r.net_worth_at_retirement == clamp(
                account_balance.rrsp + account_balance.tfsa + account_balance.non_registered,
            )
        },
        r.pension_equivalent == r.annual_withdrawal,
{
    let years: u32 = if household_config.retirement_age > current_age {
        household_config.retirement_age - current_age
    } else {
        0
    };
    let initial = saturate(
        account_balance.rrsp as i128 + account_balance.tfsa as i128
            + account_balance.non_registered as i128,
    );
    if years == 0 {
        return RetirementProjection {
            current_age,
            retirement_age: household_config.retirement_age,
            years_to_retirement: 0,
            net_worth_at_retirement: initial,
            annual_withdrawal: 0,
            pension_equivalent: 0,
        };
    }
    let monthly = floor_div(
        contributions.rrsp_annual as i128 + contributions.tfsa_annual as i128
            + contributions.non_registered_annual as i128,
        12,
    ) as i64;
    let months: u64 = years as u64 * 12;
    let net_worth = future_value(initial, monthly, assumptions.return_rate, months);
    let annual_withdrawal = safe_withdrawal(net_worth);
    RetirementProjection {
        current_age,
        retirement_age: household_config.retirement_age,
        years_to_retirement: years,
        net_worth_at_retirement: net_worth,
        annual_withdrawal,
        pension_equivalent: annual_withdrawal,
    }
}

/// The row of year `k` of the yearly projection: each account compounded month by
/// month for `k` whole years with its own deposits.
pub open spec fn yearly_row(
    b: AccountBalance,
    c: ContributionConfig,
    a: Assumptions,
    current_age: u32,
    k: nat,
) -> YearlyProjection {
    let months = k * 12;
    let bp = a.return_rate as int;
    let rrsp = simulate(b.rrsp as int, bp, c.rrsp_annual / 12, months);
    let tfsa = simulate(b.tfsa as int, bp, c.tfsa_annual / 12, months);
    let resp = simulate(b.resp as int, bp, c.resp_annual / 12, months);
    let non_registered = simulate(
        b.non_registered as int,
        bp,
        c.non_registered_annual / 12,
        months,
    );
    YearlyProjection {
        year: (BASE_YEAR + k) as u32,
        age: (current_age + k) as u32,
        rrsp: rrsp as i64,
        tfsa: tfsa as i64,
        resp: resp as i64,
        non_registered: non_registered as i64,
        total_net_worth: clamp(rrsp + tfsa + resp + non_registered) as i64,
    }
}

fn monthly_part(annual: i64) -> (r: i64)
    ensures
        r == annual / 12,
{
    floor_div(annual as i128, 12) as i64
}

fn yearly_snapshot(
    year: u32,
    age: u32,
    rrsp: i64,
    tfsa: i64,
    resp: i64,
    non_registered: i64,
) -> (r: YearlyProjection)
    ensures
        r == (YearlyProjection {
            year,
            age,
            rrsp,
            tfsa,
            resp,
            non_registered,
            total_net_worth: clamp(rrsp + tfsa + resp + non_registered) as i64,
        }),
{
    YearlyProjection {
        year,
        age,
        rrsp,
        tfsa,
        resp,
        non_registered,
        total_net_worth: saturate(
            rrsp as i128 + tfsa as i128 + resp as i128 + non_registered as i128,
        ),
    }
}

/// One row per year from now to retirement, both included; each row holds the
/// balances before that year's growth.
pub fn calculate_yearly_projections(
    household_config: &HouseholdConfig,
    account_balance: &AccountBalance,
    contributions: &ContributionConfig,
    assumptions: &Assumptions,
    current_age: u32,
) -> (r: Vec<YearlyProjection>)
    requires
        BASE_YEAR + years_until(current_age, household_config.retirement_age) <= u32::MAX,
    ensures
        r@.len() == years_until(current_age, household_config.retirement_age) + 1,
        forall|k: int|
            0 <= k < r@.len() ==> r@[k] == yearly_row(
                *account_balance,
                *contributions,
                *assumptions,
                current_age,
                k as nat,
            ),
        forall|k: int|
            0 <= k < r@.len() ==> {
                &&& r@[k].year == BASE_YEAR + k
                &&& r@[k].age == current_age + k
                &&& r@[k].total_net_worth == clamp(
                    r@[k].rrsp + r@[k].tfsa + r@[k].resp + r@[k].non_registered,
                )
            },
        forall|j: int, k: int|
            0 <= j < k < r@.len() ==> r@[j].year < r@[k].year && r@[j].age < r@[k].age,
{
    let years: u32 = if household_config.retirement_age > current_age {
        household_config.retirement_age - current_age
    } else {
        0
    };
    let bp = assumptions.return_rate;
    let c_rrsp = monthly_part(contributions.rrsp_annual);
    let c_tfsa = monthly_part(contributions.tfsa_annual);
    let c_resp = monthly_part(contributions.resp_annual);
    let c_non_registered = monthly_part(contributions.non_registered_annual);
    let mut rrsp = account_balance.rrsp;
    let mut tfsa = account_balance.tfsa;
    let mut resp = account_balance.resp;
    let mut non_registered = account_balance.non_registered;
    let ghost b = *account_balance;
    let ghost c = *contributions;
    let ghost a = *assumptions;
    let mut projections: Vec<YearlyProjection> = Vec::new();
    let mut year: u32 = 0;
    while year < years
        invariant
            years == years_until(current_age, household_config.retirement_age),
            BASE_YEAR + years <= u32::MAX,
            year <= years,
            b == *account_balance,
            c == *contributions,
            a == *assumptions,
            bp == a.return_rate,
            c_rrsp == c.rrsp_annual / 12,
            c_tfsa == c.tfsa_annual / 12,
            c_resp == c.resp_annual / 12,
            c_non_registered == c.non_registered_annual / 12,
            rrsp == simulate(b.rrsp as int, bp as int, c_rrsp as int, year as nat * 12),
            tfsa == simulate(b.tfsa as int, bp as int, c_tfsa as int, year as nat * 12),
            resp == simulate(b.resp as int, bp as int, c_resp as int, year as nat * 12),
            non_registered == simulate(
                b.non_registered as int,
                bp as int,
                c_non_registered as int,
                year as nat * 12,
            ),
            projections@.len() == year,
            forall|k: int|
                0 <= k < year ==> projections@[k] == yearly_row(b, c, a, current_age, k as nat),
        decreases years - year,
    {
        projections.push(
            yearly_snapshot(
                BASE_YEAR + year,
                current_age + year,
                rrsp,
                tfsa,
                resp,
                non_registered,
            ),
        );
        let mut m: u32 = 0;
        while m < 12
            invariant
                m <= 12,
                rrsp == simulate(b.rrsp as int, bp as int, c_rrsp as int, (year * 12 + m) as nat),
                tfsa == simulate(b.tfsa as int, bp as int, c_tfsa as int, (year * 12 + m) as nat),
                resp == simulate(b.resp as int, bp as int, c_resp as int, (year * 12 + m) as nat),
                non_registered == simulate(
                    b.non_registered as int,
                    bp as int,
                    c_non_registered as int,
                    (year * 12 + m) as nat,
                ),
            decreases 12 - m,
        {
            rrsp = month_once(rrsp, bp, c_rrsp);
            tfsa = month_once(tfsa, bp, c_tfsa);
            resp = month_once(resp, bp, c_resp);
            non_registered = month_once(non_registered, bp, c_non_registered);
            m = m + 1;
        }
        year = year + 1;
    }
    projections.push(
        yearly_snapshot(BASE_YEAR + year, current_age + year, rrsp, tfsa, resp, non_registered),
    );
    projections
}

/// Value in year `k` of the simple projection: the portfolio grown yearly at `bp`.
pub open spec fn simple_value(total_portfolio: int, bp: int, k: nat) -> int {
    clamp(total_portfolio * growth(bp, ANNUAL_RATE_DEN as int, k) / (FACTOR_ONE as int))
}

/// One row per year from now to retirement, both included, of a single portfolio
/// compounded yearly with no deposits; empty once retirement is reached.
pub fn calculate_simple_projection(
    total_portfolio: i64,
    current_age: u32,
    retirement_age: u32,
    return_rate: i64,
    current_year: u32,
) -> (r: Vec<SimpleProjection>)
    requires
        current_year + years_until(current_age, retirement_age) <= u32::MAX,
    ensures
        years_until(current_age, retirement_age) == 0 ==> r@.len() == 0,
        years_until(current_age, retirement_age) > 0 ==> r@.len() == years_until(
            current_age,
            retirement_age,
        ) + 1,
        forall|k: int|
            0 <= k < r@.len() ==> r@[k] == (SimpleProjection {
                year: (current_year + k) as u32,
                age: (current_age + k) as u32,
                portfolio_value: simple_value(total_portfolio as int, return_rate as int, k as nat)
                    as i64,
            }),
{
    let years: u32 = if retirement_age > current_age {
        retirement_age - current_age
    } else {
        0
    };
    let mut projections: Vec<SimpleProjection> = Vec::new();
    if years == 0 {
        return projections;
    }
    let mut year: u64 = 0;
    while year <= years as u64
        invariant
            0 < years == years_until(current_age, retirement_age),
            current_year + years <= u32::MAX,
            year <= years + 1,
            projections@.len() == year,
            forall|k: int|
                0 <= k < year ==> projections@[k] == (SimpleProjection {
                    year: (current_year + k) as u32,
                    age: (current_age + k) as u32,
                    portfolio_value: simple_value(
                        total_portfolio as int,
                        return_rate as int,
                        k as nat,
                    ) as i64,
                }),
        decreases years + 1 - year,
    {
        let g = growth_factor(return_rate, ANNUAL_RATE_DEN, year);
        proof {
            crate::money::lemma_mul_range(total_portfolio as int, g as int);
        }
        let value = saturate(
            floor_div((total_portfolio as i128) * (g as i128), FACTOR_ONE as i128),
        );
        projections.push(
            SimpleProjection {
                year: current_year + year as u32,
                age: current_age + year as u32,
                portfolio_value: value,
            },
        );
        year = year + 1;
    }
    projections
}

} // verus!
