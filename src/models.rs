use vstd::prelude::*;

verus! {

// Amounts of money are held in millionths of a currency unit; yearly rates in
// basis points (hundredths of a percent).

/// The household's horizon.
#[derive(Clone, Copy, Debug, PartialEq, Eq)]
pub struct HouseholdConfig {
    pub retirement_age: u32,
    pub expected_annual_income: i64,
}

/// Current balance of each of the four tracked accounts.
#[derive(Clone, Copy, Debug, PartialEq, Eq)]
pub struct AccountBalance {
    pub rrsp: i64,
    pub tfsa: i64,
    pub resp: i64,
    pub non_registered: i64,
}

/// Yearly deposits into each account, paid in twelve equal monthly parts.
#[derive(Clone, Copy, Debug, PartialEq, Eq)]
pub struct ContributionConfig {
    pub rrsp_annual: i64,
    pub tfsa_annual: i64,
    pub resp_annual: i64,
    pub non_registered_annual: i64,
}

/// A child of the household; accepted by the projection and not yet used by it.
#[derive(Clone, Copy, Debug, PartialEq, Eq)]
pub struct ChildInfo {
    pub age: u32,
    pub target_contribution: i64,
}

/// Yearly return and inflation, in basis points.
#[derive(Clone, Copy, Debug, PartialEq, Eq)]
pub struct Assumptions {
    pub return_rate: i64,
    pub inflation_rate: i64,
}

/// Snapshot of the household at retirement.
#[derive(Clone, Copy, Debug, PartialEq, Eq)]
pub struct RetirementProjection {
    pub current_age: u32,
    pub retirement_age: u32,
    pub years_to_retirement: u32,
    pub net_worth_at_retirement: i64,
    pub annual_withdrawal: i64,
    pub pension_equivalent: i64,
}

/// Balances at the start of one year of the horizon.
#[derive(Clone, Copy, Debug, PartialEq, Eq)]
pub struct YearlyProjection {
    pub year: u32,
    pub age: u32,
    pub rrsp: i64,
    pub tfsa: i64,
    pub resp: i64,
    pub non_registered: i64,
    pub total_net_worth: i64,
}

} // verus!
