use retirement_planner::money::{compound, deflate, future_value, growth_factor, safe_withdrawal};
use retirement_planner::{
    calculate_projection, calculate_simple_projection, calculate_yearly_projections,
    AccountBalance, Assumptions, ChildInfo, ContributionConfig, HouseholdConfig,
};

const UNIT: i64 = 1_000_000;

fn balances() -> AccountBalance {
    AccountBalance {
        rrsp: 100_000 * UNIT,
        tfsa: 50_000 * UNIT,
        resp: 20_000 * UNIT,
        non_registered: 30_000 * UNIT,
    }
}

fn contributions() -> ContributionConfig {
    ContributionConfig {
        rrsp_annual: 12_000 * UNIT,
        tfsa_annual: 6_000 * UNIT,
        resp_annual: 2_400 * UNIT,
        non_registered_annual: 6_000 * UNIT,
    }
}

fn household(retirement_age: u32) -> HouseholdConfig {
    HouseholdConfig { retirement_age, expected_annual_income: 80_000 * UNIT }
}

fn assumptions() -> Assumptions {
    Assumptions { return_rate: 600, inflation_rate: 200 }
}

#[test]
fn projection_at_retirement_age_keeps_balances_without_resp() {
    let children = vec![ChildInfo { age: 5, target_contribution: 2_500 * UNIT }];
    let p = calculate_projection(
        &household(60),
        &balances(),
        &contributions(),
        &children,
        &assumptions(),
        60,
    );
    assert_eq!(p.years_to_retirement, 0);
    assert_eq!(p.net_worth_at_retirement, 180_000 * UNIT);
    assert_eq!(p.annual_withdrawal, 0);
    assert_eq!(p.pension_equivalent, 0);
    assert_eq!(p.current_age, 60);
    assert_eq!(p.retirement_age, 60);
}

#[test]
fn projection_past_retirement_age_saturates_years() {
    let p = calculate_projection(&household(60), &balances(), &contributions(), &[], &assumptions(), 70);
    assert_eq!(p.years_to_retirement, 0);
    assert_eq!(p.net_worth_at_retirement, 180_000 * UNIT);
}

#[test]
fn projection_five_years_out() {
    let p = calculate_projection(&household(65), &balances(), &contributions(), &[], &assumptions(), 60);
    assert_eq!(p.years_to_retirement, 5);
    assert_eq!(p.net_worth_at_retirement, 382_333_088_461);
    assert_eq!(p.annual_withdrawal, 15_293_323_538);
    assert_eq!(p.pension_equivalent, p.annual_withdrawal);
}

#[test]
fn projection_ignores_children() {
    let children = vec![ChildInfo { age: 3, target_contribution: 9_000 * UNIT }];
    let with = calculate_projection(&household(65), &balances(), &contributions(), &children, &assumptions(), 60);
    let without = calculate_projection(&household(65), &balances(), &contributions(), &[], &assumptions(), 60);
    assert_eq!(with, without);
}

#[test]
fn yearly_projections_rows() {
    let rows = calculate_yearly_projections(&household(62), &balances(), &contributions(), &assumptions(), 60);
    assert_eq!(rows.len(), 3);
    assert_eq!(rows[0].year, 2025);
    assert_eq!(rows[0].age, 60);
    assert_eq!(rows[0].rrsp, 100_000 * UNIT);
    assert_eq!(rows[0].resp, 20_000 * UNIT);
    assert_eq!(rows[0].total_net_worth, 200_000 * UNIT);
    assert_eq!(rows[1].rrsp, 118_503_343_555);
    assert_eq!(rows[1].tfsa, 59_251_671_775);
    assert_eq!(rows[1].resp, 23_700_668_707);
    assert_eq!(rows[1].non_registered, 38_018_115_539);
    assert_eq!(rows[1].total_net_worth, 239_473_799_576);
    assert_eq!(rows[2].year, 2027);
    assert_eq!(rows[2].age, 62);
    assert_eq!(rows[2].total_net_worth, 281_382_256_728);
    for r in &rows {
        assert_eq!(r.total_net_worth, r.rrsp + r.tfsa + r.resp + r.non_registered);
    }
    for w in rows.windows(2) {
        assert!(w[0].year < w[1].year && w[0].age < w[1].age);
    }
}

#[test]
fn yearly_projections_single_row_at_retirement() {
    let rows = calculate_yearly_projections(&household(60), &balances(), &contributions(), &assumptions(), 65);
    assert_eq!(rows.len(), 1);
    assert_eq!(rows[0].age, 65);
    assert_eq!(rows[0].total_net_worth, 200_000 * UNIT);
}

#[test]
fn simple_projection_empty_at_retirement() {
    assert!(calculate_simple_projection(100_000 * UNIT, 65, 65, 500, 2030).is_empty());
    assert!(calculate_simple_projection(100_000 * UNIT, 70, 65, 500, 2030).is_empty());
}

#[test]
fn simple_projection_compounds_yearly() {
    let rows = calculate_simple_projection(100_000 * UNIT, 62, 65, 500, 2030);
    assert_eq!(rows.len(), 4);
    let values: Vec<i64> = rows.iter().map(|r| r.portfolio_value).collect();
    assert_eq!(values, vec![100_000 * UNIT, 105_000 * UNIT, 110_250 * UNIT, 115_762_500_000]);
    assert_eq!(rows[3].year, 2033);
    assert_eq!(rows[3].age, 65);
}

#[test]
fn closed_form_agrees_with_monthly_compounding() {
    assert_eq!(future_value(1_000 * UNIT, 100 * UNIT, 1_200, 2), 1_221_100_000);
    assert_eq!(compound(1_000 * UNIT, 100 * UNIT, 1_200, 2), 1_221_100_000);
    assert_eq!(compound(1_000 * UNIT, 0, 1_200, 0), 1_000 * UNIT);
}

#[test]
fn withdrawal_rule_is_four_percent() {
    assert_eq!(safe_withdrawal(1_000_000 * UNIT), 40_000 * UNIT);
    assert_eq!(safe_withdrawal(-250 * UNIT), -10 * UNIT);
}

#[test]
fn growth_and_deflation() {
    assert_eq!(growth_factor(1_200, 120_000, 2), 1_224_120_000_000);
    assert_eq!(deflate(1_224_120_000, 1_224_120_000_000), 1_200_000_000);
    assert_eq!(deflate(5, 0), i64::MAX);
    assert_eq!(deflate(-5, 0), i64::MIN);
}

#[test]
fn compounding_saturates() {
    assert_eq!(compound(i64::MAX / 2, i64::MAX / 2, 1_200, 5), i64::MAX);
}
