pub mod models;
pub mod money;
pub mod projection;
pub mod solver;

pub use models::{
    AccountBalance, Assumptions, ChildInfo, ContributionConfig, HouseholdConfig,
    RetirementProjection, YearlyProjection,
};
pub use projection::{
    calculate_projection, calculate_simple_projection, calculate_yearly_projections,
    SimpleProjection,
};
pub use solver::calculate_additional_annual_savings;
