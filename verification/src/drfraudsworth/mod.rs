//! Dr. Fraudsworth venues: two SOL pools (CRIME/SOL, FRAUD/SOL) traded through
//! the Tax Program, and four fixed-rate conversion-vault directions.

pub mod accounts;
pub mod constants;
pub mod instruction_data;
pub mod math;
pub mod sol_pool_venue;
pub mod state;
pub mod token_info_builder;
pub mod vault_venue;
