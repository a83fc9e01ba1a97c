pub mod amm_math;
pub mod tax_math;
pub mod vault_math;
