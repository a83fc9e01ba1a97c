pub mod addresses;
pub mod hook_accounts;
pub mod sol_pool_accounts;
pub mod vault_accounts;
