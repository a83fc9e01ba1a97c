//! Verified quoting, decoding and instruction-building logic for Titan
//! trading venues: the Dr. Fraudsworth SOL pools and conversion vault, and the
//! Quay DSL-priced strategies.

pub mod hashing;
pub mod le_bytes;
pub mod mint;
pub mod pda;
pub mod programs;
pub mod quay;
pub mod route_venues;
pub mod trading_venue;
pub mod drfraudsworth;
