//! Venue adapters of the on-chain route program: each builds the CPI
//! instruction of one route leg from the leg's already-assembled accounts.

pub mod quay;
