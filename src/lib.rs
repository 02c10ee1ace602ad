//! The state-transition core of a two-asset constant-product market maker:
//! pool creation, deposits against claim tokens, withdrawals and swaps,
//! each computed exactly and free of overflow, and each returning the
//! custody requests that the surrounding program carries out.

pub mod custody;
pub mod errors;
pub mod instructions;
pub mod laws;
pub mod mini_amm;
pub mod pricing;
pub mod state;
pub mod utils;
pub mod validation;
