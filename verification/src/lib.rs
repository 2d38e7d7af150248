//! A verified core for computing U.S. individual federal income tax returns.
//!
//! The crate is organised leaf-first:
//! - [`usd_amount`] holds the exact decimal currency type every other module
//!   computes with, together with its rounding and saturation operations.
//! - [`types`] holds the filing-status, dependent and taxpayer value types.
//! - [`error`] holds the error taxonomy and the accumulating validator.
//! - [`rules`] holds the bracket, phase-out and deduction machinery that is
//!   shared by every tax year, with the year-specific constants in [`y2025`]
//!   and the year lookup in [`loader`].
//! - [`input`] and [`output`] hold the capability contracts that input
//!   documents and produced forms implement; [`w2`] and [`form1040`] are the
//!   concrete wage statement and return types.

pub mod error;
pub mod form1040;
pub mod input;
pub mod loader;
pub mod output;
pub mod rules;
pub mod y2025;
pub mod types;
pub mod usd_amount;
pub mod w2;
