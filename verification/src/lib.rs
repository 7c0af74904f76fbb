//! Safety guards and governance decisions for an autonomous device: a
//! composite risk index, banded safety decisions, independent guards, a
//! quorum check for emergency reversals and append-only ledgers.
//!
//! Real-valued quantities are held as fixed-point integers in millionths
//! (see [`fixed`]), so that every rule is exact and can be proved.

pub mod fixed;
pub mod text;
pub mod bci;
pub mod guards;
pub mod roles;
pub mod reversal;
pub mod platform;
pub mod deeds;
pub mod rights;
pub mod capabilities;
pub mod corridor;
pub mod evidence;
pub mod audit;
pub mod hexcode;
pub mod crypto;
pub mod errors;
pub mod did;
pub mod contract;
pub mod security;
pub mod compliance;
pub mod config;
pub mod regulatory;
pub mod sim;
pub mod aln;
pub mod snc;
pub mod telemetry;

use vstd::prelude::*;

verus! {

/// The version of the library.
pub const VERSION: &'static str = "0.1.0";

} // verus!
