//! Bayesian linear regression with automatic relevance determination:
//! the integer-valued parts of the library — the seeded generator behind the
//! synthetic sensor data, the shape checks that guard every matrix routine,
//! the dispatch between the two conditioning forms, and the bookkeeping of
//! the noise estimate — each with its contract.

pub mod ard;
pub mod error;
pub mod gaussian;
pub mod noise_estimation;
pub mod synthetic_data;

pub use error::BLRError;
