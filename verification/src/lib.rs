//! Random passwords and PINs, and reports on how well they resist guessing.
//!
//! The generators draw from a [`RandomSource`] that the caller chooses, so
//! that a seeded source gives the same secrets again. The report classifies
//! the score of the `zxcvbn` estimator and lays out its crack times, as
//! tables for a terminal or as keys and values.

pub mod analysis;
pub mod charset;
pub mod color;
pub mod generator;
pub mod output;
pub mod random;
pub mod report;
pub mod strength;
pub mod table;
pub mod validate;

pub use analysis::{AnalysisError, CrackTimes, EntropyEstimate, SecurityAnalysis};
pub use generator::{pin_password, random_password};
pub use output::{PasswordKind, PasswordOutput};
pub use random::RandomSource;
pub use strength::PasswordStrength;
