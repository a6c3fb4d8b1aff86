//! Checks of the CLOMonitor linter that grade a repository's documentation
//! website from an AFDocs report, the OpenSSF Scorecard bridge, and the
//! output record that every check produces.

pub mod text;
pub mod error;
pub mod afdocs;
pub mod metadata;
pub mod check;
pub mod scorecard;
pub mod checks;
pub mod input;
pub mod run;
pub mod authentication;
pub mod laws;
