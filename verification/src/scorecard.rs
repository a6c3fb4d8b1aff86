//! The part of an OpenSSF Scorecard report that one check reads.

use vstd::prelude::*;

verus! {

/// Documentation of a Scorecard check.
#[derive(Debug, Clone, PartialEq, Eq)]
pub struct ScorecardCheckDocs {
    pub url: String,
}

/// One check of an OpenSSF Scorecard report. Scorecard grades each check
/// with a whole number of points, from 0 to 10 (-1 when inconclusive).
#[derive(Debug, Clone, PartialEq, Eq)]
pub struct ScorecardCheck {
    pub name: String,
    pub reason: String,
    pub details: Option<Vec<String>>,
    pub score: i64,
    pub documentation: ScorecardCheckDocs,
}

/// Name that Scorecard gives to its signed releases check.
pub const SIGNED_RELEASES_SCORECARD_NAME: &'static str = "Signed-Releases";

} // verus!
