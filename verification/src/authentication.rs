//! The authentication check: whether a project's documentation website can be
//! read without authentication, as the AFDocs category "authentication" says.

use vstd::prelude::*;

use crate::afdocs::get_category;
use crate::check::{graded_by_category, CheckOutput};
use crate::checks::{CheckId, CheckSet};
use crate::input::CheckInput;

verus! {

/// Check identifier.
pub const ID: CheckId = "authentication";

/// Check score weight.
pub const WEIGHT: usize = 1;

/// Check sets this check belongs to.
pub fn check_sets() -> (res: Vec<CheckSet>)
    ensures
        res@ == seq![CheckSet::Community, CheckSet::Docs],
{
    let mut res: Vec<CheckSet> = Vec::new();
    res.push(CheckSet::Community);
    res.push(CheckSet::Docs);
    res
}

/// Check main function.
pub fn check(input: &CheckInput) -> (res: Result<CheckOutput, anyhow::Error>)
    ensures
        res matches Ok(out) && graded_by_category(input.afdocs, ID@, out),
{
    Ok(CheckOutput::from_afdocs_category(get_category(&input.afdocs, ID)))
}

} // verus!
