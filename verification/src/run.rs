//! The steps that every check goes through around its own work: skipped when
//! the repository did not select it, exempt when the repository declared an
//! exemption for it, and failed when its work ends in an error.

use vstd::prelude::*;

use crate::check::{is_error_failure, CheckOutput};
use crate::checks::{should_skip_check, skipped, CheckSet};
use crate::error::error_chain_text;
use crate::metadata::Exemption;

verus! {

/// What to do with a check before running it.
pub enum CheckPlan<T> {
    /// The check does not run and has no output.
    Skip,
    /// The check does not run; this is its output.
    Exempt(CheckOutput<T>),
    /// The check runs.
    Run,
}

/// Decides whether a check runs: it is skipped when none of its check sets
/// is selected, else exempt when an exemption was declared for it, else run.
pub fn plan_check<T>(
    check_sets_of_check: &[CheckSet],
    check_sets: &[CheckSet],
    exemption: Option<Exemption>,
) -> (plan: CheckPlan<T>)
    ensures
        skipped(check_sets_of_check@, check_sets@) ==> plan is Skip,
        !skipped(check_sets_of_check@, check_sets@) ==> match exemption {
            Some(e) => plan == CheckPlan::Exempt(
                CheckOutput::<T> { exempt: true, exemption_reason: Some(e.reason), ..crate::check::blank() },
            ),
            None => plan is Run,
        },
{
    // Check if this check should be skipped
    if should_skip_check(check_sets_of_check, check_sets) {
        return CheckPlan::Skip;
    }
    // Check if an exemption has been declared for this check
    match exemption {
        Some(exemption) => CheckPlan::Exempt(CheckOutput::from(exemption)),
        None => CheckPlan::Run,
    }
}

/// The output of a check that ran: its own output, or a failure carrying the
/// error's text when it ended in an error.
pub fn finish_check<T>(result: Result<CheckOutput<T>, anyhow::Error>) -> (out: CheckOutput<T>)
    ensures
        match result {
            Ok(output) => out == output,
            Err(_) => is_error_failure::<T>(out),
        },
{
    match result {
        Ok(output) => output,
        Err(err) => CheckOutput::from_failure(error_chain_text(&err)),
    }
}

} // verus!
