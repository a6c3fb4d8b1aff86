//! What the checks read of the data gathered about a repository, and the
//! decisions taken while gathering it.

use vstd::prelude::*;

use crate::afdocs::AfdocsReport;
use crate::checks::{afdocs_required, spec_afdocs_required, CheckSet};

verus! {

/// Input used by checks to perform their operations: the check sets the
/// repository selected and the AFDocs report of its documentation website
/// (none when it has no website, or when no check needs it).
pub struct CheckInput {
    pub check_sets: Vec<CheckSet>,
    pub afdocs: Result<Option<AfdocsReport>, anyhow::Error>,
}

/// Whether the afdocs report of a website is to be fetched: the repository
/// has a non-empty homepage url and some check that relies on the report runs.
pub open spec fn spec_afdocs_should_run(
    homepage_url: Option<String>,
    check_sets: Seq<CheckSet>,
) -> bool {
    homepage_url matches Some(url) && url@.len() > 0 && spec_afdocs_required(check_sets)
}

/// Whether the afdocs report of the repository's homepage is to be fetched.
pub fn afdocs_should_run(homepage_url: &Option<String>, check_sets: &[CheckSet]) -> (res: bool)
    ensures
        res == spec_afdocs_should_run(*homepage_url, check_sets@),
        res == (homepage_url matches Some(url) && url@.len() > 0 && (check_sets@.contains(
            CheckSet::Community,
        ) || check_sets@.contains(CheckSet::Docs))),
{
    match homepage_url {
        Some(url) => !url.as_str().is_empty() && afdocs_required(check_sets),
        None => false,
    }
}

/// The error that stops the gathering when an external tool that the checks
/// need is missing: scorecard always, afdocs when some check relies on its
/// report. Scorecard is looked at first.
pub open spec fn spec_missing_tool_error(
    scorecard_in_path: bool,
    afdocs_in_path: bool,
    check_sets: Seq<CheckSet>,
) -> Option<Seq<char>> {
    if !scorecard_in_path {
        Some("scorecard not found in PATH (https://github.com/ossf/scorecard#installation)"@)
    } else if spec_afdocs_required(check_sets) && !afdocs_in_path {
        Some("afdocs not found in PATH (https://www.npmjs.com/package/afdocs)"@)
    } else {
        None
    }
}

/// Checks that the required external tools were found in the PATH, given
/// whether each of them was found.
pub fn missing_tool_error(
    scorecard_in_path: bool,
    afdocs_in_path: bool,
    check_sets: &[CheckSet],
) -> (res: Option<&'static str>)
    ensures
        match res {
            Some(m) => spec_missing_tool_error(scorecard_in_path, afdocs_in_path, check_sets@)
                == Some(m@),
            None => spec_missing_tool_error(scorecard_in_path, afdocs_in_path, check_sets@)
                is None,
        },
        !scorecard_in_path ==> (res matches Some(m) && m@
            == "scorecard not found in PATH (https://github.com/ossf/scorecard#installation)"@),
        scorecard_in_path && !afdocs_in_path && (check_sets@.contains(CheckSet::Community)
            || check_sets@.contains(CheckSet::Docs)) ==> (res matches Some(m) && m@
            == "afdocs not found in PATH (https://www.npmjs.com/package/afdocs)"@),
        scorecard_in_path && (afdocs_in_path || !(check_sets@.contains(CheckSet::Community)
            || check_sets@.contains(CheckSet::Docs))) ==> res is None,
{
    if !scorecard_in_path {
        return Some("scorecard not found in PATH (https://github.com/ossf/scorecard#installation)");
    }
    if afdocs_required(check_sets) && !afdocs_in_path {
        return Some("afdocs not found in PATH (https://www.npmjs.com/package/afdocs)");
    }
    None
}

} // verus!
