//! The AFDocs (Agent-Friendly Documentation) report and the selection of the
//! results that belong to one check's category.

use vstd::prelude::*;
use vstd::string::StringExecFns;

use crate::text::{replace_char, replaced};

verus! {

/// Agent-Friendly Documentation Spec url.
pub const SPEC_URL: &'static str = "https://agentdocsspec.com/spec/";

/// AFDocs check result status.
#[derive(Debug, Clone, Copy, PartialEq, Eq, Structural)]
pub enum AfdocsCheckStatus {
    Pass,
    Warn,
    Fail,
    Skip,
    Error,
    Other,
}

impl AfdocsCheckStatus {
    /// The upper-case label under which a status is displayed.
    pub open spec fn spec_label(self) -> Seq<char> {
        match self {
            AfdocsCheckStatus::Pass => "PASS"@,
            AfdocsCheckStatus::Warn => "WARN"@,
            AfdocsCheckStatus::Fail => "FAIL"@,
            AfdocsCheckStatus::Skip => "SKIP"@,
            AfdocsCheckStatus::Error => "ERROR"@,
            AfdocsCheckStatus::Other => "OTHER"@,
        }
    }

    /// The display label of the status ("PASS", "WARN", ...).
    pub fn label(&self) -> (res: &'static str)
        ensures
            res@ == self.spec_label(),
    {
        match self {
            AfdocsCheckStatus::Pass => "PASS",
            AfdocsCheckStatus::Warn => "WARN",
            AfdocsCheckStatus::Fail => "FAIL",
            AfdocsCheckStatus::Skip => "SKIP",
            AfdocsCheckStatus::Error => "ERROR",
            AfdocsCheckStatus::Other => "OTHER",
        }
    }

    /// The display label of the status as an owned string.
    pub fn to_string(&self) -> (res: String)
        ensures
            res@ == self.spec_label(),
    {
        String::from_str(self.label())
    }
}

/// AFDocs check result details.
#[derive(Debug, Clone, PartialEq, Eq)]
pub struct AfdocsCheckResult {
    pub id: String,
    pub category: String,
    pub status: AfdocsCheckStatus,
    pub message: String,
}

/// AFDocs report (list of check results).
#[derive(Debug, Clone)]
pub struct AfdocsReport {
    pub results: Vec<AfdocsCheckResult>,
}

/// The AFDocs category that a check id stands for: its underscores become
/// hyphens ("page_size" is the category "page-size").
pub open spec fn category_slug(check_id: Seq<char>) -> Seq<char> {
    replaced(check_id, '_', '-')
}

/// The results of the given category, in the order of the report.
pub open spec fn select_category(
    results: Seq<AfdocsCheckResult>,
    category: Seq<char>,
) -> Seq<AfdocsCheckResult>
    decreases results.len(),
{
    if results.len() == 0 {
        seq![]
    } else {
        let rest = select_category(results.drop_last(), category);
        if results.last().category@ == category {
            rest.push(results.last())
        } else {
            rest
        }
    }
}

/// The results that a sequence of references points to.
pub open spec fn deref_all(refs: Seq<&AfdocsCheckResult>) -> Seq<AfdocsCheckResult> {
    refs.map_values(|r: &AfdocsCheckResult| *r)
}

/// Get all check results in the afdocs report that belong to the category
/// the check provided represents.
pub fn get_category<'a>(
    afdocs: &'a Result<Option<AfdocsReport>, anyhow::Error>,
    check_id: &str,
) -> (res: Result<Option<Vec<&'a AfdocsCheckResult>>, &'a anyhow::Error>)
    ensures
        match afdocs {
            Ok(Some(report)) => {
                let selected = select_category(report.results@, category_slug(check_id@));
                if selected.len() == 0 {
                    res matches Ok(None)
                } else {
                    res matches Ok(Some(v)) && deref_all(v@) == selected
                }
            },
            Ok(None) => res matches Ok(None),
            Err(err) => res matches Err(e) && e == err,
        },
{
    let category = replace_char(check_id, '_', '-');
    match afdocs {
        Ok(Some(report)) => {
            let n = report.results.len();
            let mut results: Vec<&AfdocsCheckResult> = Vec::new();
            let mut i: usize = 0;
            while i < n
                invariant
                    i <= n,
                    n == report.results@.len(),
                    deref_all(results@) == select_category(
                        report.results@.take(i as int),
                        category@,
                    ),
                decreases n - i,
            {
                let r = &report.results[i];
                let ghost prefix = report.results@.take(i as int);
                assert(report.results@.take(i + 1).drop_last() == prefix);
                assert(report.results@.take(i + 1).last() == *r);
                if r.category == category {
                    results.push(r);
                    assert(deref_all(results@) =~= deref_all(results@.drop_last()).push(*r));
                }
                i = i + 1;
            }
            assert(report.results@.take(n as int) == report.results@);
            if results.len() == 0 {
                return Ok(None);
            }
            Ok(Some(results))
        },
        Ok(None) => Ok(None),
        Err(err) => Err(err),
    }
}

/// The error for afdocs output that is not a report, quoting what afdocs
/// wrote to its standard error.
pub fn unexpected_output_error(stderr: &str) -> (res: String)
    ensures
        res@ == "unexpected afdocs output: "@ + stderr@,
{
    let mut res = String::from_str("unexpected afdocs output: ");
    res.append(stderr);
    res
}

} // verus!
