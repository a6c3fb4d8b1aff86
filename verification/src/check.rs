//! The output record of a check, with its constructors, and the outputs that
//! come from an OpenSSF Scorecard check and from a category of AFDocs results.

use vstd::prelude::*;

use vstd::string::StrSliceExecFns;
use vstd::string::StringExecFns;

use crate::afdocs::{
    category_slug, deref_all, select_category, AfdocsCheckResult, AfdocsCheckStatus, AfdocsReport,
    SPEC_URL,
};
use crate::error::error_chain_text;
use crate::metadata::Exemption;
use crate::scorecard::{ScorecardCheck, SIGNED_RELEASES_SCORECARD_NAME};
use crate::text::{
    char_uppercase, decimal, decimal_text, join, join_strings, replace_char, replaced, same_text,
    texts, uppercase_text,
};

verus! {

/// Check output information.
#[derive(Debug, Clone, PartialEq, Eq)]
pub struct CheckOutput<T = ()> {
    pub passed: bool,
    pub url: Option<String>,
    pub value: Option<T>,
    pub details: Option<String>,
    pub exempt: bool,
    pub exemption_reason: Option<String>,
    pub failed: bool,
    pub fail_reason: Option<String>,
}

/// The characters of an optional string.
pub open spec fn opt_text(o: Option<String>) -> Option<Seq<char>> {
    match o {
        Some(s) => Some(s@),
        None => None,
    }
}

/// A check output with its texts taken as character sequences.
#[verifier::ext_equal]
pub struct CheckOutputView<T> {
    pub passed: bool,
    pub url: Option<Seq<char>>,
    pub value: Option<T>,
    pub details: Option<Seq<char>>,
    pub exempt: bool,
    pub exemption_reason: Option<Seq<char>>,
    pub failed: bool,
    pub fail_reason: Option<Seq<char>>,
}

impl<T> View for CheckOutput<T> {
    type V = CheckOutputView<T>;

    open spec fn view(&self) -> CheckOutputView<T> {
        CheckOutputView {
            passed: self.passed,
            url: opt_text(self.url),
            value: self.value,
            details: opt_text(self.details),
            exempt: self.exempt,
            exemption_reason: opt_text(self.exemption_reason),
            failed: self.failed,
            fail_reason: opt_text(self.fail_reason),
        }
    }
}

/// The output with every flag down and no field set.
pub open spec fn blank<T>() -> CheckOutput<T> {
    CheckOutput {
        passed: false,
        url: None,
        value: None,
        details: None,
        exempt: false,
        exemption_reason: None,
        failed: false,
        fail_reason: None,
    }
}

/// The view of the output with every flag down and no field set.
pub open spec fn blank_view<T>() -> CheckOutputView<T> {
    CheckOutputView {
        passed: false,
        url: None,
        value: None,
        details: None,
        exempt: false,
        exemption_reason: None,
        failed: false,
        fail_reason: None,
    }
}

impl<T> CheckOutput<T> {
    /// Create a new CheckOutput instance with the passed field set to true.
    pub fn passed() -> (out: Self)
        ensures
            out == (CheckOutput::<T> { passed: true, ..blank() }),
    {
        CheckOutput { passed: true, ..Self::default() }
    }

    /// Create a new CheckOutput instance with the passed field set to false.
    pub fn not_passed() -> (out: Self)
        ensures
            out == blank::<T>(),
    {
        CheckOutput { passed: false, ..Self::default() }
    }

    /// Create a new CheckOutput instance with the exempt field set to true.
    pub fn exempt() -> (out: Self)
        ensures
            out == (CheckOutput::<T> { exempt: true, ..blank() }),
    {
        CheckOutput { exempt: true, ..Self::default() }
    }

    /// Create a new CheckOutput instance with the failed field set to true.
    pub fn failed() -> (out: Self)
        ensures
            out == (CheckOutput::<T> { failed: true, ..blank() }),
    {
        CheckOutput { failed: true, ..Self::default() }
    }

    /// Url field setter.
    pub fn url(self, url: Option<String>) -> (out: Self)
        ensures
            out == (CheckOutput { url: url, ..self }),
    {
        let mut out = self;
        out.url = url;
        out
    }

    /// Value field setter.
    pub fn value(self, value: Option<T>) -> (out: Self)
        ensures
            out == (CheckOutput { value: value, ..self }),
    {
        let mut out = self;
        out.value = value;
        out
    }

    /// Details field setter.
    pub fn details(self, details: Option<String>) -> (out: Self)
        ensures
            out == (CheckOutput { details: details, ..self }),
    {
        let mut out = self;
        out.details = details;
        out
    }

    /// Exemption reason field setter.
    pub fn exemption_reason(self, reason: Option<String>) -> (out: Self)
        ensures
            out == (CheckOutput { exemption_reason: reason, ..self }),
    {
        let mut out = self;
        out.exemption_reason = reason;
        out
    }

    /// Fail reason field setter.
    pub fn fail_reason(self, reason: Option<String>) -> (out: Self)
        ensures
            out == (CheckOutput { fail_reason: reason, ..self }),
    {
        let mut out = self;
        out.fail_reason = reason;
        out
    }
}

impl<T> Default for CheckOutput<T> {
    fn default() -> (out: Self)
        ensures
            out == blank::<T>(),
    {
        CheckOutput {
            passed: false,
            url: None,
            value: None,
            details: None,
            exempt: false,
            exemption_reason: None,
            failed: false,
            fail_reason: None,
        }
    }
}

impl<T> From<Exemption> for CheckOutput<T> {
    fn from(exemption: Exemption) -> (out: Self)
        ensures
            out.exempt,
            out.exemption_reason == Some(exemption.reason),
            out == (CheckOutput::<T> { exempt: true, exemption_reason: Some(exemption.reason), ..blank() }),
    {
        Self::exempt().exemption_reason(Some(exemption.reason))
    }
}

impl<T> vstd::std_specs::convert::FromSpecImpl<Exemption> for CheckOutput<T> {
    open spec fn obeys_from_spec() -> bool {
        true
    }

    open spec fn from_spec(exemption: Exemption) -> Self {
        CheckOutput { exempt: true, exemption_reason: Some(exemption.reason), ..blank() }
    }
}


/// The output of a check that could not run: failed, for the reason given.
pub open spec fn failure<T>(reason: String) -> CheckOutput<T> {
    CheckOutput { failed: true, fail_reason: Some(reason), ..blank() }
}

/// Whether `out` is the output of a check whose data source ended in an
/// error: failed, with some reason (the error's text), every other field blank.
pub open spec fn is_error_failure<T>(out: CheckOutput<T>) -> bool {
    out.fail_reason is Some && out == failure::<T>(out.fail_reason->0)
}

impl<T> CheckOutput<T> {
    /// The output of a check that could not run, for the reason given.
    pub fn from_failure(reason: String) -> (out: Self)
        ensures
            out == failure::<T>(reason),
    {
        Self::failed().fail_reason(Some(reason))
    }
}

// ---------------------------------------------------------------------------
// OpenSSF Scorecard
// ---------------------------------------------------------------------------

/// The score from which a Scorecard check passes: 1 for the signed releases
/// check, 5 for every other one.
pub open spec fn pass_threshold(name: Seq<char>) -> int {
    if name == SIGNED_RELEASES_SCORECARD_NAME@ {
        1
    } else {
        5
    }
}

/// The details lines of a Scorecard check, as quoted in the output.
pub open spec fn scorecard_details_block(details: Option<Vec<String>>) -> Seq<char> {
    match details {
        Some(d) => "\n\n>"@ + join(texts(d@), "\n"@),
        None => "-"@,
    }
}

/// The markdown text that describes the result of a Scorecard check graded
/// against the given pass threshold.
pub open spec fn scorecard_details(sc: ScorecardCheck, threshold: int) -> Seq<char> {
    "# "@ + sc.name@ + " OpenSSF Scorecard check\n\n**Score**: "@ + decimal(sc.score as int)
        + " (check passes with score >= "@ + decimal(threshold)
        + ")\n\n**Reason**: "@ + sc.reason@ + "\n\n**Details**: "@ + scorecard_details_block(
        sc.details,
    ) + "\n\n**Please see the [check documentation]("@ + sc.documentation.url@
        + ") in the ossf/scorecard repository for more details**"@
}

/// The output for a Scorecard check found in the report: passed when its
/// score reaches the threshold, with the details text.
pub open spec fn scorecard_output<T>(sc: ScorecardCheck) -> CheckOutputView<T> {
    CheckOutputView {
        passed: sc.score >= pass_threshold(sc.name@),
        details: Some(scorecard_details(sc, pass_threshold(sc.name@))),
        ..blank_view()
    }
}

fn scorecard_pass_threshold(name: &str) -> (res: i64)
    ensures
        res == pass_threshold(name@),
{
    if same_text(name, SIGNED_RELEASES_SCORECARD_NAME) {
        1
    } else {
        5
    }
}

fn scorecard_details_text(sc: &ScorecardCheck, threshold: i64) -> (res: String)
    ensures
        res@ == scorecard_details(*sc, threshold as int),
{
    let mut s = String::from_str("# ");
    s.append(sc.name.as_str());
    s.append(" OpenSSF Scorecard check\n\n**Score**: ");
    s.append(decimal_text(sc.score).as_str());
    s.append(" (check passes with score >= ");
    s.append(decimal_text(threshold).as_str());
    s.append(")\n\n**Reason**: ");
    s.append(sc.reason.as_str());
    s.append("\n\n**Details**: ");
    match &sc.details {
        Some(details) => {
            s.append("\n\n>");
            s.append(join_strings(details, "\n").as_str());
        },
        None => {
            s.append("-");
        },
    }
    s.append("\n\n**Please see the [check documentation](");
    s.append(sc.documentation.url.as_str());
    s.append(") in the ossf/scorecard repository for more details**");
    s
}

impl<T> CheckOutput<T> {
    /// The output for a check that Scorecard found in its report.
    pub fn from_scorecard_found(sc_check: &ScorecardCheck) -> (out: Self)
        ensures
            out@ == scorecard_output::<T>(*sc_check),
    {
        let threshold = scorecard_pass_threshold(sc_check.name.as_str());
        let mut output = CheckOutput::default();
        if sc_check.score >= threshold {
            output.passed = true;
        }
        output.details = Some(scorecard_details_text(sc_check, threshold));
        output
    }

    /// The output for the Scorecard check of a CLOMonitor check: passed or not
    /// by its score when Scorecard reported it, not passed when it did not, and
    /// failed, with the error's text as the reason, when Scorecard could not run.
    pub fn from_scorecard_check(sc_check: Result<Option<&ScorecardCheck>, &anyhow::Error>) -> (out:
        Self)
        ensures
            match sc_check {
                Ok(Some(sc)) => {
                    &&& out@ == scorecard_output::<T>(*sc)
                    &&& sc.name@ == "Signed-Releases"@ ==> out.passed == (sc.score >= 1)
                        && out@.details == Some(scorecard_details(*sc, 1))
                    &&& sc.name@ != "Signed-Releases"@ ==> out.passed == (sc.score >= 5)
                        && out@.details == Some(scorecard_details(*sc, 5))
                },
                Ok(None) => out == blank::<T>(),
                Err(_) => is_error_failure::<T>(out),
            },
    {
        match sc_check {
            Ok(sc_check) => match sc_check {
                Some(sc_check) => Self::from_scorecard_found(sc_check),
                None => CheckOutput::not_passed(),
            },
            Err(err) => Self::from_failure(error_chain_text(err)),
        }
    }
}

// ---------------------------------------------------------------------------
// AFDocs categories
// ---------------------------------------------------------------------------

/// Whether a status counts as a failure of its check.
pub open spec fn is_failure(status: AfdocsCheckStatus) -> bool {
    status == AfdocsCheckStatus::Fail || status == AfdocsCheckStatus::Error
}

/// Whether afdocs skipped every check of the results.
pub open spec fn all_skipped(rs: Seq<AfdocsCheckResult>) -> bool {
    forall|i: int| 0 <= i < rs.len() ==> rs[i].status == AfdocsCheckStatus::Skip
}

/// Whether some check of the results failed or errored.
pub open spec fn some_failed(rs: Seq<AfdocsCheckResult>) -> bool {
    exists|i: int| 0 <= i < rs.len() && is_failure(rs[i].status)
}

/// The display name of an AFDocs category slug: "URL stability" for
/// "url-stability"; otherwise the slug with its hyphens turned into spaces and
/// its first character in upper case.
pub open spec fn category_name(slug: Seq<char>) -> Seq<char> {
    if slug == "url-stability"@ {
        "URL stability"@
    } else {
        let words = replaced(slug, '-', ' ');
        if words.len() == 0 {
            seq![]
        } else {
            char_uppercase(words[0]) + words.subrange(1, words.len() as int)
        }
    }
}

/// The line that lists one AFDocs result in the details.
pub open spec fn result_line(r: AfdocsCheckResult) -> Seq<char> {
    "- **"@ + r.status.spec_label() + "** `"@ + r.id@ + "`: "@ + r.message@
}

/// The lines of the results, in order.
pub open spec fn result_lines(rs: Seq<AfdocsCheckResult>) -> Seq<Seq<char>> {
    rs.map_values(|r: AfdocsCheckResult| result_line(r))
}

/// The markdown text that describes an AFDocs category.
pub open spec fn afdocs_details(name: Seq<char>, result: Seq<char>, rs: Seq<AfdocsCheckResult>) -> Seq<
    char,
> {
    "# "@ + name + " AFDocs checks\n\n**Result**: "@ + result + "\n\n"@ + join(
        result_lines(rs),
        "\n"@,
    ) + "\n\n**Please see the [Agent-Friendly Documentation Spec]("@ + SPEC_URL@
        + ") for more details**"@
}

/// The output of a non-empty AFDocs category: exempt when afdocs skipped all
/// of its checks, else not passed when one of them failed or errored, else
/// passed; its details name the category (after the first result's
/// category), the outcome, and each result.
pub open spec fn afdocs_output<T>(rs: Seq<AfdocsCheckResult>) -> CheckOutputView<T> {
    let name = category_name(rs[0].category@);
    if all_skipped(rs) {
        CheckOutputView {
            exempt: true,
            exemption_reason: Some(
                "afdocs skipped all checks in this category for this website"@,
            ),
            details: Some(
                afdocs_details(
                    name,
                    "skipped (afdocs skipped all checks in this category for this website)"@,
                    rs,
                ),
            ),
            ..blank_view()
        }
    } else if some_failed(rs) {
        CheckOutputView {
            details: Some(
                afdocs_details(
                    name,
                    "not passed (a category passes when none of its checks fail)"@,
                    rs,
                ),
            ),
            ..blank_view()
        }
    } else {
        CheckOutputView {
            passed: true,
            details: Some(
                afdocs_details(name, "passed (a category passes when none of its checks fail)"@, rs),
            ),
            ..blank_view()
        }
    }
}

/// The grading of a non-empty category, read off the results' statuses: not
/// passed as soon as one result failed or errored, wherever it stands; passed
/// exactly when none failed or errored and not all were skipped; exempt
/// exactly when all were skipped; never failed.
proof fn lemma_graded_statuses<T>(refs: Seq<&AfdocsCheckResult>)
    requires
        refs.len() > 0,
    ensures
        ({
            let out = afdocs_output::<T>(deref_all(refs));
            &&& (exists|i: int|
                0 <= i < refs.len() && (refs[i].status == AfdocsCheckStatus::Fail
                    || refs[i].status == AfdocsCheckStatus::Error)) ==> !out.passed
            &&& out.passed == ((forall|i: int|
                0 <= i < refs.len() ==> refs[i].status != AfdocsCheckStatus::Fail
                    && refs[i].status != AfdocsCheckStatus::Error) && !(forall|i: int|
                0 <= i < refs.len() ==> refs[i].status == AfdocsCheckStatus::Skip))
            &&& out.exempt == (forall|i: int|
                0 <= i < refs.len() ==> refs[i].status == AfdocsCheckStatus::Skip)
            &&& !out.failed
        }),
{
    let rs = deref_all(refs);
    assert forall|i: int| 0 <= i < refs.len() implies rs[i].status == refs[i].status by {
        assert(rs[i] == *refs[i]);
    }
}

/// The output when the report has no result of the category.
pub open spec fn category_not_found<T>() -> CheckOutputView<T> {
    CheckOutputView {
        failed: true,
        fail_reason: Some(
            "category not found in the afdocs report (possible afdocs version mismatch)"@,
        ),
        ..blank_view()
    }
}

fn category_name_text(slug: &str) -> (res: String)
    ensures
        res@ == category_name(slug@),
{
    if same_text(slug, "url-stability") {
        return String::from_str("URL stability");
    }
    let words = replace_char(slug, '-', ' ');
    let n = words.as_str().unicode_len();
    if n == 0 {
        return String::new();
    }
    let first = words.as_str().get_char(0);
    let rest = words.as_str().substring_char(1, n);
    let upper = uppercase_text(first);
    upper.concat(rest)
}

fn result_line_text(r: &AfdocsCheckResult) -> (res: String)
    ensures
        res@ == result_line(*r),
{
    let mut s = String::from_str("- **");
    s.append(r.status.label());
    s.append("** `");
    s.append(r.id.as_str());
    s.append("`: ");
    s.append(r.message.as_str());
    s
}

impl<T> CheckOutput<T> {
    fn from_afdocs_results(results: &Vec<&AfdocsCheckResult>) -> (out: Self)
        requires
            results@.len() > 0,
        ensures
            out@ == afdocs_output::<T>(deref_all(results@)),
    {
        let ghost rs = deref_all(results@);
        let n = results.len();

        // Prepare category name from the category of the first result
        let category_name = category_name_text(results[0].category.as_str());

        // Prepare check output based on the results statuses
        let mut skipped = true;
        let mut failed = false;
        let mut lines: Vec<String> = Vec::new();
        let mut i: usize = 0;
        while i < n
            invariant
                i <= n,
                n == results@.len(),
                rs == deref_all(results@),
                skipped == all_skipped(rs.take(i as int)),
                failed == some_failed(rs.take(i as int)),
                texts(lines@) == result_lines(rs.take(i as int)),
            decreases n - i,
        {
            let r = results[i];
            let ghost prefix = rs.take(i as int);
            let ghost next = rs.take(i + 1);
            assert(rs[i as int] == *r);
            assert(next == prefix.push(*r));
            if r.status != AfdocsCheckStatus::Skip {
                skipped = false;
            }
            if r.status == AfdocsCheckStatus::Fail || r.status == AfdocsCheckStatus::Error {
                failed = true;
            }
            assert(failed == some_failed(next)) by {
                if some_failed(prefix) {
                    let j = choose|j: int| 0 <= j < prefix.len() && is_failure(prefix[j].status);
                    assert(next[j] == prefix[j]);
                }
                if is_failure(r.status) {
                    assert(next[i as int] == *r);
                }
            }
            let line = result_line_text(r);
            let ghost old_lines = lines@;
            lines.push(line);
            assert(lines@ == old_lines.push(line));
            assert(texts(lines@) =~= texts(old_lines).push(line@));
            assert(result_lines(next) =~= result_lines(prefix).push(result_line(*r)));
            i = i + 1;
        }
        assert(rs.take(n as int) == rs);
        let (mut output, result) = if skipped {
            (
                CheckOutput::exempt().exemption_reason(
                    Some(
                        String::from_str(
                            "afdocs skipped all checks in this category for this website",
                        ),
                    ),
                ),
                "skipped (afdocs skipped all checks in this category for this website)",
            )
        } else if failed {
            (
                CheckOutput::not_passed(),
                "not passed (a category passes when none of its checks fail)",
            )
        } else {
            (CheckOutput::passed(), "passed (a category passes when none of its checks fail)")
        };
        let mut details = String::from_str("# ");
        details.append(category_name.as_str());
        details.append(" AFDocs checks\n\n**Result**: ");
        details.append(result);
        details.append("\n\n");
        details.append(join_strings(&lines, "\n").as_str());
        details.append("\n\n**Please see the [Agent-Friendly Documentation Spec](");
        details.append(SPEC_URL);
        details.append(") for more details**");
        output.details = Some(details);
        output
    }

    /// The output for an AFDocs category: graded by its results when the
    /// report has some, failed when the category is not in the report, and
    /// failed, with the error's text as the reason, when afdocs could not run.
    pub fn from_afdocs_category(
        results: Result<Option<Vec<&AfdocsCheckResult>>, &anyhow::Error>,
    ) -> (out: Self)
        ensures
            match results {
                Ok(Some(v)) => if v@.len() > 0 {
                    &&& out@ == afdocs_output::<T>(deref_all(v@))
                    &&& (exists|i: int|
                        0 <= i < v@.len() && (v@[i].status == AfdocsCheckStatus::Fail
                            || v@[i].status == AfdocsCheckStatus::Error)) ==> !out.passed
                    &&& out.passed == ((forall|i: int|
                        0 <= i < v@.len() ==> v@[i].status != AfdocsCheckStatus::Fail
                            && v@[i].status != AfdocsCheckStatus::Error) && !(forall|i: int|
                        0 <= i < v@.len() ==> v@[i].status == AfdocsCheckStatus::Skip))
                    &&& out.exempt == (forall|i: int|
                        0 <= i < v@.len() ==> v@[i].status == AfdocsCheckStatus::Skip)
                    &&& !out.failed
                } else {
                    out@ == category_not_found::<T>()
                },
                Ok(None) => out@ == category_not_found::<T>(),
                Err(_) => is_error_failure::<T>(out),
            },
    {
        match results {
            Ok(Some(results)) if results.len() > 0 => {
                proof {
                    lemma_graded_statuses::<T>(results@);
                }
                Self::from_afdocs_results(&results)
            },
            Ok(_) => Self::from_failure(
                String::from_str(
                    "category not found in the afdocs report (possible afdocs version mismatch)",
                ),
            ),
            Err(err) => Self::from_failure(error_chain_text(err)),
        }
    }
}

/// Whether `out` is the output that grades the AFDocs category of the check
/// `check_id` in the report: the graded category when the report holds
/// results of it, "category not found" when it holds none or when there is no
/// report, and a failure with a reason when afdocs could not run.
pub open spec fn graded_by_category<T>(
    afdocs: Result<Option<AfdocsReport>, anyhow::Error>,
    check_id: Seq<char>,
    out: CheckOutput<T>,
) -> bool {
    match afdocs {
        Ok(Some(report)) => {
            let selected = select_category(report.results@, category_slug(check_id));
            if selected.len() > 0 {
                out@ == afdocs_output::<T>(selected)
            } else {
                out@ == category_not_found::<T>()
            }
        },
        Ok(None) => out@ == category_not_found::<T>(),
        Err(_) => is_error_failure::<T>(out),
    }
}

} // verus!
