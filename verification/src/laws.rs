//! Properties that hold of the checks for all inputs.

use vstd::prelude::*;

use vstd::std_specs::convert::FromSpec;

use crate::afdocs::{select_category, AfdocsCheckResult, AfdocsCheckStatus};
use crate::check::{
    afdocs_output, category_not_found, scorecard_details, scorecard_output, CheckOutput,
};
use crate::input::{spec_afdocs_should_run, spec_missing_tool_error};
use crate::metadata::Exemption;
use crate::scorecard::ScorecardCheck;
use crate::checks::{afdocs_check_ids, afdocs_check_sets, skipped, spec_afdocs_required, CheckSet};

verus! {

/// An AFDocs category is graded by the statuses of all its results: it is
/// not passed as soon as any result, wherever it stands, failed or errored;
/// it passes exactly when none failed or errored and not all were skipped; it
/// is exempt exactly when afdocs skipped them all; a graded category is never
/// failed, and it always carries its details.
pub proof fn lemma_category_passes_when_none_fail<T>(rs: Seq<AfdocsCheckResult>)
    requires
        rs.len() > 0,
    ensures
        (exists|i: int|
            0 <= i < rs.len() && (rs[i].status == AfdocsCheckStatus::Fail || rs[i].status
                == AfdocsCheckStatus::Error)) ==> !afdocs_output::<T>(rs).passed,
        afdocs_output::<T>(rs).passed == ((forall|i: int|
            0 <= i < rs.len() ==> rs[i].status != AfdocsCheckStatus::Fail && rs[i].status
                != AfdocsCheckStatus::Error) && !(forall|i: int|
            0 <= i < rs.len() ==> rs[i].status == AfdocsCheckStatus::Skip)),
        afdocs_output::<T>(rs).exempt == (forall|i: int|
            0 <= i < rs.len() ==> rs[i].status == AfdocsCheckStatus::Skip),
        !afdocs_output::<T>(rs).failed,
        afdocs_output::<T>(rs).fail_reason is None,
        afdocs_output::<T>(rs).details is Some,
        afdocs_output::<T>(rs).value is None,
{
}

/// A Scorecard check passes from 1 point when it is the signed releases check
/// and from 5 points otherwise, and its details name that threshold.
pub proof fn lemma_scorecard_thresholds<T>(sc: ScorecardCheck)
    ensures
        sc.name@ == "Signed-Releases"@ ==> scorecard_output::<T>(sc).passed == (sc.score >= 1)
            && scorecard_output::<T>(sc).details == Some(scorecard_details(sc, 1)),
        sc.name@ != "Signed-Releases"@ ==> scorecard_output::<T>(sc).passed == (sc.score >= 5)
            && scorecard_output::<T>(sc).details == Some(scorecard_details(sc, 5)),
        !scorecard_output::<T>(sc).exempt,
        !scorecard_output::<T>(sc).failed,
{
}

/// The output built from an exemption is exempt and carries the exemption's
/// reason (not the name of the check it exempts); every other field is blank.
pub proof fn lemma_exemption_output<T>(exemption: Exemption)
    ensures
        <CheckOutput<T> as FromSpec<Exemption>>::from_spec(exemption).exempt,
        <CheckOutput<T> as FromSpec<Exemption>>::from_spec(exemption).exemption_reason == Some(
            exemption.reason,
        ),
        <CheckOutput<T> as FromSpec<Exemption>>::from_spec(exemption) == (CheckOutput::<T> {
            passed: false,
            url: None,
            value: None,
            details: None,
            exempt: true,
            exemption_reason: Some(exemption.reason),
            failed: false,
            fail_reason: None,
        }),
{
}

/// The afdocs report is needed exactly when the community or the docs check
/// set is selected.
pub proof fn lemma_afdocs_required_sets(check_sets: Seq<CheckSet>)
    ensures
        spec_afdocs_required(check_sets) == (check_sets.contains(CheckSet::Community)
            || check_sets.contains(CheckSet::Docs)),
{
    let sets = afdocs_check_sets(afdocs_check_ids()[0]);
    assert(sets[0] == CheckSet::Community);
    assert(sets[1] == CheckSet::Docs);
    if check_sets.contains(CheckSet::Community) || check_sets.contains(CheckSet::Docs) {
        if check_sets.contains(CheckSet::Community) {
            assert(check_sets.contains(sets[0]));
        } else {
            assert(check_sets.contains(sets[1]));
        }
        assert(!skipped(sets, check_sets));
    }
    if spec_afdocs_required(check_sets) {
        let i = choose|i: int|
            0 <= i < afdocs_check_ids().len() && !skipped(
                #[trigger] afdocs_check_sets(afdocs_check_ids()[i]),
                check_sets,
            );
        let own = afdocs_check_sets(afdocs_check_ids()[i]);
        let j = choose|j: int| 0 <= j < own.len() && check_sets.contains(#[trigger] own[j]);
        assert(own[j] == CheckSet::Community || own[j] == CheckSet::Docs);
    }
}

/// The afdocs report of a repository is fetched exactly when it has a
/// non-empty homepage url and the community or the docs check set is selected.
pub proof fn lemma_afdocs_fetched_for_community_or_docs(
    homepage_url: Option<String>,
    check_sets: Seq<CheckSet>,
)
    ensures
        spec_afdocs_should_run(homepage_url, check_sets) == (homepage_url matches Some(url)
            && url@.len() > 0 && (check_sets.contains(CheckSet::Community) || check_sets.contains(
            CheckSet::Docs,
        ))),
{
    lemma_afdocs_required_sets(check_sets);
}

/// Linting is refused whenever scorecard is missing, whatever else holds; when
/// scorecard is there, it is refused exactly when afdocs is missing and the
/// community or docs check set is selected.
pub proof fn lemma_missing_tools(
    scorecard_in_path: bool,
    afdocs_in_path: bool,
    check_sets: Seq<CheckSet>,
)
    ensures
        !scorecard_in_path ==> spec_missing_tool_error(scorecard_in_path, afdocs_in_path, check_sets)
            == Some(
            "scorecard not found in PATH (https://github.com/ossf/scorecard#installation)"@,
        ),
        scorecard_in_path ==> (spec_missing_tool_error(
            scorecard_in_path,
            afdocs_in_path,
            check_sets,
        ) is Some <==> !afdocs_in_path && (check_sets.contains(CheckSet::Community)
            || check_sets.contains(CheckSet::Docs))),
        scorecard_in_path && !afdocs_in_path && (check_sets.contains(CheckSet::Community)
            || check_sets.contains(CheckSet::Docs)) ==> spec_missing_tool_error(
            scorecard_in_path,
            afdocs_in_path,
            check_sets,
        ) == Some("afdocs not found in PATH (https://www.npmjs.com/package/afdocs)"@),
{
    lemma_afdocs_required_sets(check_sets);
}

/// An AFDocs category that the report does not hold is failed, neither
/// passed nor exempt.
pub proof fn lemma_missing_category_fails<T>()
    ensures
        category_not_found::<T>().failed,
        !category_not_found::<T>().passed,
        !category_not_found::<T>().exempt,
        category_not_found::<T>().fail_reason is Some,
{
}

/// The results selected for a category are exactly the report's results of
/// that category: each of them has the category, and each result of the
/// category in the report is among them.
pub proof fn lemma_selected_results_are_the_category(
    results: Seq<AfdocsCheckResult>,
    category: Seq<char>,
)
    ensures
        forall|i: int|
            0 <= i < select_category(results, category).len() ==> (#[trigger] select_category(
                results,
                category,
            )[i]).category@ == category,
        forall|i: int|
            0 <= i < select_category(results, category).len() ==> results.contains(
                #[trigger] select_category(results, category)[i],
            ),
        forall|i: int|
            0 <= i < results.len() && (#[trigger] results[i]).category@ == category
                ==> select_category(results, category).contains(results[i]),
        select_category(results, category).len() <= results.len(),
    decreases results.len(),
{
    if results.len() > 0 {
        let init = results.drop_last();
        lemma_selected_results_are_the_category(init, category);
        let sel = select_category(results, category);
        let rest = select_category(init, category);
        assert forall|i: int| 0 <= i < sel.len() implies results.contains(#[trigger] sel[i]) by {
            if i < rest.len() {
                assert(sel[i] == rest[i]);
                let k = choose|k: int| 0 <= k < init.len() && init[k] == rest[i];
                assert(results[k] == init[k]);
            } else {
                assert(sel[i] == results.last());
                assert(results[results.len() - 1] == results.last());
            }
        }
        assert forall|i: int|
            0 <= i < results.len() && (#[trigger] results[i]).category@ == category implies sel.contains(
            results[i],
        ) by {
            if i < results.len() - 1 {
                assert(init[i] == results[i]);
                let k = choose|k: int| 0 <= k < rest.len() && rest[k] == init[i];
                assert(sel[k] == rest[k]);
            } else {
                assert(sel[sel.len() - 1] == results.last());
            }
        }
    }
}

/// Selecting more check sets never stops the afdocs report from being needed.
pub proof fn lemma_afdocs_required_grows_with_check_sets(
    selected: Seq<CheckSet>,
    more: Seq<CheckSet>,
)
    requires
        forall|k: CheckSet| selected.contains(k) ==> more.contains(k),
        spec_afdocs_required(selected),
    ensures
        spec_afdocs_required(more),
{
    let i = choose|i: int|
        0 <= i < afdocs_check_ids().len() && !skipped(
            #[trigger] afdocs_check_sets(afdocs_check_ids()[i]),
            selected,
        );
    let sets = afdocs_check_sets(afdocs_check_ids()[i]);
    let j = choose|j: int| 0 <= j < sets.len() && selected.contains(#[trigger] sets[j]);
    assert(more.contains(sets[j]));
}

} // verus!
