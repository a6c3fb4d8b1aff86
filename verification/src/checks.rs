//! Check identifiers, check sets, and which checks run for the check sets
//! that a repository selects.

use vstd::prelude::*;

use crate::authentication;

verus! {

/// Type alias to represent a check identifier.
pub type CheckId = &'static str;

/// The sets of checks that a repository can select.
#[derive(Debug, Clone, Copy, PartialEq, Eq, Structural)]
pub enum CheckSet {
    Code,
    CodeLite,
    Community,
    Docs,
}

/// Whether a check that belongs to the sets `own` is left out when the sets
/// `selected` are run: none of its sets is selected.
pub open spec fn skipped(own: Seq<CheckSet>, selected: Seq<CheckSet>) -> bool {
    !exists|i: int| 0 <= i < own.len() && selected.contains(#[trigger] own[i])
}

fn contains_set(sets: &[CheckSet], set: CheckSet) -> (res: bool)
    ensures
        res == sets@.contains(set),
{
    let n = sets.len();
    let mut i: usize = 0;
    while i < n
        invariant
            i <= n,
            n == sets@.len(),
            forall|j: int| 0 <= j < i ==> sets@[j] != set,
        decreases n - i,
    {
        if sets[i] == set {
            return true;
        }
        i = i + 1;
    }
    false
}

/// Whether a check that belongs to the sets `check_sets_of_check` is skipped
/// when the sets `check_sets` are run: it is when it belongs to none of them.
pub fn should_skip_check(check_sets_of_check: &[CheckSet], check_sets: &[CheckSet]) -> (res: bool)
    ensures
        res == skipped(check_sets_of_check@, check_sets@),
{
    let n = check_sets_of_check.len();
    let mut i: usize = 0;
    while i < n
        invariant
            i <= n,
            n == check_sets_of_check@.len(),
            forall|j: int|
                0 <= j < i ==> !check_sets@.contains(#[trigger] check_sets_of_check@[j]),
        decreases n - i,
    {
        if contains_set(check_sets, check_sets_of_check[i]) {
            return false;
        }
        i = i + 1;
    }
    true
}

/// A check that relies on the afdocs report, with the check sets it belongs to.
pub struct AfdocsCheck {
    pub id: CheckId,
    pub check_sets: Vec<CheckSet>,
}

/// The check sets of a check that relies on the afdocs report. Each of them
/// belongs to the community and docs sets: the authentication check declares
/// these two sets, and the other documentation checks are taken to declare the
/// same, as the afdocs requirement (needed for community or docs, not for code)
/// shows; the parameter is kept so that each check names its own sets.
pub open spec fn afdocs_check_sets(check_id: Seq<char>) -> Seq<CheckSet> {
    seq![CheckSet::Community, CheckSet::Docs]
}

/// Ids of the checks that rely on the afdocs report.
pub open spec fn afdocs_check_ids() -> Seq<Seq<char>> {
    seq![
        "authentication"@,
        "content_discoverability"@,
        "content_structure"@,
        "markdown_availability"@,
        "observability"@,
        "page_size"@,
        "url_stability"@,
    ]
}

fn documentation_check(id: CheckId) -> (res: AfdocsCheck)
    ensures
        res.id == id,
        res.check_sets@ == afdocs_check_sets(id@),
{
    let mut check_sets: Vec<CheckSet> = Vec::new();
    check_sets.push(CheckSet::Community);
    check_sets.push(CheckSet::Docs);
    AfdocsCheck { id, check_sets }
}

/// The checks that rely on the afdocs report.
pub fn afdocs_checks() -> (res: Vec<AfdocsCheck>)
    ensures
        res@.len() == afdocs_check_ids().len(),
        forall|i: int|
            0 <= i < res@.len() ==> (#[trigger] res@[i]).id@ == afdocs_check_ids()[i]
                && res@[i].check_sets@ == afdocs_check_sets(afdocs_check_ids()[i]),
{
    let mut res: Vec<AfdocsCheck> = Vec::new();
    let auth = AfdocsCheck { id: authentication::ID, check_sets: authentication::check_sets() };
    res.push(auth);
    res.push(documentation_check("content_discoverability"));
    res.push(documentation_check("content_structure"));
    res.push(documentation_check("markdown_availability"));
    res.push(documentation_check("observability"));
    res.push(documentation_check("page_size"));
    res.push(documentation_check("url_stability"));
    res
}

/// Whether some of the checks that rely on the afdocs report runs for the
/// check sets `check_sets`: one of them is selected by the sets.
pub open spec fn spec_afdocs_required(check_sets: Seq<CheckSet>) -> bool {
    exists|i: int|
        0 <= i < afdocs_check_ids().len() && !skipped(
            #[trigger] afdocs_check_sets(afdocs_check_ids()[i]),
            check_sets,
        )
}

/// Check if any of the checks that rely on the afdocs report will be run for
/// the check sets provided.
pub fn afdocs_required(check_sets: &[CheckSet]) -> (res: bool)
    ensures
        res == spec_afdocs_required(check_sets@),
        res == (check_sets@.contains(CheckSet::Community) || check_sets@.contains(CheckSet::Docs)),
{
    let checks = afdocs_checks();
    let n = checks.len();
    let mut i: usize = 0;
    while i < n
        invariant
            i <= n,
            n == checks@.len(),
            n == afdocs_check_ids().len(),
            forall|j: int|
                0 <= j < checks@.len() ==> (#[trigger] checks@[j]).check_sets@
                    == afdocs_check_sets(afdocs_check_ids()[j]),
            forall|j: int|
                0 <= j < i ==> skipped(
                    #[trigger] afdocs_check_sets(afdocs_check_ids()[j]),
                    check_sets@,
                ),
        decreases n - i,
    {
        if !should_skip_check(checks[i].check_sets.as_slice(), check_sets) {
            proof {
                let sets = afdocs_check_sets(afdocs_check_ids()[i as int]);
                assert(sets[0] == CheckSet::Community);
                assert(sets[1] == CheckSet::Docs);
            }
            return true;
        }
        i = i + 1;
    }
    proof {
        let sets = afdocs_check_sets(afdocs_check_ids()[0]);
        assert(skipped(sets, check_sets@));
        assert(sets[0] == CheckSet::Community);
        assert(sets[1] == CheckSet::Docs);
    }
    false
}

} // verus!
