use clomonitor_core::afdocs::{AfdocsCheckResult, AfdocsCheckStatus, AfdocsReport};
use clomonitor_core::authentication;
use clomonitor_core::check::CheckOutput;
use clomonitor_core::checks::{afdocs_required, should_skip_check, CheckSet};
use clomonitor_core::input::{afdocs_should_run, missing_tool_error, CheckInput};
use clomonitor_core::metadata::Exemption;
use clomonitor_core::run::{finish_check, plan_check, CheckPlan};
use clomonitor_core::scorecard::{ScorecardCheck, ScorecardCheckDocs};

fn result(id: &str, category: &str, status: AfdocsCheckStatus) -> AfdocsCheckResult {
    AfdocsCheckResult {
        id: id.to_string(),
        category: category.to_string(),
        status,
        message: "m".to_string(),
    }
}

fn grade(results: &[AfdocsCheckResult]) -> CheckOutput {
    CheckOutput::from_afdocs_category(Ok(Some(results.iter().collect())))
}

#[test]
fn constructors_set_one_flag() {
    let p = CheckOutput::<()>::passed();
    assert!(p.passed && !p.exempt && !p.failed);
    let n = CheckOutput::<()>::not_passed();
    assert_eq!(n, CheckOutput::default());
    let e = CheckOutput::<()>::exempt();
    assert!(e.exempt && !e.passed && !e.failed);
    let f = CheckOutput::<()>::failed();
    assert!(f.failed && !f.passed && !f.exempt);
}

#[test]
fn setters_change_only_their_field() {
    let out = CheckOutput::<u32>::passed()
        .url(Some("https://u".to_string()))
        .value(Some(7))
        .details(Some("d".to_string()))
        .exemption_reason(Some("e".to_string()))
        .fail_reason(Some("f".to_string()));
    assert_eq!(
        out,
        CheckOutput {
            passed: true,
            url: Some("https://u".to_string()),
            value: Some(7),
            details: Some("d".to_string()),
            exempt: false,
            exemption_reason: Some("e".to_string()),
            failed: false,
            fail_reason: Some("f".to_string()),
        }
    );
    assert_eq!(out.clone().url(None).url, None);
}

#[test]
fn category_passes_when_none_fail() {
    let out = grade(&[
        result("a", "page-size", AfdocsCheckStatus::Warn),
        result("b", "page-size", AfdocsCheckStatus::Other),
        result("c", "page-size", AfdocsCheckStatus::Skip),
    ]);
    assert!(out.passed && !out.exempt && !out.failed);
    let out = grade(&[
        result("a", "page-size", AfdocsCheckStatus::Pass),
        result("b", "page-size", AfdocsCheckStatus::Error),
    ]);
    assert!(!out.passed && !out.exempt && !out.failed);
    let out = grade(&[
        result("a", "page-size", AfdocsCheckStatus::Skip),
        result("b", "page-size", AfdocsCheckStatus::Skip),
    ]);
    assert!(!out.passed && out.exempt && !out.failed);
}

#[test]
fn category_name_capitalises_first_character() {
    let out = grade(&[result("a", "page-size", AfdocsCheckStatus::Pass)]);
    assert!(out.details.unwrap().starts_with("# Page size AFDocs checks\n"));
    let out = grade(&[result("a", "\u{df}tra\u{df}e-x", AfdocsCheckStatus::Pass)]);
    assert!(out.details.unwrap().starts_with("# SStra\u{df}e x AFDocs checks\n"));
    let out = grade(&[result("a", "", AfdocsCheckStatus::Pass)]);
    assert!(out.details.unwrap().starts_with("#  AFDocs checks\n"));
}

#[test]
fn signed_releases_pass_from_one_point() {
    let mut sc = ScorecardCheck {
        name: "Signed-Releases".to_string(),
        reason: "r".to_string(),
        details: None,
        score: 1,
        documentation: ScorecardCheckDocs {
            url: "https://d".to_string(),
        },
    };
    let out = CheckOutput::<()>::from_scorecard_check(Ok(Some(&sc)));
    assert!(out.passed);
    assert_eq!(
        out.details.unwrap(),
        "# Signed-Releases OpenSSF Scorecard check\n\n**Score**: 1 (check passes with score >= 1)\n\n**Reason**: r\n\n**Details**: -\n\n**Please see the [check documentation](https://d) in the ossf/scorecard repository for more details**"
    );
    sc.score = -1;
    let out = CheckOutput::<()>::from_scorecard_check(Ok(Some(&sc)));
    assert!(!out.passed);
    assert!(out.details.unwrap().contains("**Score**: -1 (check"));
}

#[test]
fn scorecard_details_join_lines() {
    let sc = ScorecardCheck {
        name: "Code-Review".to_string(),
        reason: "r".to_string(),
        details: Some(vec!["one".to_string(), "two".to_string(), "three".to_string()]),
        score: 10,
        documentation: ScorecardCheckDocs {
            url: "https://d".to_string(),
        },
    };
    let out = CheckOutput::<()>::from_scorecard_check(Ok(Some(&sc)));
    assert!(out.passed);
    assert!(out
        .details
        .unwrap()
        .contains("**Score**: 10 (check passes with score >= 5)\n\n**Reason**: r\n\n**Details**: \n\n>one\ntwo\nthree\n\n"));
}

#[test]
fn authentication_grades_its_category() {
    let input = CheckInput {
        check_sets: vec![CheckSet::Docs],
        afdocs: Ok(Some(AfdocsReport {
            results: vec![
                result("auth-a", "authentication", AfdocsCheckStatus::Pass),
                result("other", "page-size", AfdocsCheckStatus::Fail),
            ],
        })),
    };
    let out = authentication::check(&input).unwrap();
    assert!(out.passed);
    assert_eq!(
        out.details.unwrap(),
        "# Authentication AFDocs checks\n\n**Result**: passed (a category passes when none of its checks fail)\n\n- **PASS** `auth-a`: m\n\n**Please see the [Agent-Friendly Documentation Spec](https://agentdocsspec.com/spec/) for more details**"
    );
    assert_eq!(authentication::ID, "authentication");
    assert_eq!(authentication::WEIGHT, 1);
    assert_eq!(authentication::check_sets(), vec![CheckSet::Community, CheckSet::Docs]);
}

#[test]
fn authentication_without_website() {
    let input = CheckInput {
        check_sets: vec![CheckSet::Docs],
        afdocs: Ok(None),
    };
    let out = authentication::check(&input).unwrap();
    assert!(out.failed);
}

#[test]
fn authentication_when_afdocs_failed() {
    let input = CheckInput {
        check_sets: vec![CheckSet::Docs],
        afdocs: Err(anyhow::Error::msg("inner").context("error running afdocs command")),
    };
    let out = authentication::check(&input).unwrap();
    assert!(out.failed);
    assert_eq!(
        out.fail_reason.unwrap(),
        "error running afdocs command: inner"
    );
}

#[test]
fn skip_and_exemption_come_before_running() {
    let own = [CheckSet::Community, CheckSet::Docs];
    let exemption = Exemption {
        check: "authentication".to_string(),
        reason: "not applicable".to_string(),
    };
    assert!(should_skip_check(&own, &[CheckSet::Code]));
    assert!(!should_skip_check(&own, &[CheckSet::Code, CheckSet::Docs]));
    assert!(matches!(
        plan_check::<()>(&own, &[CheckSet::Code], Some(exemption.clone())),
        CheckPlan::Skip
    ));
    match plan_check::<()>(&own, &[CheckSet::Docs], Some(exemption)) {
        CheckPlan::Exempt(out) => {
            assert!(out.exempt);
            assert_eq!(out.exemption_reason.unwrap(), "not applicable");
        }
        _ => panic!("expected an exemption"),
    }
    assert!(matches!(
        plan_check::<()>(&own, &[CheckSet::Docs], None),
        CheckPlan::Run
    ));
}

#[test]
fn finish_check_keeps_output_or_fails() {
    let out = finish_check::<()>(Ok(CheckOutput::passed()));
    assert_eq!(out, CheckOutput::passed());
    let out = finish_check::<()>(Err(anyhow::Error::msg("boom").context("outer")));
    assert_eq!(out, CheckOutput::failed().fail_reason(Some("outer: boom".to_string())));
}

#[test]
fn afdocs_runs_only_with_website_and_checks() {
    let url = Some("https://docs".to_string());
    assert!(afdocs_should_run(&url, &[CheckSet::Docs]));
    assert!(!afdocs_should_run(&url, &[CheckSet::Code]));
    assert!(!afdocs_should_run(&Some(String::new()), &[CheckSet::Docs]));
    assert!(!afdocs_should_run(&None, &[CheckSet::Docs]));
}

#[test]
fn afdocs_required_grows_with_check_sets() {
    assert!(afdocs_required(&[CheckSet::Docs]));
    assert!(afdocs_required(&[CheckSet::Docs, CheckSet::Code, CheckSet::CodeLite]));
}

#[test]
fn failure_carries_reason() {
    let out = CheckOutput::<()>::from_failure("why".to_string());
    assert_eq!(out, CheckOutput::failed().fail_reason(Some("why".to_string())));
}

#[test]
fn missing_tools_are_reported_in_order() {
    assert_eq!(
        missing_tool_error(false, false, &[CheckSet::Docs]),
        Some("scorecard not found in PATH (https://github.com/ossf/scorecard#installation)")
    );
    assert_eq!(
        missing_tool_error(true, false, &[CheckSet::Docs]),
        Some("afdocs not found in PATH (https://www.npmjs.com/package/afdocs)")
    );
    assert_eq!(missing_tool_error(true, false, &[CheckSet::Code]), None);
    assert_eq!(missing_tool_error(true, true, &[CheckSet::Docs]), None);
}

#[test]
fn scorecard_failure_reason_is_error_chain() {
    let err = anyhow::Error::msg("inner").context("error running scorecard command");
    let sc: Result<Option<&ScorecardCheck>, &anyhow::Error> = Err(&err);
    assert_eq!(
        CheckOutput::<()>::from_scorecard_check(sc),
        CheckOutput::failed().fail_reason(Some("error running scorecard command: inner".to_string()))
    );
}
