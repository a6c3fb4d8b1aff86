use clomonitor_core::afdocs::{get_category, AfdocsCheckResult, AfdocsCheckStatus, AfdocsReport};

fn sample_results() -> Vec<AfdocsCheckResult> {
    vec![
        AfdocsCheckResult {
            id: "llms-txt-exists".to_string(),
            category: "content-discoverability".to_string(),
            status: AfdocsCheckStatus::Warn,
            message: "llms.txt found but only reachable via cross-host redirect".to_string(),
        },
        AfdocsCheckResult {
            id: "llms-txt-directive-html".to_string(),
            category: "content-discoverability".to_string(),
            status: AfdocsCheckStatus::Fail,
            message: "No llms.txt directive found in HTML of any of 1 pages".to_string(),
        },
        AfdocsCheckResult {
            id: "markdown-url-support".to_string(),
            category: "markdown-availability".to_string(),
            status: AfdocsCheckStatus::Pass,
            message: "Markdown URLs supported".to_string(),
        },
    ]
}

#[test]
fn get_category_found() {
    let afdocs = Ok(Some(AfdocsReport {
        results: sample_results(),
    }));

    let results = get_category(&afdocs, "content_discoverability")
        .unwrap()
        .unwrap();
    assert_eq!(results.len(), 2);
    assert!(
        results
            .iter()
            .all(|r| r.category == "content-discoverability")
    );
}

#[test]
fn get_category_not_found() {
    let afdocs = Ok(Some(AfdocsReport {
        results: sample_results(),
    }));

    assert!(get_category(&afdocs, "page_size").unwrap().is_none());
}

#[test]
fn get_category_no_website() {
    let afdocs = Ok(None);

    assert!(
        get_category(&afdocs, "content_discoverability")
            .unwrap()
            .is_none()
    );
}

#[test]
fn get_category_datasource_error() {
    let afdocs = Err(anyhow::Error::msg("something failed"));

    assert!(get_category(&afdocs, "content_discoverability").is_err());
}

#[test]
fn get_category_keeps_report_order() {
    let afdocs = Ok(Some(AfdocsReport {
        results: sample_results(),
    }));

    let results = get_category(&afdocs, "content_discoverability")
        .unwrap()
        .unwrap();
    assert_eq!(results[0].id, "llms-txt-exists");
    assert_eq!(results[1].id, "llms-txt-directive-html");
}

#[test]
fn get_category_passes_error_through() {
    let afdocs: Result<Option<AfdocsReport>, anyhow::Error> =
        Err(anyhow::Error::msg("something failed"));

    let err = get_category(&afdocs, "content_discoverability").unwrap_err();
    assert_eq!(format!("{err:#}"), "something failed");
}

#[test]
fn status_labels() {
    assert_eq!(AfdocsCheckStatus::Pass.to_string(), "PASS");
    assert_eq!(AfdocsCheckStatus::Warn.to_string(), "WARN");
    assert_eq!(AfdocsCheckStatus::Fail.to_string(), "FAIL");
    assert_eq!(AfdocsCheckStatus::Skip.to_string(), "SKIP");
    assert_eq!(AfdocsCheckStatus::Error.to_string(), "ERROR");
    assert_eq!(AfdocsCheckStatus::Other.to_string(), "OTHER");
}
