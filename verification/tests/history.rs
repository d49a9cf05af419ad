use pc_part_grader::history::{newest_first, previous_report, report_path};
use pc_part_grader::scoring::{suite_reliability, WorkloadStatus, SCORING_VERSION};

#[test]
fn report_files_are_named_by_id() {
    assert_eq!(report_path("hist-a"), "hist-a.json");
}

#[test]
fn newest_reports_come_first() {
    assert_eq!(newest_first(&vec![5, 9, 1, 9, 5]), vec![1, 3, 0, 4, 2]);
    assert_eq!(newest_first(&vec![]), Vec::<usize>::new());
}

#[test]
fn previous_report_skips_current() {
    let ids = vec!["hist-b".to_string(), "hist-a".to_string()];
    assert_eq!(previous_report(&ids, "hist-b"), Some(1));
    assert_eq!(previous_report(&ids, "hist-c"), Some(0));
    assert_eq!(previous_report(&vec!["x".to_string()], "x"), None);
}

fn status(valid: bool, reliability: &str) -> WorkloadStatus {
    WorkloadStatus { valid, reliability: reliability.to_string() }
}

#[test]
fn suite_reliability_levels() {
    assert_eq!(suite_reliability(&vec![status(true, "excellent"), status(true, "good")]), "high");
    assert_eq!(suite_reliability(&vec![status(true, "excellent"), status(true, "moderate")]), "moderate");
    assert_eq!(suite_reliability(&vec![status(true, "good"), status(false, "poor")]), "partial");
    assert_eq!(suite_reliability(&vec![status(false, "good"), status(false, "poor")]), "unavailable");
    assert_eq!(suite_reliability(&vec![]), "high");
    assert_eq!(SCORING_VERSION, "2.0.0");
}
