use pc_part_grader::community::{check_sharing, normalize_settings};
use pc_part_grader::models::CommunitySettings;

fn settings(opt_in: bool, endpoint: Option<&str>, enabled: bool) -> CommunitySettings {
    CommunitySettings { opt_in, endpoint: endpoint.map(|e| e.to_string()), enabled }
}

#[test]
fn sharing_needs_opt_in_and_endpoint() {
    assert!(normalize_settings(settings(true, Some("https://example.test"), false)).enabled);
    assert!(!normalize_settings(settings(false, Some("https://example.test"), true)).enabled);
    assert!(!normalize_settings(settings(true, Some("   "), true)).enabled);
    assert!(!normalize_settings(settings(true, None, true)).enabled);
}

#[test]
fn normalize_keeps_choices() {
    let s = normalize_settings(settings(true, Some(" x "), false));
    assert!(s.opt_in);
    assert_eq!(s.endpoint.as_deref(), Some(" x "));
    assert!(s.enabled);
    let twice = normalize_settings(s.clone());
    assert_eq!(twice.enabled, s.enabled);
}

#[test]
fn upload_check_reports_why() {
    assert_eq!(
        check_sharing(&settings(false, Some("https://example.test"), true)).unwrap_err(),
        "Community sharing is not enabled."
    );
    assert_eq!(
        check_sharing(&settings(true, Some("\t"), true)).unwrap_err(),
        "No community endpoint configured. This release is API-ready only."
    );
    assert_eq!(
        check_sharing(&settings(true, None, false)).unwrap_err(),
        "No community endpoint configured. This release is API-ready only."
    );
    assert!(check_sharing(&settings(true, Some("https://example.test"), false)).is_ok());
}

#[test]
fn upload_check_agrees_with_stored_flag() {
    for s in [
        settings(true, Some("a"), false),
        settings(true, Some(" "), true),
        settings(false, Some("a"), true),
        settings(false, None, false),
    ] {
        let stored = normalize_settings(s.clone());
        assert_eq!(check_sharing(&s).is_ok(), stored.enabled);
    }
}

#[test]
fn blank_endpoints_never_enable_sharing() {
    for endpoint in ["", " ", "\t\n", "\u{3000}", "\u{a0} \u{2009}"] {
        let s = settings(true, Some(endpoint), true);
        assert!(!normalize_settings(s.clone()).enabled);
        assert!(check_sharing(&s).is_err());
    }
    assert!(normalize_settings(settings(true, Some(" \u{2009}x"), false)).enabled);
}
