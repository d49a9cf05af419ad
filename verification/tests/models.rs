use pc_part_grader::models::{BenchmarkProfile, CommunitySettings};

#[test]
fn profiles_describe_their_runs() {
    assert_eq!(BenchmarkProfile::Standard.as_str(), "standard");
    assert_eq!(BenchmarkProfile::Extended.as_str(), "extended");
    assert_eq!(BenchmarkProfile::Standard.estimated_seconds(), 240);
    assert_eq!(BenchmarkProfile::Extended.estimated_seconds(), 780);
    assert_eq!(BenchmarkProfile::Standard.warmups(), 1);
    assert_eq!(BenchmarkProfile::Extended.warmups(), 2);
    assert_eq!(BenchmarkProfile::Standard.samples(), 3);
    assert_eq!(BenchmarkProfile::Extended.samples(), 7);
}

#[test]
fn profile_names_parse() {
    assert_eq!(BenchmarkProfile::from_name("extended"), BenchmarkProfile::Extended);
    assert_eq!(BenchmarkProfile::from_name("standard"), BenchmarkProfile::Standard);
    assert_eq!(BenchmarkProfile::from_name("Extended"), BenchmarkProfile::Standard);
    assert_eq!(BenchmarkProfile::from_name(""), BenchmarkProfile::Standard);
}

#[test]
fn community_settings_default_off() {
    let s = CommunitySettings::default();
    assert!(!s.opt_in);
    assert!(s.endpoint.is_none());
    assert!(!s.enabled);
}
