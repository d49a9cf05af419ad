use pc_part_grader::control::BenchmarkControl;

#[test]
fn control_prevents_parallel_runs_and_can_cancel() {
    let mut control = BenchmarkControl::default();
    assert!(control.begin().is_ok());
    assert!(control.begin().is_err());
    control.cancel();
    assert!(control.is_cancelled());
    control.finish();
    assert!(control.begin().is_ok());
}

#[test]
fn refused_begin_reports_running_benchmark() {
    let mut control = BenchmarkControl::new();
    control.begin().unwrap();
    assert_eq!(control.begin().unwrap_err(), "A benchmark is already running.");
    assert!(control.running);
}

#[test]
fn begin_clears_earlier_cancel() {
    let mut control = BenchmarkControl::new();
    control.begin().unwrap();
    control.cancel();
    control.finish();
    assert!(control.is_cancelled());
    assert!(control.begin().is_ok());
    assert!(!control.is_cancelled());
    assert!(control.running);
}

#[test]
fn cancel_keeps_running_state() {
    let mut control = BenchmarkControl::new();
    control.cancel();
    assert!(control.is_cancelled());
    assert!(!control.running);
    control.begin().unwrap();
    control.cancel();
    assert!(control.running);
    assert!(control.begin().is_err());
}
