use pc_part_grader::benchmarks::catalog::all_workloads;
use pc_part_grader::benchmarks::plan::plan_suites;
use pc_part_grader::benchmarks::runner::{hash_bytes, SampleSchedule, SampleStep};
use pc_part_grader::benchmarks::stats::is_reliable;
use pc_part_grader::benchmarks::{content, everyday, graphics, productivity, storage};
use pc_part_grader::benchmarks::{suite_key, suite_label, suite_weight_percent};
use pc_part_grader::models::BenchmarkProfile;

#[test]
fn catalogue_lists_fifteen_workloads() {
    let all = all_workloads();
    assert_eq!(all.len(), 15);
    assert_eq!(all[0].key, "json_parse");
    assert_eq!(all[0].unit, "MB/s");
    assert_eq!(all[4].weight_percent, 30);
    assert_eq!(all[14].key, "storage_random");
    assert_eq!(all[14].label, "Random storage");
    assert!(all.iter().all(|w| w.higher_is_better));
}

#[test]
fn suite_weights_add_up() {
    let all = all_workloads();
    for k in 0..5 {
        let key = suite_key(k);
        let total: u32 = all.iter().filter(|w| w.suite == key).map(|w| w.weight_percent).sum();
        assert_eq!(total, 100);
    }
    assert_eq!(suite_weight_percent("storage") * 5, 100);
}

#[test]
fn plan_runs_every_workload_once_in_suite_order() {
    let plan = plan_suites(&all_workloads());
    assert_eq!(
        plan,
        vec![
            (0, vec![0, 1, 2, 3]),
            (1, vec![4, 5, 6, 7]),
            (2, vec![8, 9]),
            (3, vec![10, 11, 12]),
            (4, vec![13, 14]),
        ]
    );
}

#[test]
fn plan_skips_empty_suites() {
    let all = all_workloads();
    let some = vec![all[13], all[0], all[14]];
    assert_eq!(plan_suites(&some), vec![(0, vec![1]), (4, vec![0, 2])]);
    assert_eq!(plan_suites(&vec![]), vec![]);
}

#[test]
fn suite_labels() {
    assert_eq!(suite_label("everyday"), "Everyday");
    assert_eq!(suite_label("productivity"), "Productivity");
    assert_eq!(suite_label("content"), "Content Creation");
    assert_eq!(suite_label("graphics"), "Graphics");
    assert_eq!(suite_label("storage"), "Storage");
    assert_eq!(suite_label("other"), "Suite");
}

#[test]
fn scales_per_profile() {
    let s = BenchmarkProfile::Standard;
    let e = BenchmarkProfile::Extended;
    assert_eq!((everyday::scale(&s), everyday::scale(&e)), (1, 3));
    assert_eq!((productivity::scale(&s), productivity::scale(&e)), (1, 3));
    assert_eq!((content::scale(&s), content::scale(&e)), (1, 2));
    assert_eq!((graphics::scale(&s), graphics::scale(&e)), (1, 2));
    assert_eq!((storage::scale(&s), storage::scale(&e)), (1, 4));
}

#[test]
fn hash_is_hex_sha256() {
    assert_eq!(
        hash_bytes(b"abc"),
        "ba7816bf8f01cfea414140de5dae2223b00361a396177a9cb410ff61f20015ad"
    );
    assert_eq!(hash_bytes(&[]).len(), 64);
}

#[test]
fn reliability_labels() {
    assert!(is_reliable("excellent"));
    assert!(is_reliable("good"));
    assert!(is_reliable("moderate"));
    assert!(!is_reliable("poor"));
    assert!(!is_reliable("unavailable"));
}

#[test]
fn generated_inputs() {
    let data = everyday::compression_input(300);
    assert_eq!(data.len(), 300);
    assert_eq!(data[1], 17);
    assert_eq!(data[15], 4);
    assert_eq!(data[251], 0);
    let blobs = productivity::archive_blobs(3, 300);
    assert_eq!(blobs.len(), 3);
    assert_eq!(blobs[2][0], 26);
    assert_eq!(blobs[1][254], 12);
    let pixels = content::source_pixels(300, 2);
    assert_eq!(pixels.len(), 2400);
    assert_eq!(&pixels[4 * (300 + 299)..4 * (300 + 300)], &[43, 1, 44, 255]);
}

#[test]
fn random_offsets_stay_in_file() {
    let size = 48 * 1024 * 1024;
    let block = 4096;
    for i in 0..4000 {
        let offset = storage::random_offset(i, size, block);
        assert_eq!(offset % block, 0);
        assert!(offset + block <= size);
    }
    assert_eq!(storage::random_offset(1, size, block), 7919 * 4096);
    assert_eq!(storage::random_offset(3, 100, 4096), 0);
    assert_eq!(storage::random_fill_byte(254), 255);
    assert_eq!(storage::random_fill_byte(255), 1);
}

fn drive(schedule: &mut SampleSchedule, cancel_at: Option<usize>, fail_at: Option<usize>) -> Vec<SampleStep> {
    let mut steps = Vec::new();
    loop {
        let cancelled = cancel_at.map_or(false, |c| steps.len() >= c);
        let step = schedule.next_step(cancelled);
        steps.push(step);
        match step {
            SampleStep::Measure(n) => schedule.record(fail_at != Some(n)),
            SampleStep::Warmup(_) => {}
            SampleStep::Finish => break,
        }
    }
    steps
}

#[test]
fn schedule_warms_up_then_measures() {
    let p = BenchmarkProfile::Standard;
    let mut s = SampleSchedule::new(p.warmups(), p.samples());
    let steps = drive(&mut s, None, None);
    assert_eq!(
        steps,
        vec![
            SampleStep::Warmup(0),
            SampleStep::Measure(0),
            SampleStep::Measure(1),
            SampleStep::Measure(2),
            SampleStep::Finish
        ]
    );
    assert_eq!(s.measured, 3);
    assert!(s.is_valid(true, false));
    assert!(!s.is_valid(false, false));
    assert!(!s.is_valid(true, true));
}

#[test]
fn schedule_stops_on_cancel_and_failure() {
    let mut s = SampleSchedule::new(2, 7);
    let steps = drive(&mut s, Some(3), None);
    assert_eq!(
        steps,
        vec![
            SampleStep::Warmup(0),
            SampleStep::Warmup(1),
            SampleStep::Measure(0),
            SampleStep::Finish
        ]
    );
    assert_eq!(s.measured, 1);
    let mut f = SampleSchedule::new(1, 3);
    let steps = drive(&mut f, None, Some(1));
    assert_eq!(
        steps,
        vec![SampleStep::Warmup(0), SampleStep::Measure(0), SampleStep::Measure(1), SampleStep::Finish]
    );
    assert_eq!(f.measured, 1);
    let mut c = SampleSchedule::new(1, 3);
    assert_eq!(drive(&mut c, Some(0), None), vec![SampleStep::Finish]);
    assert!(!c.is_valid(true, true));
}

use pc_part_grader::benchmarks::plan::{RunStep, SuiteRun};

fn drive_run(run: &mut SuiteRun, cancel_after: Option<usize>) -> Vec<RunStep> {
    let mut steps = Vec::new();
    loop {
        let cancelled = cancel_after.map_or(false, |c| steps.len() >= c);
        let step = run.next_step(cancelled);
        steps.push(step);
        if step == RunStep::Done {
            break;
        }
    }
    steps
}

#[test]
fn suite_run_visits_every_workload() {
    let mut run = SuiteRun::new(vec![(0, vec![0, 1]), (4, vec![2])]);
    assert_eq!(
        drive_run(&mut run, None),
        vec![
            RunStep::OpenSuite(0),
            RunStep::RunWorkload(0, 0, 0),
            RunStep::RunWorkload(0, 1, 1),
            RunStep::CloseSuite(0),
            RunStep::OpenSuite(4),
            RunStep::RunWorkload(4, 0, 2),
            RunStep::CloseSuite(4),
            RunStep::Done,
        ]
    );
    assert_eq!(run.next_step(false), RunStep::Done);
}

#[test]
fn suite_run_stops_on_cancel_but_keeps_current_suite() {
    let mut run = SuiteRun::new(plan_suites(&all_workloads()));
    assert_eq!(
        drive_run(&mut run, Some(3)),
        vec![
            RunStep::OpenSuite(0),
            RunStep::RunWorkload(0, 0, 0),
            RunStep::RunWorkload(0, 1, 1),
            RunStep::CloseSuite(0),
            RunStep::Done,
        ]
    );
    let mut idle = SuiteRun::new(vec![(1, vec![4])]);
    assert_eq!(drive_run(&mut idle, Some(0)), vec![RunStep::Done]);
}

#[test]
fn failed_measurement_makes_workload_invalid() {
    let mut s = SampleSchedule::new(1, 3);
    assert_eq!(s.next_step(false), SampleStep::Warmup(0));
    assert_eq!(s.next_step(false), SampleStep::Measure(0));
    s.record(true);
    assert_eq!(s.next_step(false), SampleStep::Measure(1));
    s.record(false);
    assert_eq!(s.next_step(false), SampleStep::Finish);
    assert_eq!(s.measured, 1);
    assert!(s.failed);
    assert!(!s.is_valid(true, false));
}

#[test]
fn complete_run_is_valid_only_when_reliable_and_not_cancelled() {
    let mut s = SampleSchedule::new(0, 2);
    assert_eq!(drive(&mut s, None, None), vec![SampleStep::Measure(0), SampleStep::Measure(1), SampleStep::Finish]);
    assert!(!s.failed);
    assert!(s.is_valid(true, false));
    assert!(!s.is_valid(false, false));
    assert!(!s.is_valid(true, true));
}

#[test]
fn storage_space_and_digests() {
    assert!(storage::has_room_for(200, 100));
    assert!(!storage::has_room_for(199, 100));
    assert!(storage::has_room_for(u64::MAX, u64::MAX / 2));
    let mut digest = Vec::new();
    let chunk: Vec<u8> = (0..50).collect();
    storage::keep_digest_prefix(&mut digest, &chunk, 50);
    storage::keep_digest_prefix(&mut digest, &chunk, 40);
    assert_eq!(digest.len(), 64);
    assert_eq!(&digest[50..], &chunk[..14]);
    storage::keep_digest_prefix(&mut digest, &chunk, 50);
    assert_eq!(digest.len(), 64);
    let mut mixed = vec![0u8; 32];
    storage::mix_read_byte(&mut mixed, 33, 0b1010);
    storage::mix_read_byte(&mut mixed, 1, 0b0110);
    assert_eq!(mixed[1], 0b1100);
    assert_eq!(mixed[0], 0);
}
