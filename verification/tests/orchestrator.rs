use std::time::{Duration, Instant};

use cargo_status::display::CheckStatus;
use cargo_status::orchestrator::{
    aggregate_success, completion_event, exit_code, run_sequentially,
};
use cargo_status::display::StatusEvent;
use cargo_status::tools::StatusCheck;

fn ms(n: u64) -> Duration {
    Duration::from_millis(n)
}

#[test]
fn success_needs_every_check_to_succeed() {
    let ok = CheckStatus::Success { warnings: 0, duration: ms(1) };
    assert!(aggregate_success(&vec![]));
    assert!(aggregate_success(&vec![ok.clone(), ok.clone()]));
    assert!(!aggregate_success(&vec![
        ok.clone(),
        CheckStatus::Warning { warnings: 1, duration: ms(1) }
    ]));
    assert!(!aggregate_success(&vec![
        CheckStatus::Error { errors: 1, warnings: 0, duration: ms(1) },
        ok.clone()
    ]));
    assert!(!aggregate_success(&vec![
        ok.clone(),
        CheckStatus::Failed { reason: "x".to_string(), duration: ms(1) }
    ]));
}

#[test]
fn only_final_statuses_count() {
    let ok = CheckStatus::Success { warnings: 0, duration: ms(1) };
    assert!(aggregate_success(&vec![
        ok,
        CheckStatus::Pending,
        CheckStatus::Running { start_time: Instant::now() }
    ]));
}

#[test]
fn one_failing_check_of_three_fails_the_run() {
    let specs = [
        StatusCheck::new("Check", vec!["cargo".to_string(), "check".to_string()]),
        StatusCheck::new("Build", vec!["cargo".to_string(), "build".to_string()]),
        StatusCheck::new("Doc", vec!["cargo".to_string(), "doc".to_string()]),
    ];
    // What came back from the three commands: exit and captured text.
    let outcomes = [(true, "Finished"), (false, "could not compile"), (true, "warning: docs")];
    let statuses: Vec<CheckStatus> = specs
        .iter()
        .zip(outcomes.iter())
        .map(|(spec, (success, output))| spec.classify(*success, output, ms(5)))
        .collect();

    assert!(!aggregate_success(&statuses));
    let broken = statuses
        .iter()
        .filter(|s| matches!(s, CheckStatus::Error { .. } | CheckStatus::Failed { .. }))
        .count();
    assert_eq!(broken, 1);
    let fine = statuses
        .iter()
        .filter(|s| matches!(s, CheckStatus::Success { .. } | CheckStatus::Warning { .. }))
        .count();
    assert_eq!(fine, 2);
    assert_eq!(exit_code(aggregate_success(&statuses)), 1);
}

#[test]
fn sequence_is_forced_for_one_check() {
    assert!(run_sequentially(false, 1));
    assert!(run_sequentially(true, 5));
    assert!(!run_sequentially(false, 5));
    assert!(!run_sequentially(false, 0));
    assert!(!run_sequentially(false, 2));
}

#[test]
fn exit_codes() {
    assert_eq!(exit_code(true), 0);
    assert_eq!(exit_code(false), 1);
}

#[test]
fn completion_event_ends_the_run() {
    assert!(matches!(completion_event(), StatusEvent::AllCompleted));
}
