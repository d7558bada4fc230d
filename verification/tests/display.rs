use std::time::{Duration, Instant};

use cargo_status::display::{
    is_terminal_interactive, CheckStatus, DisplayAction, Glyph, InteractiveDisplay, RowLine,
    StatusEvent, BASE_ROW, SPINNER_FRAMES,
};

fn names(items: &[&str]) -> Vec<String> {
    items.iter().map(|s| s.to_string()).collect()
}

fn started(name: &str) -> StatusEvent {
    StatusEvent::CheckStarted { name: name.to_string() }
}

fn completed(name: &str, status: CheckStatus) -> StatusEvent {
    StatusEvent::CheckCompleted { name: name.to_string(), status }
}

fn success() -> CheckStatus {
    CheckStatus::Success { warnings: 0, duration: Duration::from_millis(10) }
}

fn failed() -> CheckStatus {
    CheckStatus::Failed { reason: "boom".to_string(), duration: Duration::from_millis(3) }
}

fn env(pairs: &[(&str, &str)]) -> Vec<(String, String)> {
    pairs.iter().map(|(k, v)| (k.to_string(), v.to_string())).collect()
}

#[test]
fn rows_are_assigned_in_order() {
    let mut display = InteractiveDisplay::new(true);
    let actions = display.initialize(names(&["a", "b", "c"]), Instant::now());
    assert_eq!(actions.len(), 4);
    assert!(matches!(actions[0], DisplayAction::OpenScreen));
    for (i, name) in ["a", "b", "c"].iter().enumerate() {
        match &actions[i + 1] {
            DisplayAction::DrawRow { row, line: RowLine::Pending { name: n } } => {
                assert_eq!(*row, BASE_ROW + i as u16);
                assert_eq!(n, name);
            }
            other => panic!("unexpected: {:?}", other),
        }
        assert_eq!(display.row_of(name), Some(BASE_ROW + i as u16));
        assert_eq!(display.status_of(name), Some(&CheckStatus::Pending));
    }
    assert_eq!(display.row_of("d"), None);
}

#[test]
fn rows_do_not_move_under_any_order_of_events() {
    let orders: [[&str; 3]; 6] = [
        ["a", "b", "c"],
        ["a", "c", "b"],
        ["b", "a", "c"],
        ["b", "c", "a"],
        ["c", "a", "b"],
        ["c", "b", "a"],
    ];
    for order in orders {
        let mut display = InteractiveDisplay::new(true);
        display.initialize(names(&["a", "b", "c"]), Instant::now());
        for name in order {
            display.handle_event(started(name), Instant::now());
        }
        for name in order.iter().rev() {
            display.handle_event(
                StatusEvent::CheckProgress { name: name.to_string(), message: "m".to_string() },
                Instant::now(),
            );
            display.handle_event(completed(name, success()), Instant::now());
        }
        display.handle_event(StatusEvent::AllCompleted, Instant::now());
        assert_eq!(display.row_of("a"), Some(2));
        assert_eq!(display.row_of("b"), Some(3));
        assert_eq!(display.row_of("c"), Some(4));
    }
}

#[test]
fn a_name_given_twice_has_its_last_row() {
    let mut display = InteractiveDisplay::new(true);
    display.initialize(names(&["a", "b", "a"]), Instant::now());
    assert_eq!(display.row_of("a"), Some(4));
    assert_eq!(display.row_of("b"), Some(3));
}

#[test]
fn status_moves_forward_only() {
    let mut display = InteractiveDisplay::new(true);
    let now = Instant::now();
    display.initialize(names(&["a"]), now);

    let action = display.handle_event(started("a"), now);
    assert!(matches!(
        action,
        DisplayAction::DrawRow { row: 2, line: RowLine::Started { ref name } } if name == "a"
    ));
    assert_eq!(display.status_of("a"), Some(&CheckStatus::Running { start_time: now }));

    // A second start does not restart the check.
    let later = Instant::now() + Duration::from_secs(1);
    assert!(matches!(display.handle_event(started("a"), later), DisplayAction::Nothing));
    assert_eq!(display.status_of("a"), Some(&CheckStatus::Running { start_time: now }));

    let action = display.handle_event(completed("a", failed()), later);
    match action {
        DisplayAction::DrawRow { row, line: RowLine::Finished { name, status } } => {
            assert_eq!(row, 2);
            assert_eq!(name, "a");
            assert_eq!(status, failed());
        }
        other => panic!("unexpected: {:?}", other),
    }
    assert_eq!(display.status_of("a"), Some(&failed()));

    // Nothing brings a finished check back.
    assert!(matches!(display.handle_event(started("a"), later), DisplayAction::Nothing));
    assert!(matches!(
        display.handle_event(completed("a", success()), later),
        DisplayAction::Nothing
    ));
    assert!(matches!(
        display.handle_event(
            completed("a", CheckStatus::Running { start_time: later }),
            later
        ),
        DisplayAction::Nothing
    ));
    assert!(matches!(
        display.handle_event(completed("a", CheckStatus::Pending), later),
        DisplayAction::Nothing
    ));
    assert_eq!(display.status_of("a"), Some(&failed()));
}

#[test]
fn completion_without_final_status_is_ignored() {
    let mut display = InteractiveDisplay::new(true);
    let now = Instant::now();
    display.initialize(names(&["a"]), now);
    display.handle_event(started("a"), now);
    assert!(matches!(
        display.handle_event(completed("a", CheckStatus::Pending), now),
        DisplayAction::Nothing
    ));
    assert_eq!(display.status_of("a"), Some(&CheckStatus::Running { start_time: now }));
}

#[test]
fn events_for_unknown_checks_do_nothing() {
    let mut display = InteractiveDisplay::new(true);
    let now = Instant::now();
    display.initialize(names(&["a"]), now);
    assert!(matches!(display.handle_event(started("x"), now), DisplayAction::Nothing));
    assert!(matches!(display.handle_event(completed("x", success()), now), DisplayAction::Nothing));
    assert!(matches!(
        display.handle_event(
            StatusEvent::CheckProgress { name: "x".to_string(), message: "m".to_string() },
            now
        ),
        DisplayAction::Nothing
    ));
    assert_eq!(display.status_of("a"), Some(&CheckStatus::Pending));
}

#[test]
fn progress_is_drawn_with_the_start_time() {
    let mut display = InteractiveDisplay::new(true);
    let laid_out = Instant::now();
    display.initialize(names(&["a", "b"]), laid_out);
    let begun = laid_out + Duration::from_millis(5);
    display.handle_event(started("b"), begun);
    let action = display.handle_event(
        StatusEvent::CheckProgress { name: "b".to_string(), message: "executing...".to_string() },
        begun + Duration::from_millis(5),
    );
    match action {
        DisplayAction::DrawRow { row, line: RowLine::Progress { name, message, since } } => {
            assert_eq!(row, 3);
            assert_eq!(name, "b");
            assert_eq!(message, "executing...");
            assert_eq!(since, begun);
        }
        other => panic!("unexpected: {:?}", other),
    }
}

#[test]
fn spinner_touches_running_rows_only() {
    let mut display = InteractiveDisplay::new(true);
    let now = Instant::now();
    display.initialize(names(&["a", "b", "c", "d"]), now);
    display.handle_event(started("b"), now);
    display.handle_event(started("c"), now);
    display.handle_event(started("d"), now);
    display.handle_event(completed("c", success()), now);

    let (draws, next) = display.tick(9);
    assert_eq!(next, 0);
    assert_eq!(draws.len(), 2);
    match &draws[0] {
        DisplayAction::DrawRow { row, line: RowLine::Spinning { name, frame, since } } => {
            assert_eq!((*row, name.as_str(), *frame, *since), (3, "b", 9, now));
        }
        other => panic!("unexpected: {:?}", other),
    }
    match &draws[1] {
        DisplayAction::DrawRow { row, line: RowLine::Spinning { name, frame, .. } } => {
            assert_eq!((*row, name.as_str(), *frame), (5, "d", 9));
        }
        other => panic!("unexpected: {:?}", other),
    }
}

#[test]
fn spinner_cycles_through_its_frames() {
    let display = InteractiveDisplay::new(true);
    let mut frame = 0;
    for expected in [1, 2, 3, 4, 5, 6, 7, 8, 9, 0, 1] {
        let (draws, next) = display.tick(frame);
        assert!(draws.is_empty());
        assert_eq!(next, expected);
        frame = next;
    }
    assert_eq!(SPINNER_FRAMES, 10);
}

#[test]
fn screen_closes_two_rows_below_the_last_check() {
    let mut display = InteractiveDisplay::new(true);
    assert!(matches!(
        display.handle_event(StatusEvent::AllCompleted, Instant::now()),
        DisplayAction::CloseScreen { cursor_row: 2 }
    ));
    display.initialize(names(&["a", "b", "c"]), Instant::now());
    assert!(matches!(
        display.handle_event(StatusEvent::AllCompleted, Instant::now()),
        DisplayAction::CloseScreen { cursor_row: 6 }
    ));
}

#[test]
fn fallback_prints_line_by_line() {
    let mut display = InteractiveDisplay::new(false);
    let now = Instant::now();
    let actions = display.initialize(names(&["a", "b"]), now);
    assert_eq!(actions.len(), 1);
    assert!(matches!(
        &actions[0],
        DisplayAction::PrintHeader { names } if names == &vec!["a", "b"]
    ));
    assert_eq!(display.row_of("a"), None);

    assert!(matches!(
        display.handle_event(started("a"), now),
        DisplayAction::PrintStart { ref name } if name == "a"
    ));
    assert!(matches!(
        display.handle_event(
            StatusEvent::CheckProgress { name: "a".to_string(), message: "m".to_string() },
            now
        ),
        DisplayAction::Nothing
    ));
    assert!(matches!(
        display.handle_event(completed("a", success()), now),
        DisplayAction::PrintOutcome { ref status } if *status == success()
    ));
    assert!(matches!(
        display.handle_event(completed("a", CheckStatus::Pending), now),
        DisplayAction::Nothing
    ));
    assert!(matches!(
        display.handle_event(StatusEvent::AllCompleted, now),
        DisplayAction::Stop
    ));
    let (draws, _) = display.tick(0);
    assert!(draws.is_empty());
}

#[test]
fn cursor_is_shown_again_only_on_a_terminal() {
    assert!(InteractiveDisplay::new(true).cleanup());
    assert!(!InteractiveDisplay::new(false).cleanup());
    assert!(InteractiveDisplay::new(true).is_interactive());
}

#[test]
fn status_copies_are_equal() {
    for status in [
        CheckStatus::Pending,
        CheckStatus::Running { start_time: Instant::now() },
        success(),
        CheckStatus::Warning { warnings: 2, duration: Duration::from_millis(1) },
        CheckStatus::Error { errors: 1, warnings: 2, duration: Duration::from_millis(1) },
        failed(),
    ] {
        assert_eq!(status.duplicate(), status);
        assert_eq!(status.clone(), status);
        let terminal = !matches!(status, CheckStatus::Pending | CheckStatus::Running { .. });
        assert_eq!(status.is_final(), terminal);
    }
}

#[test]
fn ci_rules_out_a_terminal() {
    for var in [
        "CI",
        "CONTINUOUS_INTEGRATION",
        "GITHUB_ACTIONS",
        "GITLAB_CI",
        "CIRCLECI",
        "TRAVIS",
        "JENKINS_URL",
        "BUILDKITE",
        "DRONE",
    ] {
        assert!(!is_terminal_interactive(&env(&[("TERM", "xterm"), (var, "")]), true));
    }
}

#[test]
fn terminal_test_decides_next() {
    assert!(is_terminal_interactive(&env(&[]), true));
    assert!(!is_terminal_interactive(&env(&[]), false));
    assert!(!is_terminal_interactive(&env(&[("HOME", "/root"), ("TERM", "dumb")]), false));
}

#[test]
fn terminal_hints_decide_last() {
    assert!(is_terminal_interactive(&env(&[("TERM", "xterm-256color")]), false));
    assert!(is_terminal_interactive(&env(&[("TERM", "rxvt-unicode-256color")]), false));
    assert!(is_terminal_interactive(&env(&[("TERM", "screen")]), false));
    assert!(!is_terminal_interactive(&env(&[("TERM", "screen.linux")]), false));
    assert!(is_terminal_interactive(&env(&[("TERM", "dumb"), ("COLORTERM", "")]), false));
    assert!(is_terminal_interactive(&env(&[("TERM_PROGRAM", "vscode")]), false));
}

#[test]
fn outcome_lines() {
    let took = Duration::from_millis(1500);
    let parts = |status: CheckStatus| status.outcome().map(|o| (o.glyph, o.detail, o.duration));
    assert_eq!(
        parts(CheckStatus::Success { warnings: 0, duration: took }),
        Some((Glyph::Tick, None, took))
    );
    assert_eq!(
        parts(CheckStatus::Success { warnings: 2, duration: took }),
        Some((Glyph::Tick, Some("2 warnings".to_string()), took))
    );
    assert_eq!(
        parts(CheckStatus::Warning { warnings: 1, duration: took }),
        Some((Glyph::Caution, Some("1 warnings".to_string()), took))
    );
    assert_eq!(
        parts(CheckStatus::Error { errors: 3, warnings: 10, duration: took }),
        Some((Glyph::Cross, Some("3 errors, 10 warnings".to_string()), took))
    );
    assert_eq!(
        parts(CheckStatus::Failed { reason: "boom".to_string(), duration: took }),
        Some((Glyph::Cross, Some("boom".to_string()), took))
    );
    assert_eq!(parts(CheckStatus::Pending), None);
    assert_eq!(parts(CheckStatus::Running { start_time: Instant::now() }), None);
}
