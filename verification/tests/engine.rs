use cubetimer::app::{App, AppEvent, TimerDisplay};
use cubetimer::history::SessionHistory;
use cubetimer::scramble::{get_scramble, Face, Modifier, MoveToken, ScrambleSequence, SCRAMBLE_LEN};
use cubetimer::timer::Timer;

fn first_group(f: Face) -> bool {
    matches!(f, Face::Front | Face::RightFace | Face::Up)
}

#[test]
fn scramble_has_25_tokens() {
    for _ in 0..20 {
        let s = get_scramble();
        assert_eq!(s.len(), SCRAMBLE_LEN);
    }
}

#[test]
fn scramble_never_repeats_axis_group() {
    for _ in 0..50 {
        let s = get_scramble();
        for i in 1..s.len() {
            let prev = s.get(i - 1);
            let cur = s.get(i);
            assert_ne!(
                first_group(prev.face),
                first_group(cur.face),
                "consecutive moves {} and {} share an axis group",
                i - 1,
                i
            );
        }
    }
}

#[test]
fn timer_measures_the_run_exactly() {
    let mut t = Timer::new();
    assert!(t.is_stopped());
    assert_eq!(t.get_elapsed(0), 0);
    t.start(1_000);
    assert!(!t.is_stopped());
    assert_eq!(t.get_elapsed(1_250), 250);
    assert_eq!(t.get_elapsed(2_000), 1_000);
    t.stop(2_500);
    assert!(t.is_stopped());
    assert_eq!(t.get_elapsed(9_999), 1_500);
}

#[test]
fn timer_monotonic_reads_during_a_run() {
    let mut t = Timer::new();
    t.start(100);
    let mut last = 0;
    for now in [100u64, 150, 151, 400, 1_000, 50_000] {
        let e = t.get_elapsed(now);
        assert!(e >= last);
        last = e;
    }
    t.stop(50_000);
    assert!(t.get_elapsed(50_000) >= last);
}

#[test]
fn timer_start_zeroes_prior_accumulation() {
    let mut t = Timer::new();
    t.start(0);
    t.stop(700);
    assert_eq!(t.get_elapsed(700), 700);
    t.start(1_000);
    assert_eq!(t.get_elapsed(1_000), 0);
    assert_eq!(t.get_elapsed(1_300), 300);
}

#[test]
fn timer_start_while_running_is_a_noop() {
    let mut t = Timer::new();
    t.start(100);
    t.start(900);
    assert_eq!(t.get_elapsed(1_100), 1_000);
}

#[test]
fn timer_stop_while_stopped_is_a_noop() {
    let mut t = Timer::new();
    t.start(0);
    t.stop(400);
    t.stop(9_000);
    assert_eq!(t.get_elapsed(9_000), 400);
}

#[test]
fn timer_reset_while_running_is_a_noop() {
    let mut t = Timer::new();
    t.start(100);
    t.reset();
    assert!(!t.is_stopped());
    assert_eq!(t.get_elapsed(600), 500);
}

#[test]
fn timer_reset_after_stop_yields_zero() {
    let mut t = Timer::new();
    t.start(100);
    t.stop(600);
    t.reset();
    assert!(t.is_stopped());
    assert_eq!(t.get_elapsed(10_000), 0);
}

#[test]
fn record_solve_appends_exactly_one_record() {
    let mut h = SessionHistory::new();
    assert_eq!(h.completed.len(), 0);
    let shown = h.current_scramble.duplicate();
    h.record_solve(12_345);
    assert_eq!(h.completed.len(), 1);
    assert_eq!(h.completed[0].duration_ms, 12_345);
    assert!(h.completed[0].scramble.same_as(&shown));
    h.record_solve(500);
    assert_eq!(h.completed.len(), 2);
    assert_eq!(h.completed[0].duration_ms, 12_345);
    assert_eq!(h.completed[1].duration_ms, 500);
}

#[test]
fn average_of_five_trims_one_max_and_one_min() {
    let mut h = SessionHistory::new();
    for d in [10_000u64, 20_000, 30_000, 40_000, 50_000] {
        h.record_solve(d);
    }
    assert_eq!(h.average_of_five(), Some(30_000));
}

#[test]
fn average_of_five_removes_single_occurrences_of_duplicates() {
    let mut h = SessionHistory::new();
    for d in [10_000u64, 10_000, 30_000, 50_000, 50_000] {
        h.record_solve(d);
    }
    // one 10s and one 50s go; (10s + 30s + 50s) / 3 remains
    assert_eq!(h.average_of_five(), Some(30_000));
}

#[test]
fn average_of_five_of_equal_durations_is_that_duration() {
    let mut h = SessionHistory::new();
    for _ in 0..5 {
        h.record_solve(7_000);
    }
    assert_eq!(h.average_of_five(), Some(7_000));
}

#[test]
fn average_of_five_uses_the_most_recent_window() {
    let mut h = SessionHistory::new();
    for d in [600_000u64, 10_000, 20_000, 30_000, 40_000, 50_000] {
        h.record_solve(d);
    }
    assert_eq!(h.average_of_five(), Some(30_000));
}

#[test]
fn average_of_five_truncates() {
    let mut h = SessionHistory::new();
    for d in [1u64, 5, 5, 6, 100] {
        h.record_solve(d);
    }
    // (5 + 5 + 6) / 3 truncates to 5
    assert_eq!(h.average_of_five(), Some(5));
}

#[test]
fn average_of_five_undefined_below_threshold() {
    let mut h = SessionHistory::new();
    assert_eq!(h.average_of_five(), None);
    for d in [10_000u64, 20_000, 30_000, 40_000] {
        h.record_solve(d);
        assert_eq!(h.average_of_five(), None);
    }
    h.record_solve(50_000);
    assert!(h.average_of_five().is_some());
}

#[test]
fn next_then_previous_restores_the_scramble() {
    let mut h = SessionHistory::new();
    let before = h.current_scramble.duplicate();
    h.next_scramble();
    h.previous_scramble();
    assert!(h.current_scramble.same_as(&before));
}

#[test]
fn previous_scramble_with_nothing_pending_is_a_noop() {
    let mut h = SessionHistory::new();
    let before = h.current_scramble.duplicate();
    h.previous_scramble();
    assert!(h.current_scramble.same_as(&before));
    assert_eq!(h.pending_scrambles.len(), 0);
}

#[test]
fn navigation_never_touches_completed_solves() {
    let mut h = SessionHistory::new();
    h.record_solve(1_000);
    h.record_solve(2_000);
    h.next_scramble();
    h.previous_scramble();
    h.previous_scramble();
    assert_eq!(h.completed.len(), 2);
    assert_eq!(h.completed[0].duration_ms, 1_000);
    assert_eq!(h.completed[1].duration_ms, 2_000);
}

#[test]
fn end_to_end_first_solve() {
    let mut app = App::new();
    assert_eq!(app.history.completed.len(), 0);
    let shown = app.history.current_scramble.duplicate();

    let quit = app.handle_event(AppEvent::Space, 5_000);
    assert!(!quit);
    assert!(app.timing);

    let quit = app.handle_event(AppEvent::Space, 13_250);
    assert!(!quit);
    assert!(!app.timing);
    assert_eq!(app.history.completed.len(), 1);
    assert_eq!(app.history.completed[0].duration_ms, 8_250);
    assert!(app.history.completed[0].scramble.same_as(&shown));
    assert!(!app.history.current_scramble.same_as(&shown));
    assert_eq!(app.history.average_of_five(), None);
}

#[test]
fn quit_event_terminates_and_changes_nothing() {
    let mut app = App::new();
    let quit = app.handle_event(AppEvent::Quit, 0);
    assert!(quit);
    assert!(!app.timing);
    assert_eq!(app.history.completed.len(), 0);
}

#[test]
fn help_toggle_and_cancel() {
    let mut app = App::new();
    app.handle_event(AppEvent::ToggleHelp, 0);
    assert!(app.help_shown);
    // cancel closes the help overlay first and leaves the timer alone
    app.handle_event(AppEvent::Space, 100);
    app.handle_event(AppEvent::Cancel, 200);
    assert!(!app.help_shown);
    assert!(app.timing);
    assert_eq!(app.timer.get_elapsed(300), 200);
    // with help hidden, cancel while running is still a no-op reset
    app.handle_event(AppEvent::Cancel, 400);
    assert_eq!(app.timer.get_elapsed(400), 300);
    // once stopped, cancel resets the settled time
    app.handle_event(AppEvent::Space, 500);
    assert_eq!(app.timer.get_elapsed(500), 400);
    app.handle_event(AppEvent::Cancel, 600);
    assert_eq!(app.timer.get_elapsed(600), 0);
}

#[test]
fn snapshot_reflects_the_engine_state() {
    let mut app = App::new();
    app.handle_event(AppEvent::Space, 0);
    app.handle_event(AppEvent::Space, 1_000);
    app.handle_event(AppEvent::Space, 2_000);
    app.handle_event(AppEvent::Space, 4_500);

    let snap = app.snapshot(5_000);
    assert_eq!(snap.timer_display, TimerDisplay::Stopped { elapsed_ms: 2_500 });
    assert_eq!(snap.recent_durations_ms, vec![2_500, 1_000]);
    assert_eq!(snap.average_of_five_ms, None);
    assert!(!snap.help_shown);
    assert!(snap.current_scramble.same_as(&app.history.current_scramble));

    app.handle_event(AppEvent::Space, 6_000);
    let snap = app.snapshot(6_400);
    assert_eq!(snap.timer_display, TimerDisplay::Solving);
}

#[test]
fn ignored_events_change_nothing() {
    let mut app = App::new();
    let shown = app.history.current_scramble.duplicate();
    let quit = app.handle_event(AppEvent::Ignored, 123);
    assert!(!quit);
    assert!(!app.timing);
    assert!(!app.help_shown);
    assert_eq!(app.history.completed.len(), 0);
    assert!(app.history.current_scramble.same_as(&shown));
}

#[test]
fn scramble_navigation_through_the_app() {
    let mut app = App::new();
    let first = app.history.current_scramble.duplicate();
    app.handle_event(AppEvent::NextScramble, 0);
    assert_eq!(app.history.pending_scrambles.len(), 1);
    app.handle_event(AppEvent::PreviousScramble, 0);
    assert!(app.history.current_scramble.same_as(&first));
    assert_eq!(app.history.pending_scrambles.len(), 0);
}

#[test]
fn sequences_compare_token_for_token() {
    let tokens = |faces: &[Face]| {
        faces
            .iter()
            .map(|f| MoveToken { face: *f, modifier: Modifier::Prime })
            .collect::<Vec<_>>()
    };
    let a = ScrambleSequence::from_moves(tokens(&[Face::Front, Face::Down, Face::Up]));
    let b = ScrambleSequence::from_moves(tokens(&[Face::Front, Face::Down, Face::Up]));
    let c = ScrambleSequence::from_moves(tokens(&[Face::Front, Face::Down, Face::Back]));
    let d = ScrambleSequence::from_moves(tokens(&[Face::Front, Face::Down]));
    assert!(a.same_as(&b));
    assert!(!a.same_as(&c));
    assert!(!a.same_as(&d));
    assert!(a.duplicate().same_as(&a));
}
