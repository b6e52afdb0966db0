use mouse_jiggler::activity::{
    jiggle_offsets, sample_or, Action, LoopState, StatusEvent, JIGGLE_RADIUS, POLL_INTERVAL,
};
use mouse_jiggler::tray::menu_state;
use mouse_jiggler::control::{
    JigglerState, StartOutcome, DEFAULT_IDLE_THRESHOLD, DEFAULT_JIGGLE_INTERVAL,
};

fn running(idle_threshold: u64, jiggle_interval: u64) -> JigglerState {
    let mut c = JigglerState::new();
    c.update_settings(idle_threshold, jiggle_interval);
    assert_eq!(c.start_jiggler(), StartOutcome::Started { run: 1 });
    c
}

#[test]
fn new_state_is_stopped_with_defaults() {
    let c = JigglerState::new();
    assert!(!c.is_running());
    assert_eq!(c.get_settings(), (120, 60));
    assert_eq!((DEFAULT_IDLE_THRESHOLD, DEFAULT_JIGGLE_INTERVAL), (120, 60));
}

#[test]
fn second_start_reports_already_running() {
    let mut c = JigglerState::new();
    assert_eq!(c.start_jiggler(), StartOutcome::Started { run: 1 });
    assert_eq!(c.start_jiggler(), StartOutcome::AlreadyRunning);
    assert!(c.is_running());
    assert_eq!(c.current_run(), 1);
    assert_eq!(StartOutcome::Started { run: 1 }.message(), "Jiggler started");
    assert_eq!(StartOutcome::AlreadyRunning.message(), "Already running");
}

#[test]
fn stop_then_start_starts_again() {
    let mut c = JigglerState::new();
    c.start_jiggler();
    assert_eq!(c.stop_jiggler(), "Jiggler stopped");
    assert!(!c.is_running());
    assert_eq!(c.stop_jiggler(), "Jiggler stopped");
    assert!(!c.is_running());
    assert_eq!(c.start_jiggler(), StartOutcome::Started { run: 2 });
}

#[test]
fn get_settings_is_stable_between_updates() {
    let mut c = JigglerState::new();
    c.update_settings(7, 9);
    let first = c.get_settings();
    for _ in 0..10 {
        assert_eq!(c.get_settings(), first);
    }
    c.start_jiggler();
    c.stop_jiggler();
    assert_eq!(c.get_settings(), (7, 9));
}

#[test]
fn update_settings_accepts_zero_and_largest() {
    let mut c = JigglerState::new();
    assert_eq!(c.update_settings(0, u64::MAX), "Settings updated");
    assert_eq!(c.get_settings(), (0, u64::MAX));
    c.update_settings(u64::MAX, 0);
    assert_eq!(c.get_settings(), (u64::MAX, 0));
}

#[test]
fn zero_threshold_jiggles_on_first_iteration() {
    let c = running(0, 60);
    let mut s = LoopState::new(c.current_run(), (100, 200), 0);
    let (events, action) = s.tick_with_offsets(&c, (100, 200), 0, 4, -3);
    assert_eq!(events, vec![StatusEvent::IdleDetected]);
    assert_eq!(action, Action::Move { dx: 4, dy: -3 });
    assert!(s.is_idle());
    let (events, action) = s.moved(&c, (104, 197));
    assert_eq!(events, vec![StatusEvent::Jiggled { dx: 4, dy: -3, idle_seconds: 0 }]);
    assert_eq!(action, Action::Sleep { seconds: 60 });
    assert_eq!(s.last_position(), (104, 197));
}

#[test]
fn idle_detected_not_before_threshold() {
    let c = running(3, 60);
    let mut s = LoopState::new(c.current_run(), (5, 5), 0);
    let (events, action) = s.tick_with_offsets(&c, (5, 5), 0, 1, 1);
    assert!(events.is_empty());
    assert_eq!(action, Action::Sleep { seconds: POLL_INTERVAL });
    let (events, _) = s.tick_with_offsets(&c, (5, 5), 2999, 1, 1);
    assert!(events.is_empty());
    let (events, action) = s.tick_with_offsets(&c, (5, 5), 5000, 1, 1);
    assert_eq!(events, vec![StatusEvent::IdleDetected]);
    assert_eq!(action, Action::Move { dx: 1, dy: 1 });
}

#[test]
fn idle_detected_exactly_at_threshold() {
    let c = running(3, 60);
    let mut s = LoopState::new(c.current_run(), (5, 5), 1000);
    let (events, _) = s.tick_with_offsets(&c, (5, 5), 4000, 0, 0);
    assert_eq!(events, vec![StatusEvent::IdleDetected]);
}

#[test]
fn own_jiggle_is_not_activity() {
    let c = running(0, 1);
    let mut s = LoopState::new(c.current_run(), (0, 0), 0);
    s.tick_with_offsets(&c, (0, 0), 0, 5, 5);
    s.moved(&c, (5, 5));
    let (events, action) = s.tick_with_offsets(&c, (5, 5), 1000, -5, -5);
    assert_eq!(events, Vec::<StatusEvent>::new());
    assert_eq!(action, Action::Move { dx: -5, dy: -5 });
    let (events, _) = s.moved(&c, (0, 0));
    assert_eq!(events, vec![StatusEvent::Jiggled { dx: -5, dy: -5, idle_seconds: 1 }]);
}

#[test]
fn user_movement_while_idle_is_activity() {
    let c = running(10, 60);
    let mut s = LoopState::new(c.current_run(), (0, 0), 0);
    s.tick_with_offsets(&c, (0, 0), 10_000, 1, 0);
    s.moved(&c, (1, 0));
    let (events, action) = s.tick_with_offsets(&c, (50, 60), 70_000, 1, 0);
    assert_eq!(events, vec![StatusEvent::ActivityDetected]);
    assert_eq!(action, Action::Sleep { seconds: 5 });
    assert!(!s.is_idle());
}

#[test]
fn movement_with_zero_threshold_reports_both() {
    let c = running(0, 60);
    let mut s = LoopState::new(c.current_run(), (0, 0), 0);
    s.tick_with_offsets(&c, (0, 0), 0, 2, 2);
    s.moved(&c, (2, 2));
    let (events, _) = s.tick_with_offsets(&c, (9, 9), 60_000, 0, 0);
    assert_eq!(events, vec![StatusEvent::ActivityDetected, StatusEvent::IdleDetected]);
}

#[test]
fn settings_update_takes_effect_next_iteration() {
    let mut c = running(120, 60);
    let mut s = LoopState::new(c.current_run(), (0, 0), 0);
    let (events, action) = s.tick_with_offsets(&c, (0, 0), 30_000, 1, 1);
    assert!(events.is_empty());
    assert_eq!(action, Action::Sleep { seconds: 5 });
    c.update_settings(30, 15);
    let (events, action) = s.tick_with_offsets(&c, (0, 0), 35_000, 1, 1);
    assert_eq!(events, vec![StatusEvent::IdleDetected]);
    assert_eq!(action, Action::Move { dx: 1, dy: 1 });
    c.update_settings(30, 2);
    let (_, action) = s.moved(&c, (1, 1));
    assert_eq!(action, Action::Sleep { seconds: 2 });
}

#[test]
fn stop_emits_one_stopped_event() {
    let mut c = running(0, 60);
    let mut s = LoopState::new(c.current_run(), (0, 0), 0);
    s.tick_with_offsets(&c, (0, 0), 0, 1, 1);
    c.stop_jiggler();
    let (events, _) = s.moved(&c, (1, 1));
    assert_eq!(events.len(), 1);
    let (events, action) = s.tick_with_offsets(&c, (1, 1), 1000, 1, 1);
    assert_eq!(events, vec![StatusEvent::Stopped]);
    assert_eq!(action, Action::Exit);
    assert!(s.is_finished());
    assert!(!c.is_running());
    assert_eq!(c.start_jiggler(), StartOutcome::Started { run: 2 });
    let (events, action) = s.tick_with_offsets(&c, (1, 1), 2000, 1, 1);
    assert!(events.is_empty());
    assert_eq!(action, Action::Exit);
    let (events, action) = s.moved(&c, (1, 1));
    assert!(events.is_empty());
    assert_eq!(action, Action::Exit);
    let fresh = LoopState::new(c.current_run(), (1, 1), 2000);
    assert!(!fresh.is_idle());
    assert!(!fresh.is_finished());
}

#[test]
fn report_without_pending_jiggle_changes_nothing() {
    let c = running(100, 60);
    let mut s = LoopState::new(c.current_run(), (3, 4), 0);
    let (events, action) = s.moved(&c, (9, 9));
    assert!(events.is_empty());
    assert_eq!(action, Action::Sleep { seconds: 0 });
    assert_eq!(s.last_position(), (3, 4));
}

#[test]
fn clock_reading_before_last_activity_counts_as_zero() {
    let c = running(0, 60);
    let mut s = LoopState::new(c.current_run(), (0, 0), 10_000);
    s.tick_with_offsets(&c, (0, 0), 5_000, 0, 0);
    let (events, _) = s.moved(&c, (0, 0));
    assert_eq!(events, vec![StatusEvent::Jiggled { dx: 0, dy: 0, idle_seconds: 0 }]);
}

#[test]
fn jiggle_offsets_stay_in_range() {
    let mut seen = std::collections::BTreeSet::new();
    for _ in 0..2000 {
        let (dx, dy) = jiggle_offsets();
        assert!((-JIGGLE_RADIUS..=JIGGLE_RADIUS).contains(&dx));
        assert!((-5..=5).contains(&dy));
        seen.insert(dx);
        seen.insert(dy);
    }
    assert!(seen.len() > 2);
}

#[test]
fn random_tick_jiggles_within_range() {
    let c = running(0, 60);
    for _ in 0..200 {
        let mut s = LoopState::new(c.current_run(), (0, 0), 0);
        let (_, action) = s.tick(&c, (0, 0), 0);
        match action {
            Action::Move { dx, dy } => {
                assert!((-5..=5).contains(&dx) && (-5..=5).contains(&dy));
            }
            other => panic!("expected a move, got {:?}", other),
        }
    }
}

#[test]
fn failed_read_falls_back_to_previous() {
    assert_eq!(sample_or(Some((3, -4)), (1, 1)), (3, -4));
    assert_eq!(sample_or(None, (1, 1)), (1, 1));
}

#[test]
fn event_messages_and_channels() {
    assert_eq!(StatusEvent::ActivityDetected.message(), "Activity detected - pausing jiggler");
    assert_eq!(StatusEvent::IdleDetected.message(), "Idle detected - starting auto-jiggle");
    assert_eq!(StatusEvent::Stopped.message(), "Jiggler stopped");
    assert_eq!(
        StatusEvent::Jiggled { dx: 3, dy: -2, idle_seconds: 130 }.message(),
        "Jiggled (+3, -2) - idle for 130s"
    );
    assert_eq!(
        StatusEvent::Jiggled { dx: 0, dy: -5, idle_seconds: 0 }.message(),
        "Jiggled (+0, -5) - idle for 0s"
    );
    assert_eq!(
        StatusEvent::Jiggled { dx: i32::MIN, dy: i32::MAX, idle_seconds: u64::MAX }.message(),
        format!("Jiggled ({:+}, {:+}) - idle for {}s", i32::MIN, i32::MAX, u64::MAX)
    );
    assert_eq!(StatusEvent::Jiggled { dx: 1, dy: 1, idle_seconds: 1 }.channel(), "jiggle");
    assert_eq!(StatusEvent::IdleDetected.channel(), "status");
    assert_eq!(StatusEvent::Stopped.channel(), "status");
}

#[test]
fn tray_menu_follows_running_state() {
    let on = menu_state(true);
    assert!(!on.start_enabled && on.stop_enabled);
    assert_eq!(on.status_title, "Status: Running \u{2713}");
    assert_eq!(on.icon, "icon-active.png");
    let off = menu_state(false);
    assert!(off.start_enabled && !off.stop_enabled);
    assert_eq!(off.status_title, "Status: Stopped");
    assert_eq!(off.icon, "icon.png");
}

#[test]
fn stop_then_start_ends_earlier_loop() {
    let mut c = running(120, 60);
    let mut old = LoopState::new(c.current_run(), (0, 0), 0);
    let (events, action) = old.tick_with_offsets(&c, (0, 0), 0, 1, 1);
    assert!(events.is_empty());
    assert_eq!(action, Action::Sleep { seconds: POLL_INTERVAL });
    c.stop_jiggler();
    assert_eq!(c.start_jiggler(), StartOutcome::Started { run: 2 });
    let mut new = LoopState::new(c.current_run(), (0, 0), 5000);
    let (events, action) = old.tick_with_offsets(&c, (0, 0), 5000, 1, 1);
    assert_eq!(events, vec![StatusEvent::Stopped]);
    assert_eq!(action, Action::Exit);
    let (events, action) = old.tick_with_offsets(&c, (0, 0), 10_000, 1, 1);
    assert!(events.is_empty());
    assert_eq!(action, Action::Exit);
    let (events, action) = new.tick_with_offsets(&c, (0, 0), 10_000, 1, 1);
    assert!(events.is_empty());
    assert_eq!(action, Action::Sleep { seconds: POLL_INTERVAL });
    assert!(!new.is_finished());
}
