use autokb::arbiter::{AppCore, InputEvent, Routing};
use autokb::script::{KeyboardKey, ScriptEvent};

#[test]
fn test_stop_without_events_returns_empty() {
    // Record nothing: stop_recording returns the empty list and the flag
    // is cleared.
    let mut core = AppCore::new();
    core.start_recording(0).unwrap();
    assert!(core.is_recording());
    let events = core.stop_recording();
    assert!(events.is_empty());
    assert!(!core.is_recording());
}

#[test]
fn test_start_recording_twice_fails() {
    let mut core = AppCore::new();
    core.start_recording(0).unwrap();
    let second = core.start_recording(10);
    assert_eq!(second, Err(autokb::Error::AlreadyRecording));
    assert!(core.is_recording());
}

#[test]
fn test_capture_delays_measure_gaps() {
    // Delays equal the backend-clock gap since the previous commit; the
    // first is measured from start().
    let mut core = AppCore::new();
    core.start_recording(1000).unwrap();
    let r1 = core.handle_event(&InputEvent::KeyPress(KeyboardKey::Char('a')), 1100);
    assert!(matches!(r1, Routing::Captured { committed: true }));
    let r2 = core.handle_event(&InputEvent::KeyRelease(KeyboardKey::Char('a')), 1250);
    assert!(matches!(r2, Routing::Captured { committed: true }));
    let events = core.stop_recording();
    assert_eq!(events.len(), 2);
    assert_eq!(events[0].delay_ms(), 100);
    assert_eq!(events[1].delay_ms(), 150);
    match &events[0] {
        ScriptEvent::KeyPress { key, .. } => assert!(key.matches(&KeyboardKey::Char('a'))),
        _ => panic!("expected a key press"),
    }
    match &events[1] {
        ScriptEvent::KeyRelease { .. } => {}
        _ => panic!("expected a key release"),
    }
}

#[test]
fn test_move_throttle_commits_at_most_one() {
    // Two raw moves less than 20 ms apart commit at most one MouseMove,
    // but the cursor cache follows the latest raw move.
    let mut core = AppCore::new();
    core.start_recording(0).unwrap();
    let r1 = core.handle_event(&InputEvent::PointerMove { x: 10, y: 10 }, 30);
    assert!(matches!(r1, Routing::Captured { committed: true }));
    let r2 = core.handle_event(&InputEvent::PointerMove { x: 12, y: 13 }, 41);
    assert!(matches!(r2, Routing::Captured { committed: false }));
    // A click right after is stamped with the latest raw position.
    let r3 = core.handle_event(
        &InputEvent::ButtonPress(autokb::script::MouseButton::Left),
        45,
    );
    assert!(matches!(r3, Routing::Captured { committed: true }));
    let events = core.stop_recording();
    assert_eq!(events.len(), 2);
    match &events[0] {
        ScriptEvent::MouseMove { x, y, delay_ms } => {
            assert_eq!((*x, *y), (10, 10));
            assert_eq!(*delay_ms, 30);
        }
        _ => panic!("expected a mouse move"),
    }
    match &events[1] {
        ScriptEvent::MousePress { x, y, delay_ms, .. } => {
            assert_eq!((*x, *y), (12, 13));
            assert_eq!(*delay_ms, 15);
        }
        _ => panic!("expected a mouse press"),
    }
}

#[test]
fn test_throttled_move_below_threshold() {
    let mut core = AppCore::new();
    core.start_recording(0).unwrap();
    // 19 ms after start: below the 20 ms throttle, only the cache moves.
    let r = core.handle_event(&InputEvent::PointerMove { x: 5, y: 6 }, 19);
    assert!(matches!(r, Routing::Captured { committed: false }));
    // 20 ms after start: committed.
    let r = core.handle_event(&InputEvent::PointerMove { x: 7, y: 8 }, 20);
    assert!(matches!(r, Routing::Captured { committed: true }));
    let events = core.stop_recording();
    assert_eq!(events.len(), 1);
}

#[test]
fn test_wheel_capture() {
    let mut core = AppCore::new();
    core.start_recording(0).unwrap();
    core.handle_event(
        &InputEvent::Wheel {
            delta_x: 0,
            delta_y: 3,
        },
        40,
    );
    let events = core.stop_recording();
    match &events[0] {
        ScriptEvent::MouseScroll {
            delta_x,
            delta_y,
            delay_ms,
        } => {
            assert_eq!((*delta_x, *delta_y), (0, 3));
            assert_eq!(*delay_ms, 40);
        }
        _ => panic!("expected a scroll"),
    }
}

#[test]
fn test_record_event_direct_restamps_delay() {
    // The delay handed in from a frontend is replaced with the backend
    // clock's elapsed time.
    let mut core = AppCore::new();
    core.start_recording(100).unwrap();
    core.record_event_direct(
        ScriptEvent::KeyPress {
            key: KeyboardKey::Char('z'),
            delay_ms: 9999,
        },
        160,
    );
    let events = core.stop_recording();
    assert_eq!(events.len(), 1);
    assert_eq!(events[0].delay_ms(), 60);
}

#[test]
fn test_record_event_direct_noop_when_idle() {
    let mut core = AppCore::new();
    core.record_event_direct(
        ScriptEvent::KeyPress {
            key: KeyboardKey::Char('z'),
            delay_ms: 1,
        },
        50,
    );
    assert!(core.get_recorded_events().is_empty());
}

#[test]
fn test_events_survive_stop_for_observation() {
    let mut core = AppCore::new();
    core.start_recording(0).unwrap();
    core.handle_event(&InputEvent::KeyPress(KeyboardKey::Char('q')), 10);
    let snapshot = core.stop_recording();
    assert_eq!(snapshot.len(), 1);
    // the log is still observable after stop, as for real-time display
    assert_eq!(core.get_recorded_events().len(), 1);
    // a fresh start clears it
    core.start_recording(500).unwrap();
    assert!(core.get_recorded_events().is_empty());
}
