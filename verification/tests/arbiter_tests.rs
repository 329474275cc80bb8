use autokb::arbiter::{AppCore, InputEvent, Routing};
use autokb::script::{KeyboardKey, MouseButton, Script, ScriptEvent};

fn f9() -> KeyboardKey {
    KeyboardKey::Special("F9".to_string())
}

fn two_event_script() -> Script {
    let mut s = Script::default();
    s.add_event(ScriptEvent::KeyPress {
        key: KeyboardKey::Char('a'),
        delay_ms: 0,
    });
    s.add_event(ScriptEvent::KeyRelease {
        key: KeyboardKey::Char('a'),
        delay_ms: 50,
    });
    s
}

#[test]
fn test_hotkey_suppressed_and_not_recorded() {
    // A configured hotkey is discarded unconditionally; it must never
    // leak into a recording.
    let mut core = AppCore::new();
    core.start_recording(0).unwrap();
    let r = core.handle_event(&InputEvent::KeyPress(f9()), 30);
    assert!(matches!(r, Routing::SuppressedHotkey));
    let r = core.handle_event(&InputEvent::KeyRelease(f9()), 35);
    assert!(matches!(r, Routing::SuppressedHotkey));
    assert!(core.stop_recording().is_empty());
}

#[test]
fn test_hotkey_rebinding() {
    let mut core = AppCore::new();
    core.hotkeys.set_hotkeys(Some(KeyboardKey::Special("F2".to_string())), None, None);
    assert!(core
        .hotkeys
        .get_recording_key()
        .matches(&KeyboardKey::Special("F2".to_string())));
    // the old binding no longer suppresses; the new one does
    core.start_recording(0).unwrap();
    let r = core.handle_event(&InputEvent::KeyPress(f9()), 5);
    assert!(matches!(r, Routing::Captured { .. }));
    let r = core.handle_event(&InputEvent::KeyPress(KeyboardKey::Special("F2".to_string())), 6);
    assert!(matches!(r, Routing::SuppressedHotkey));
    // the other two defaults are untouched
    assert!(core
        .hotkeys
        .get_playback_key()
        .matches(&KeyboardKey::Special("F10".to_string())));
    assert!(core
        .hotkeys
        .get_stop_key()
        .matches(&KeyboardKey::Special("Escape".to_string())));
}

#[test]
fn test_playback_guard_drops_everything() {
    // While playback is active, no event is captured and no macro fires.
    let mut core = AppCore::new();
    core.add_macro(autokb::script::MacroDefinition {
        id: "m".to_string(),
        name: "m".to_string(),
        trigger: autokb::script::MacroTrigger::MousePress {
            button: MouseButton::Left,
        },
        action: autokb::script::MacroAction::Inline(vec![ScriptEvent::MouseMove {
            x: 0,
            y: 0,
            delay_ms: 0,
        }]),
        enabled: true,
    });
    core.start_macro_listener().unwrap();
    let script = two_event_script();
    core.play_script(&script).unwrap();
    let r = core.handle_event(&InputEvent::ButtonPress(MouseButton::Left), 0);
    assert!(matches!(r, Routing::DroppedDuringPlayback));
    let r = core.handle_event(&InputEvent::KeyPress(KeyboardKey::Char('a')), 1);
    assert!(matches!(r, Routing::DroppedDuringPlayback));
}

#[test]
fn test_recording_shadows_macros() {
    // While recording, presses are captured, never dispatched as macros.
    let mut core = AppCore::new();
    core.add_macro(autokb::script::MacroDefinition {
        id: "m".to_string(),
        name: "m".to_string(),
        trigger: autokb::script::MacroTrigger::KeyPress {
            key: KeyboardKey::Char('a'),
        },
        action: autokb::script::MacroAction::Inline(vec![ScriptEvent::MouseMove {
            x: 0,
            y: 0,
            delay_ms: 0,
        }]),
        enabled: true,
    });
    core.start_macro_listener().unwrap();
    core.start_recording(0).unwrap();
    let r = core.handle_event(&InputEvent::KeyPress(KeyboardKey::Char('a')), 5);
    assert!(matches!(r, Routing::Captured { committed: true }));
    assert_eq!(core.stop_recording().len(), 1);
}

#[test]
fn test_idle_events_ignored() {
    let mut core = AppCore::new();
    let r = core.handle_event(&InputEvent::KeyPress(KeyboardKey::Char('a')), 0);
    assert!(matches!(r, Routing::Ignored));
    let r = core.handle_event(&InputEvent::PointerMove { x: 1, y: 2 }, 1);
    assert!(matches!(r, Routing::Ignored));
}

#[test]
fn test_manager_try_start_idempotent() {
    let mut core = AppCore::new();
    assert!(core.manager.try_start());
    assert!(!core.manager.try_start());
    assert!(!core.manager.try_start());
}

#[test]
fn test_on_recording_hotkey_toggles() {
    let mut core = AppCore::new();
    let note = core.on_recording_hotkey(100).unwrap();
    assert_eq!(note.action, "recording-started");
    assert!(note.recording);
    assert!(core.is_recording());
    let note = core.on_recording_hotkey(200).unwrap();
    assert_eq!(note.action, "recording-stopped");
    assert!(!note.recording);
    assert!(!core.is_recording());
}

#[test]
fn test_on_recording_hotkey_blocked_by_playback() {
    let mut core = AppCore::new();
    let script = two_event_script();
    core.play_script(&script).unwrap();
    assert!(core.on_recording_hotkey(0).is_none());
    assert!(!core.is_recording());
}

#[test]
fn test_on_playback_hotkey() {
    let mut core = AppCore::new();
    let note = core.on_playback_hotkey();
    assert_eq!(note.action, "playback-requested");
    assert!(!note.playing);
    let script = two_event_script();
    core.play_script(&script).unwrap();
    let note = core.on_playback_hotkey();
    assert_eq!(note.action, "playback-stopped");
    assert!(!core.is_playing());
}

#[test]
fn test_emergency_stop() {
    let mut core = AppCore::new();
    // idle: nothing to stop, no notification
    assert!(core.on_emergency_stop().is_none());
    core.start_recording(0).unwrap();
    let script = two_event_script();
    core.play_script(&script).unwrap();
    let note = core.on_emergency_stop().unwrap();
    assert_eq!(note.action, "emergency-stop");
    assert!(!core.is_recording());
    assert!(!core.is_playing());
}

#[test]
fn test_get_app_state() {
    let mut core = AppCore::new();
    let s = core.get_app_state();
    assert!(!s.recording && !s.playing && !s.macro_active);
    core.start_recording(0).unwrap();
    core.start_macro_listener().unwrap();
    let s = core.get_app_state();
    assert!(s.recording && !s.playing && s.macro_active);
}
