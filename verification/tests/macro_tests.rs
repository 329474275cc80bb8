use autokb::arbiter::{AppCore, InputEvent, Routing};
use autokb::macro_trigger::{create_macro_binding, parse_trigger};
use autokb::script::{
    KeyboardKey, MacroAction, MacroDefinition, MacroTrigger, MouseButton, ScriptEvent,
};
use autokb::Error;

fn key_press(c: char, delay_ms: u64) -> ScriptEvent {
    ScriptEvent::KeyPress {
        key: KeyboardKey::Char(c),
        delay_ms,
    }
}

fn left_click_macro(id: &str, enabled: bool) -> MacroDefinition {
    MacroDefinition {
        id: id.to_string(),
        name: "demo".to_string(),
        trigger: MacroTrigger::MousePress {
            button: MouseButton::Left,
        },
        action: MacroAction::Inline(vec![key_press('a', 0), key_press('b', 10)]),
        enabled,
    }
}

#[test]
fn test_macro_single_binding() {
    // Two definitions with the same trigger identity: the second replaces
    // the first; the list has one entry, not two.
    let mut core = AppCore::new();
    core.add_macro(left_click_macro("first", true));
    core.add_macro(left_click_macro("second", true));
    let all = core.get_all_macros();
    assert_eq!(all.len(), 1);
    assert_eq!(all[0].id, "second");
}

#[test]
fn test_distinct_triggers_coexist() {
    let mut core = AppCore::new();
    core.add_macro(left_click_macro("m1", true));
    let mut other = left_click_macro("m2", true);
    other.trigger = MacroTrigger::KeyPress {
        key: KeyboardKey::Char('x'),
    };
    core.add_macro(other);
    assert_eq!(core.get_all_macros().len(), 2);
}

#[test]
fn test_macro_fires_while_listening() {
    // A macro bound to MousePress{Left} with an inline two-event action
    // fires on a matching press while listening is active, and not after
    // stop_macro_listener().
    let mut core = AppCore::new();
    core.add_macro(left_click_macro("m", true));
    core.start_macro_listener().unwrap();
    let r = core.handle_event(&InputEvent::ButtonPress(MouseButton::Left), 0);
    match r {
        Routing::MacroFired(MacroAction::Inline(events)) => assert_eq!(events.len(), 2),
        _ => panic!("expected the macro to fire"),
    }
    core.stop_macro_listener();
    let r = core.handle_event(&InputEvent::ButtonPress(MouseButton::Left), 10);
    assert!(matches!(r, Routing::Ignored));
}

#[test]
fn test_macro_does_not_fire_on_other_trigger() {
    let mut core = AppCore::new();
    core.add_macro(left_click_macro("m", true));
    core.start_macro_listener().unwrap();
    let r = core.handle_event(&InputEvent::ButtonPress(MouseButton::Right), 0);
    assert!(matches!(r, Routing::Ignored));
    // releases never trigger macros
    let r = core.handle_event(&InputEvent::ButtonRelease(MouseButton::Left), 1);
    assert!(matches!(r, Routing::Ignored));
}

#[test]
fn test_disabled_macro_does_not_fire() {
    let mut core = AppCore::new();
    core.add_macro(left_click_macro("m", false));
    core.start_macro_listener().unwrap();
    let r = core.handle_event(&InputEvent::ButtonPress(MouseButton::Left), 0);
    assert!(matches!(r, Routing::Ignored));
}

#[test]
fn test_empty_action_does_not_fire() {
    let mut core = AppCore::new();
    let mut m = left_click_macro("m", true);
    m.action = MacroAction::Inline(Vec::new());
    core.add_macro(m);
    core.start_macro_listener().unwrap();
    let r = core.handle_event(&InputEvent::ButtonPress(MouseButton::Left), 0);
    assert!(matches!(r, Routing::Ignored));
    let mut m = left_click_macro("m", true);
    m.action = MacroAction::FileRef(String::new());
    core.add_macro(m);
    let r = core.handle_event(&InputEvent::ButtonPress(MouseButton::Left), 1);
    assert!(matches!(r, Routing::Ignored));
}

#[test]
fn test_toggle_macro() {
    let mut core = AppCore::new();
    core.add_macro(left_click_macro("m", true));
    core.start_macro_listener().unwrap();
    core.toggle_macro("m", false);
    let all = core.get_all_macros();
    assert_eq!(all.len(), 1);
    assert!(!all[0].enabled);
    let r = core.handle_event(&InputEvent::ButtonPress(MouseButton::Left), 0);
    assert!(matches!(r, Routing::Ignored));
    core.toggle_macro("m", true);
    let r = core.handle_event(&InputEvent::ButtonPress(MouseButton::Left), 1);
    assert!(matches!(r, Routing::MacroFired(_)));
    // unknown id: no change
    core.toggle_macro("ghost-id", false);
    assert!(core.get_all_macros()[0].enabled);
}

#[test]
fn test_remove_macro_by_id() {
    let mut core = AppCore::new();
    core.add_macro(left_click_macro("m1", true));
    let mut other = left_click_macro("m2", true);
    other.trigger = MacroTrigger::KeyPress {
        key: KeyboardKey::Char('x'),
    };
    core.add_macro(other);
    core.remove_macro("m1");
    let all = core.get_all_macros();
    assert_eq!(all.len(), 1);
    assert_eq!(all[0].id, "m2");
    core.remove_macro("nope");
    assert_eq!(core.get_all_macros().len(), 1);
}

#[test]
fn test_listening_flag_keeps_bindings() {
    let mut core = AppCore::new();
    core.add_macro(left_click_macro("m", true));
    core.start_macro_listener().unwrap();
    core.stop_macro_listener();
    assert_eq!(core.get_all_macros().len(), 1);
    let state = core.get_app_state();
    assert!(!state.macro_active);
}

#[test]
fn test_create_macro_binding() {
    let trigger = MacroTrigger::KeyPress {
        key: KeyboardKey::Special("F5".to_string()),
    };
    let def = create_macro_binding("run".to_string(), trigger, "/tmp/demo.autokb".to_string());
    assert_eq!(def.name, "run");
    assert!(def.enabled);
    match &def.action {
        MacroAction::FileRef(path) => assert_eq!(path, "/tmp/demo.autokb"),
        _ => panic!("expected a file reference"),
    }
    assert!(def.id.starts_with("macro_"));
    assert!(def.id.len() > "macro_".len());
}

#[test]
fn test_parse_trigger_mouse() {
    let t = parse_trigger("mouse", "left").unwrap();
    match t {
        MacroTrigger::MousePress { button } => assert_eq!(button, MouseButton::Left),
        _ => panic!("expected a mouse trigger"),
    }
    let t = parse_trigger("mouse", "forward").unwrap();
    assert!(matches!(
        t,
        MacroTrigger::MousePress {
            button: MouseButton::Forward
        }
    ));
}

#[test]
fn test_parse_trigger_key() {
    match parse_trigger("key", "q").unwrap() {
        MacroTrigger::KeyPress { key } => assert!(key.matches(&KeyboardKey::Char('q'))),
        _ => panic!("expected a key trigger"),
    }
    match parse_trigger("key", "F9").unwrap() {
        MacroTrigger::KeyPress { key } => {
            assert!(key.matches(&KeyboardKey::Special("F9".to_string())))
        }
        _ => panic!("expected a key trigger"),
    }
}

#[test]
fn test_parse_trigger_errors() {
    assert_eq!(
        parse_trigger("mouse", "pinky").unwrap_err(),
        Error::InvalidMouseButton
    );
    assert_eq!(
        parse_trigger("pedal", "left").unwrap_err(),
        Error::InvalidTriggerType
    );
}

#[test]
fn test_error_messages() {
    assert_eq!(Error::AlreadyRecording.message(), "Already recording");
    assert_eq!(Error::AlreadyPlaying.message(), "Already playing");
    assert_eq!(Error::EmptyScript.message(), "Script has no events");
    assert_eq!(Error::InvalidTriggerType.message(), "Invalid trigger type");
    assert_eq!(Error::InvalidMouseButton.message(), "Invalid mouse button");
}
