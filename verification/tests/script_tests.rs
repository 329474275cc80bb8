use autokb::script::{
    delete_event, scale_delays, script_file_stem, str_eq, update_event_delay, KeyboardKey,
    LoopConfig, MouseButton, Script, ScriptEvent,
};

fn key_press(c: char, delay_ms: u64) -> ScriptEvent {
    ScriptEvent::KeyPress {
        key: KeyboardKey::Char(c),
        delay_ms,
    }
}

#[test]
fn test_script_creation() {
    let script = Script::new("Test Script".to_string());
    assert_eq!(script.name, "Test Script");
    assert!(script.events.is_empty());
}

#[test]
fn test_script_new_defaults() {
    let script = Script::new("x".to_string());
    assert_eq!(script.description, "");
    assert_eq!(script.loop_config.count, 1);
    assert_eq!(script.loop_config.delay_between_ms, 0);
    assert_eq!(script.speed_milli, 1000);
    assert_eq!(script.created_at_ms, script.modified_at_ms);
    assert!(script.created_at_ms >= 0);
}

#[test]
fn test_add_and_clear_events() {
    let mut script = Script::default();
    assert_eq!(script.name, "Untitled Script");
    script.add_event(key_press('a', 10));
    script.add_event(key_press('b', 20));
    assert_eq!(script.events.len(), 2);
    script.clear_events();
    assert!(script.events.is_empty());
}

#[test]
fn test_total_duration() {
    let mut script = Script::default();
    script.add_event(key_press('a', 10));
    script.add_event(key_press('b', 25));
    script.add_event(ScriptEvent::MouseMove {
        x: 1,
        y: 2,
        delay_ms: 5,
    });
    assert_eq!(script.total_duration_ms(), 40);
}

#[test]
fn test_total_duration_saturates() {
    let mut script = Script::default();
    script.add_event(key_press('a', u64::MAX));
    script.add_event(key_press('b', 7));
    assert_eq!(script.total_duration_ms(), u64::MAX);
}

#[test]
fn test_delay_get_set() {
    let mut e = ScriptEvent::MouseScroll {
        delta_x: 1,
        delta_y: -2,
        delay_ms: 33,
    };
    assert_eq!(e.delay_ms(), 33);
    e.set_delay_ms(44);
    assert_eq!(e.delay_ms(), 44);
    match e {
        ScriptEvent::MouseScroll {
            delta_x, delta_y, ..
        } => {
            assert_eq!((delta_x, delta_y), (1, -2));
        }
        _ => panic!("variant changed"),
    }
}

#[test]
fn test_update_event_delay() {
    let events = vec![key_press('a', 1), key_press('b', 2)];
    let events = update_event_delay(events, 1, 99);
    assert_eq!(events[0].delay_ms(), 1);
    assert_eq!(events[1].delay_ms(), 99);
    // an out-of-range index leaves the list unchanged
    let events = update_event_delay(events, 5, 7);
    assert_eq!(events.len(), 2);
    assert_eq!(events[1].delay_ms(), 99);
}

#[test]
fn test_delete_event() {
    let events = vec![key_press('a', 1), key_press('b', 2), key_press('c', 3)];
    let events = delete_event(events, 1);
    assert_eq!(events.len(), 2);
    assert_eq!(events[0].delay_ms(), 1);
    assert_eq!(events[1].delay_ms(), 3);
    let events = delete_event(events, 9);
    assert_eq!(events.len(), 2);
}

#[test]
fn test_scale_delays() {
    let events = vec![key_press('a', 100), key_press('b', 7)];
    // double every delay
    let events = scale_delays(events, 2000);
    assert_eq!(events[0].delay_ms(), 200);
    assert_eq!(events[1].delay_ms(), 14);
    // halve (integer division floors)
    let events = scale_delays(events, 500);
    assert_eq!(events[0].delay_ms(), 100);
    assert_eq!(events[1].delay_ms(), 7);
    let events = scale_delays(vec![key_press('x', 3)], 500);
    assert_eq!(events[0].delay_ms(), 1);
}

#[test]
fn test_scale_delays_saturates() {
    let events = scale_delays(vec![key_press('a', u64::MAX)], 2000);
    assert_eq!(events[0].delay_ms(), u64::MAX);
}

#[test]
fn test_key_matches() {
    let a = KeyboardKey::Char('a');
    let b = KeyboardKey::Char('b');
    let f9 = KeyboardKey::Special("F9".to_string());
    let f9b = KeyboardKey::Special("F9".to_string());
    assert!(a.matches(&KeyboardKey::Char('a')));
    assert!(!a.matches(&b));
    assert!(f9.matches(&f9b));
    assert!(!f9.matches(&KeyboardKey::Special("F10".to_string())));
    assert!(!a.matches(&f9));
}

#[test]
fn test_mouse_button_eq() {
    assert_eq!(MouseButton::Left, MouseButton::Left);
    assert_ne!(MouseButton::Left, MouseButton::Right);
}

#[test]
fn test_loop_config_default() {
    let lc = LoopConfig::default();
    assert_eq!(lc.count, 1);
    assert_eq!(lc.delay_between_ms, 0);
}

#[test]
fn test_str_eq() {
    assert!(str_eq("abc", "abc"));
    assert!(!str_eq("abc", "abd"));
    assert!(!str_eq("abc", "ab"));
    assert!(str_eq("", ""));
}

#[test]
fn test_script_file_stem() {
    assert_eq!(script_file_stem("demo.autokb"), Some("demo".to_string()));
    assert_eq!(script_file_stem("demo.json"), None);
    assert_eq!(script_file_stem(".autokb"), None);
    assert_eq!(script_file_stem("a.autokb"), Some("a".to_string()));
    assert_eq!(script_file_stem(""), None);
}
