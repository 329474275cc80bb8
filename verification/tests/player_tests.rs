use autokb::arbiter::AppCore;
use autokb::player::{
    build_plan, effective_wait_ms, has_mouse_moves, single_pass_plan, synth_ops, wait_slices,
    PlanStep, PlaybackState, SynthOp,
};
use autokb::script::{KeyboardKey, MouseButton, Script, ScriptEvent};

fn key_press(c: char, delay_ms: u64) -> ScriptEvent {
    ScriptEvent::KeyPress {
        key: KeyboardKey::Char(c),
        delay_ms,
    }
}

fn two_event_script() -> Script {
    let mut s = Script::default();
    s.add_event(key_press('a', 0));
    s.add_event(ScriptEvent::KeyRelease {
        key: KeyboardKey::Char('a'),
        delay_ms: 50,
    });
    s
}

#[test]
fn test_at_most_one_playback() {
    // A second play while one is active fails with AlreadyPlaying and the
    // original run's counters are unaffected.
    let mut core = AppCore::new();
    let script = two_event_script();
    core.play_script(&script).unwrap();
    assert!(core.is_playing());
    core.player.set_event_index(1);
    core.player.increment_loop();
    let before = core.player;
    let second = core.play_script(&script);
    assert_eq!(second, Err(autokb::Error::AlreadyPlaying));
    assert_eq!(core.player, before);
    assert_eq!(core.player.current_loop, 1);
    assert_eq!(core.player.current_event, 1);
}

#[test]
fn test_play_empty_script_fails() {
    let mut core = AppCore::new();
    let script = Script::default();
    let r = core.play_script(&script);
    assert_eq!(r, Err(autokb::Error::EmptyScript));
    assert!(!core.is_playing());
}

#[test]
fn test_play_after_stop_succeeds() {
    let mut core = AppCore::new();
    let script = two_event_script();
    core.play_script(&script).unwrap();
    core.stop_playback();
    assert!(!core.is_playing());
    assert!(core.play_script(&script).is_ok());
}

#[test]
fn test_play_events_speed_two() {
    // play_events([a down @0, a up @50], speed 2.0): two fires in order,
    // with 0 ms and 25 ms of scheduled wait.
    let mut core = AppCore::new();
    let events = vec![
        key_press('a', 0),
        ScriptEvent::KeyRelease {
            key: KeyboardKey::Char('a'),
            delay_ms: 50,
        },
    ];
    let shell = core.play_events(events, 2000).unwrap();
    assert!(core.is_playing());
    assert_eq!(shell.loop_config.count, 1);
    assert_eq!(shell.loop_config.delay_between_ms, 0);
    let plan = build_plan(&shell);
    assert_eq!(plan.len(), 2);
    match &plan[0] {
        PlanStep::Fire { wait_ms, event } => {
            assert_eq!(*wait_ms, 0);
            assert!(matches!(event, ScriptEvent::KeyPress { .. }));
        }
        _ => panic!("expected a fire step"),
    }
    match &plan[1] {
        PlanStep::Fire { wait_ms, event } => {
            assert_eq!(*wait_ms, 25);
            assert!(matches!(event, ScriptEvent::KeyRelease { .. }));
        }
        _ => panic!("expected a fire step"),
    }
}

#[test]
fn test_play_events_empty_fails() {
    let mut core = AppCore::new();
    let r = core.play_events(Vec::new(), 1000);
    assert!(matches!(r, Err(autokb::Error::EmptyScript)));
}

#[test]
fn test_loop_count_three_passes() {
    // count = 3 fires the full sequence exactly three times, in order,
    // with the configured pause after each pass.
    let mut s = two_event_script();
    s.loop_config.count = 3;
    s.loop_config.delay_between_ms = 40;
    let plan = build_plan(&s);
    // per pass: two fires + one pause
    assert_eq!(plan.len(), 9);
    let mut fired = Vec::new();
    for step in &plan {
        match step {
            PlanStep::Fire { event, .. } => fired.push(event.delay_ms()),
            PlanStep::LoopPause { wait_ms } => assert_eq!(*wait_ms, 40),
        }
    }
    assert_eq!(fired, vec![0, 50, 0, 50, 0, 50]);
}

#[test]
fn test_infinite_loop_stops_after_stop_request() {
    // count = 0 runs pass after pass until a stop is requested; once it
    // is, no further pass begins.
    let mut player = PlaybackState::new();
    player.start();
    let mut passes = 0;
    for _ in 0..5 {
        assert!(player.begin_pass(0));
        passes += 1;
    }
    assert_eq!(passes, 5);
    player.stop();
    assert!(!player.begin_pass(0));
    assert!(!player.begin_pass(0));
}

#[test]
fn test_finite_loop_gate() {
    // count = 1 runs exactly once: the loop counter is bumped before the
    // check, so the second gate refuses.
    let mut player = PlaybackState::new();
    player.start();
    assert!(player.begin_pass(1));
    assert!(!player.begin_pass(1));
}

#[test]
fn test_effective_wait() {
    assert_eq!(effective_wait_ms(100, 2000), 50);
    assert_eq!(effective_wait_ms(100, 1000), 100);
    assert_eq!(effective_wait_ms(100, 500), 200);
    assert_eq!(effective_wait_ms(7, 2000), 3);
    assert_eq!(effective_wait_ms(0, 1000), 0);
    // slowing down a huge delay saturates instead of overflowing
    assert_eq!(effective_wait_ms(u64::MAX, 1), u64::MAX);
}

#[test]
fn test_wait_slices() {
    assert_eq!(wait_slices(250), vec![100, 100, 50]);
    assert_eq!(wait_slices(100), vec![100]);
    assert_eq!(wait_slices(99), vec![99]);
    assert_eq!(wait_slices(0), Vec::<u64>::new());
    let slices = wait_slices(1234);
    assert_eq!(slices.iter().sum::<u64>(), 1234);
    assert!(slices.iter().all(|s| *s > 0 && *s <= 100));
}

#[test]
fn test_synth_ops_key() {
    let ops = synth_ops(&key_press('a', 5), true);
    assert_eq!(ops.len(), 1);
    assert!(matches!(&ops[0], SynthOp::KeyDown { .. }));
}

#[test]
fn test_synth_ops_button_positions() {
    let press = ScriptEvent::MousePress {
        button: MouseButton::Left,
        x: 10,
        y: 20,
        delay_ms: 0,
    };
    // with recorded positions: move first, then press
    let ops = synth_ops(&press, true);
    assert_eq!(ops.len(), 2);
    match (&ops[0], &ops[1]) {
        (SynthOp::MoveTo { x, y }, SynthOp::ButtonDown { button }) => {
            assert_eq!((*x, *y), (10, 20));
            assert_eq!(*button, MouseButton::Left);
        }
        _ => panic!("expected move then press"),
    }
    // at the live cursor: press only
    let ops = synth_ops(&press, false);
    assert_eq!(ops.len(), 1);
    assert!(matches!(&ops[0], SynthOp::ButtonDown { .. }));
}

#[test]
fn test_synth_ops_scroll_negates() {
    let scroll = ScriptEvent::MouseScroll {
        delta_x: -2,
        delta_y: 3,
        delay_ms: 0,
    };
    let ops = synth_ops(&scroll, true);
    assert_eq!(ops.len(), 2);
    match (&ops[0], &ops[1]) {
        (
            SynthOp::Scroll {
                vertical: true,
                amount: a,
            },
            SynthOp::Scroll {
                vertical: false,
                amount: b,
            },
        ) => {
            assert_eq!(*a, -3);
            assert_eq!(*b, 2);
        }
        _ => panic!("expected vertical then horizontal scroll"),
    }
    // zero axes are skipped
    let ops = synth_ops(
        &ScriptEvent::MouseScroll {
            delta_x: 0,
            delta_y: 1,
            delay_ms: 0,
        },
        true,
    );
    assert_eq!(ops.len(), 1);
}

#[test]
fn test_has_mouse_moves() {
    let without = vec![key_press('a', 0)];
    assert!(!has_mouse_moves(&without));
    let with = vec![
        key_press('a', 0),
        ScriptEvent::MouseMove {
            x: 1,
            y: 2,
            delay_ms: 0,
        },
    ];
    assert!(has_mouse_moves(&with));
    assert!(!has_mouse_moves(&Vec::new()));
}

#[test]
fn test_single_pass_plan_matches_events() {
    let s = two_event_script();
    let pass = single_pass_plan(&s.events, 1000);
    assert_eq!(pass.len(), 2);
    match &pass[1] {
        PlanStep::Fire { wait_ms, .. } => assert_eq!(*wait_ms, 50),
        _ => panic!("expected a fire step"),
    }
}

#[test]
fn test_finish_reports_playback_stopped() {
    let mut core = AppCore::new();
    let script = two_event_script();
    core.play_script(&script).unwrap();
    let note = core.on_playback_finish();
    assert!(!core.is_playing());
    assert_eq!(note.action, "playback-stopped");
    assert!(!note.recording);
    assert!(!note.playing);
}
