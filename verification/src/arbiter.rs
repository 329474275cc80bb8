//! Input arbiter and application core: the single consumer of the raw
//! input stream, the fixed-priority classification policy that routes each
//! incoming event to at most one of {hotkey suppression, recorder, macro
//! table}, and the command surface over the four state machines.
//!
//! The four state machines are explicitly constructed service objects
//! owned by one [`AppCore`]; the thread that owns the OS hook converts
//! each raw event to an [`InputEvent`] and calls [`AppCore::handle_event`],
//! which never blocks and tells the caller what outside work (if any) to
//! hand to a worker.

use vstd::prelude::*;

use crate::hotkey::{HotkeyEvent, HotkeyState, HotkeyView};
use crate::player::PlaybackState;
use crate::recorder::{spec_commit, spec_elapsed, RecorderView, RecordingState};
use crate::macro_trigger::{spec_add, spec_check, MacroState, MacroTableView};
use crate::script::{
    ActionView, EventView, KeyView, KeyboardKey, LoopConfig, MacroAction, MacroDefinition,
    MacroDefView, MacroTrigger, MouseButton, Script, ScriptEvent, TriggerView,
};
use crate::Error;

verus! {

/// A raw input event, as delivered by the event source, in the library's
/// own vocabulary.
#[derive(Debug)]
pub enum InputEvent {
    KeyPress(KeyboardKey),
    KeyRelease(KeyboardKey),
    ButtonPress(MouseButton),
    ButtonRelease(MouseButton),
    PointerMove { x: i64, y: i64 },
    Wheel { delta_x: i64, delta_y: i64 },
}

/// Mathematical model of an [`InputEvent`].
pub ghost enum InputEventView {
    KeyPress(KeyView),
    KeyRelease(KeyView),
    ButtonPress(MouseButton),
    ButtonRelease(MouseButton),
    PointerMove { x: i64, y: i64 },
    Wheel { delta_x: i64, delta_y: i64 },
}

impl View for InputEvent {
    type V = InputEventView;

    open spec fn view(&self) -> InputEventView {
        match self {
            InputEvent::KeyPress(k) => InputEventView::KeyPress(k@),
            InputEvent::KeyRelease(k) => InputEventView::KeyRelease(k@),
            InputEvent::ButtonPress(b) => InputEventView::ButtonPress(*b),
            InputEvent::ButtonRelease(b) => InputEventView::ButtonRelease(*b),
            InputEvent::PointerMove { x, y } => InputEventView::PointerMove { x: *x, y: *y },
            InputEvent::Wheel { delta_x, delta_y } => InputEventView::Wheel {
                delta_x: *delta_x,
                delta_y: *delta_y,
            },
        }
    }
}

/// The fate of one routed event, and the outside work the caller must hand
/// to a worker, if any.
#[derive(Debug)]
pub enum Routing {
    /// The event is a configured hotkey: discarded, never routed further
    SuppressedHotkey,
    /// Discarded because playback is active (no feedback loops)
    DroppedDuringPlayback,
    /// Routed to the recorder; `committed` tells whether an event was
    /// appended (a throttled pointer move only refreshes the cursor cache)
    Captured { committed: bool },
    /// A macro matched: the caller must run this action on a fresh worker
    MacroFired(MacroAction),
    /// Nothing matched
    Ignored,
}

/// Mathematical model of a [`Routing`].
pub ghost enum RoutingView {
    SuppressedHotkey,
    DroppedDuringPlayback,
    Captured { committed: bool },
    MacroFired(ActionView),
    Ignored,
}

impl View for Routing {
    type V = RoutingView;

    open spec fn view(&self) -> RoutingView {
        match self {
            Routing::SuppressedHotkey => RoutingView::SuppressedHotkey,
            Routing::DroppedDuringPlayback => RoutingView::DroppedDuringPlayback,
            Routing::Captured { committed } => RoutingView::Captured { committed: *committed },
            Routing::MacroFired(a) => RoutingView::MacroFired(a@),
            Routing::Ignored => RoutingView::Ignored,
        }
    }
}

/// The guard that makes event-source initialization idempotent: the first
/// `try_start` wins, later ones only refresh the GUI target.
#[derive(Clone, Copy, Debug, PartialEq, Eq, Structural)]
pub struct InputManager {
    /// Whether the event-source subscription is already running
    pub running: bool,
}

impl InputManager {
    pub fn new() -> (r: InputManager)
        ensures
            r == (InputManager { running: false }),
    {
        InputManager { running: false }
    }

    /// Claim the single event-source subscription: returns true exactly on
    /// the first call, so a second initialization never registers a second
    /// subscription.
    pub fn try_start(&mut self) -> (r: bool)
        ensures
            *final(self) == (InputManager { running: true }),
            r == !old(self).running,
    {
        let was = self.running;
        self.running = true;
        !was
    }
}

impl Default for InputManager {
    fn default() -> (r: InputManager)
        ensures
            r == (InputManager { running: false }),
    {
        InputManager::new()
    }
}

/// Mathematical model of an [`AppCore`].
pub ghost struct AppCoreView {
    pub hotkeys: HotkeyView,
    pub recorder: RecorderView,
    pub player: PlaybackState,
    pub macros: MacroTableView,
    pub manager: InputManager,
}

impl AppCoreView {
    /// Validity: the macro table keeps one binding per trigger.
    pub open spec fn wf(self) -> bool {
        self.macros.wf()
    }
}

/// Whether an event is a press or release of a configured hotkey.
pub open spec fn is_hotkey_event(h: HotkeyView, e: InputEventView) -> bool {
    match e {
        InputEventView::KeyPress(k) => h.is_hotkey(k),
        InputEventView::KeyRelease(k) => h.is_hotkey(k),
        _ => false,
    }
}

/// The macro trigger identity of a press event, if it is one.
pub open spec fn spec_trigger_of(e: InputEventView) -> Option<TriggerView> {
    match e {
        InputEventView::KeyPress(k) => Option::Some(TriggerView::KeyPress { key: k }),
        InputEventView::ButtonPress(b) => Option::Some(TriggerView::MousePress { button: b }),
        _ => Option::None,
    }
}

/// What the recorder does with one routed event at clock reading `now_ms`:
/// key and wheel events are committed with the elapsed delay; button
/// events are committed at the cached cursor position; a pointer move
/// always refreshes the cursor cache but is committed only if at least
/// 20 ms have elapsed since the last commit (the throttle).
pub open spec fn spec_capture(s: RecorderView, e: InputEventView, now_ms: u64) -> (
    RecorderView,
    bool,
) {
    let elapsed = spec_elapsed(s, now_ms);
    match e {
        InputEventView::KeyPress(k) => (
            spec_commit(s, EventView::KeyPress { key: k, delay_ms: elapsed }, now_ms),
            true,
        ),
        InputEventView::KeyRelease(k) => (
            spec_commit(s, EventView::KeyRelease { key: k, delay_ms: elapsed }, now_ms),
            true,
        ),
        InputEventView::ButtonPress(b) => (
            spec_commit(
                s,
                EventView::MousePress {
                    button: b,
                    x: s.mouse_x,
                    y: s.mouse_y,
                    delay_ms: elapsed,
                },
                now_ms,
            ),
            true,
        ),
        InputEventView::ButtonRelease(b) => (
            spec_commit(
                s,
                EventView::MouseRelease {
                    button: b,
                    x: s.mouse_x,
                    y: s.mouse_y,
                    delay_ms: elapsed,
                },
                now_ms,
            ),
            true,
        ),
        InputEventView::PointerMove { x, y } => {
            let moved = RecorderView { mouse_x: x, mouse_y: y, ..s };
            if elapsed >= 20 {
                (spec_commit(moved, EventView::MouseMove { x, y, delay_ms: elapsed }, now_ms), true)
            } else {
                (moved, false)
            }
        },
        InputEventView::Wheel { delta_x, delta_y } => (
            spec_commit(
                s,
                EventView::MouseScroll { delta_x, delta_y, delay_ms: elapsed },
                now_ms,
            ),
            true,
        ),
    }
}

/// The arbiter's fixed-priority classification policy, as one transition:
/// (1) presses and releases of configured hotkeys are suppressed;
/// (2) while playback is active everything else is dropped;
/// (3) while recording, the event goes to the recorder (see
/// [`spec_capture`]);
/// (4) otherwise, if macro listening is active, a press event is checked
/// against the trigger table;
/// (5) anything else is dropped.
pub open spec fn spec_handle_event(s: AppCoreView, e: InputEventView, now_ms: u64) -> (
    AppCoreView,
    RoutingView,
) {
    if is_hotkey_event(s.hotkeys, e) {
        (s, RoutingView::SuppressedHotkey)
    } else if s.player.playing {
        (s, RoutingView::DroppedDuringPlayback)
    } else if s.recorder.recording {
        let (rec, committed) = spec_capture(s.recorder, e, now_ms);
        (AppCoreView { recorder: rec, ..s }, RoutingView::Captured { committed })
    } else if s.macros.active && spec_trigger_of(e) is Some {
        match spec_check(s.macros, spec_trigger_of(e)->Some_0) {
            Option::Some(a) => (s, RoutingView::MacroFired(a)),
            Option::None => (s, RoutingView::Ignored),
        }
    } else {
        (s, RoutingView::Ignored)
    }
}

/// Summary of the core's observable flags.
#[derive(Clone, Copy, Debug, PartialEq, Eq, Structural)]
pub struct AppState {
    pub recording: bool,
    pub playing: bool,
    pub macro_active: bool,
}

/// The application core: the four service objects, dependency-injected
/// rather than process-wide singletons, owned together.
pub struct AppCore {
    pub hotkeys: HotkeyState,
    pub recorder: RecordingState,
    pub player: PlaybackState,
    pub macros: MacroState,
    pub manager: InputManager,
}

impl View for AppCore {
    type V = AppCoreView;

    open spec fn view(&self) -> AppCoreView {
        AppCoreView {
            hotkeys: self.hotkeys@,
            recorder: self.recorder@,
            player: self.player,
            macros: self.macros@,
            manager: self.manager,
        }
    }
}

impl AppCore {
    /// A fresh core: idle recorder and player, empty macro table, default
    /// hotkeys, event source not yet claimed.
    pub fn new() -> (r: AppCore)
        ensures
            r@.recorder.recording == false,
            r@.recorder.events == Seq::<EventView>::empty(),
            r@.player == (PlaybackState {
                playing: false,
                current_loop: 0u32,
                current_event: 0usize,
                stop_requested: false,
            }),
            r@.macros.active == false,
            r@.macros.bindings == Seq::<MacroDefView>::empty(),
            r@.manager == (InputManager { running: false }),
            r@.hotkeys.recording_key == KeyView::Special("F9"@),
            r@.hotkeys.playback_key == KeyView::Special("F10"@),
            r@.hotkeys.stop_key == KeyView::Special("Escape"@),
            r@.wf(),
    {
        AppCore {
            hotkeys: HotkeyState::new(),
            recorder: RecordingState::new(),
            player: PlaybackState::new(),
            macros: MacroState::new(),
            manager: InputManager::new(),
        }
    }

    /// Route one raw input event (see [`spec_handle_event`]). `now_ms` is
    /// the backend clock reading for delay bookkeeping.
    pub fn handle_event(&mut self, event: &InputEvent, now_ms: u64) -> (r: Routing)
        requires
            old(self)@.wf(),
        ensures
            (final(self)@, r@) == spec_handle_event(old(self)@, event@, now_ms),
            final(self)@.wf(),
    {
        // 1. Hotkey suppression: the host's global-shortcut layer owns the
        // semantic action; the raw hook must not double-process these keys
        // nor let them leak into a recording.
        match event {
            InputEvent::KeyPress(key) | InputEvent::KeyRelease(key) => {
                if self.hotkeys.is_hotkey(key) {
                    return Routing::SuppressedHotkey;
                }
            },
            _ => {},
        }

        // 2. Playback guard: never capture or re-trigger on synthesized
        // input.
        if self.player.is_playing() {
            return Routing::DroppedDuringPlayback;
        }

        // 3. Recording capture.
        if self.recorder.is_recording() {
            let elapsed = self.recorder.get_elapsed_ms(now_ms);
            match event {
                InputEvent::KeyPress(key) => {
                    self.recorder.commit_event(
                        ScriptEvent::KeyPress { key: key.clone(), delay_ms: elapsed },
                        now_ms,
                    );
                    return Routing::Captured { committed: true };
                },
                InputEvent::KeyRelease(key) => {
                    self.recorder.commit_event(
                        ScriptEvent::KeyRelease { key: key.clone(), delay_ms: elapsed },
                        now_ms,
                    );
                    return Routing::Captured { committed: true };
                },
                InputEvent::ButtonPress(button) => {
                    let (x, y) = self.recorder.get_mouse_position();
                    self.recorder.commit_event(
                        ScriptEvent::MousePress { button: *button, x, y, delay_ms: elapsed },
                        now_ms,
                    );
                    return Routing::Captured { committed: true };
                },
                InputEvent::ButtonRelease(button) => {
                    let (x, y) = self.recorder.get_mouse_position();
                    self.recorder.commit_event(
                        ScriptEvent::MouseRelease { button: *button, x, y, delay_ms: elapsed },
                        now_ms,
                    );
                    return Routing::Captured { committed: true };
                },
                InputEvent::PointerMove { x, y } => {
                    self.recorder.update_mouse_position(*x, *y);
                    if elapsed >= 20 {
                        self.recorder.commit_event(
                            ScriptEvent::MouseMove { x: *x, y: *y, delay_ms: elapsed },
                            now_ms,
                        );
                        return Routing::Captured { committed: true };
                    }
                    return Routing::Captured { committed: false };
                },
                InputEvent::Wheel { delta_x, delta_y } => {
                    self.recorder.commit_event(
                        ScriptEvent::MouseScroll {
                            delta_x: *delta_x,
                            delta_y: *delta_y,
                            delay_ms: elapsed,
                        },
                        now_ms,
                    );
                    return Routing::Captured { committed: true };
                },
            }
        }

        // 4. Macro dispatch, on press events only.
        if self.macros.is_active() {
            let trigger: Option<MacroTrigger> = match event {
                InputEvent::KeyPress(key) => Some(
                    MacroTrigger::KeyPress { key: key.clone() },
                ),
                InputEvent::ButtonPress(button) => Some(
                    MacroTrigger::MousePress { button: *button },
                ),
                _ => None,
            };
            if let Some(trigger) = trigger {
                return match self.macros.check_and_execute(&trigger) {
                    Some(action) => Routing::MacroFired(action),
                    None => Routing::Ignored,
                };
            }
        }

        // 5. Everything else is dropped.
        Routing::Ignored
    }

    /// Start recording at clock reading `now_ms`; fails without side
    /// effects if a session is already active.
    pub fn start_recording(&mut self, now_ms: u64) -> (r: Result<(), Error>)
        ensures
            old(self)@.recorder.recording ==> r == Result::<(), Error>::Err(
                Error::AlreadyRecording,
            ) && final(self)@ == old(self)@,
            !old(self)@.recorder.recording ==> r == Result::<(), Error>::Ok(()) && final(self)@
                == (AppCoreView {
                recorder: RecorderView {
                    recording: true,
                    events: Seq::<EventView>::empty(),
                    clock_armed: true,
                    last_event_ms: now_ms,
                    mouse_x: old(self)@.recorder.mouse_x,
                    mouse_y: old(self)@.recorder.mouse_y,
                },
                ..old(self)@
            }),
    {
        if self.recorder.is_recording() {
            return Err(Error::AlreadyRecording);
        }
        self.recorder.start(now_ms);
        Ok(())
    }

    /// Stop recording and return a snapshot of the accumulated events;
    /// recording nothing yields the empty list.
    pub fn stop_recording(&mut self) -> (r: Vec<ScriptEvent>)
        ensures
            final(self)@ == (AppCoreView {
                recorder: RecorderView { recording: false, ..old(self)@.recorder },
                ..old(self)@
            }),
            r.deep_view() == old(self)@.recorder.events,
    {
        self.recorder.stop();
        self.recorder.get_events()
    }

    /// Whether recording is active.
    pub fn is_recording(&self) -> (r: bool)
        ensures
            r == self@.recorder.recording,
    {
        self.recorder.is_recording()
    }

    /// The events recorded so far, for real-time display.
    pub fn get_recorded_events(&self) -> (r: Vec<ScriptEvent>)
        ensures
            r.deep_view() == self@.recorder.events,
    {
        self.recorder.get_events()
    }

    /// Record an event from a trusted in-app source: its delay is
    /// re-stamped from the backend clock, so timing is always
    /// backend-authoritative regardless of origin. A no-op while not
    /// recording.
    pub fn record_event_direct(&mut self, event: ScriptEvent, now_ms: u64)
        ensures
            old(self)@.recorder.recording ==> final(self)@ == (AppCoreView {
                recorder: spec_commit(
                    old(self)@.recorder,
                    event@.with_delay(spec_elapsed(old(self)@.recorder, now_ms)),
                    now_ms,
                ),
                ..old(self)@
            }),
            !old(self)@.recorder.recording ==> final(self)@ == old(self)@,
    {
        if self.recorder.is_recording() {
            let elapsed = self.recorder.get_elapsed_ms(now_ms);
            let mut stamped = event;
            stamped.set_delay_ms(elapsed);
            self.recorder.commit_event(stamped, now_ms);
        }
    }

    /// Begin a playback run: fails without side effects while one is
    /// active or if the script has no events; otherwise marks playback
    /// active with fresh counters and returns at once. Executing the
    /// script's plan is the caller's worker's task.
    pub fn play_script(&mut self, script: &Script) -> (r: Result<(), Error>)
        ensures
            old(self)@.player.playing ==> r == Result::<(), Error>::Err(Error::AlreadyPlaying)
                && final(self)@ == old(self)@,
            !old(self)@.player.playing && script@.events.len() == 0 ==> r == Result::<(),
                Error,
            >::Err(Error::EmptyScript) && final(self)@ == old(self)@,
            !old(self)@.player.playing && script@.events.len() > 0 ==> r == Result::<(),
                Error,
            >::Ok(()) && final(self)@ == (AppCoreView {
                player: PlaybackState {
                    playing: true,
                    current_loop: 0u32,
                    current_event: 0usize,
                    stop_requested: false,
                },
                ..old(self)@
            }),
    {
        if self.player.is_playing() {
            return Err(Error::AlreadyPlaying);
        }
        if self.events_empty(script) {
            return Err(Error::EmptyScript);
        }
        self.player.start();
        Ok(())
    }

    /// Whether a script's event list is empty.
    fn events_empty(&self, script: &Script) -> (r: bool)
        ensures
            r == (script@.events.len() == 0),
    {
        script.events.len() == 0
    }

    /// Sugar over [`AppCore::play_script`]: wrap an event list in a
    /// default script shell (one pass, no inter-loop delay) and begin its
    /// run; on success the shell is handed back for the caller's worker.
    pub fn play_events(&mut self, events: Vec<ScriptEvent>, speed_milli: u32) -> (r: Result<
        Script,
        Error,
    >)
        requires
            speed_milli > 0,
        ensures
            old(self)@.player.playing ==> r is Err && r->Err_0 == Error::AlreadyPlaying
                && final(self)@ == old(self)@,
            !old(self)@.player.playing && events.deep_view().len() == 0 ==> r is Err && r->Err_0
                == Error::EmptyScript && final(self)@ == old(self)@,
            !old(self)@.player.playing && events.deep_view().len() > 0 ==> r is Ok && (
            r->Ok_0)@.events == events.deep_view() && (r->Ok_0)@.speed_milli == speed_milli && (
            r->Ok_0)@.loop_config == (LoopConfig { count: 1, delay_between_ms: 0 }) && (
            r->Ok_0)@.wf() && final(self)@ == (AppCoreView {
                player: PlaybackState {
                    playing: true,
                    current_loop: 0u32,
                    current_event: 0usize,
                    stop_requested: false,
                },
                ..old(self)@
            }),
    {
        let mut script = Script::default();
        script.events = events;
        script.speed_milli = speed_milli;
        match self.play_script(&script) {
            Ok(()) => Ok(script),
            Err(e) => Err(e),
        }
    }

    /// Request a cooperative stop of the active run; idempotent.
    pub fn stop_playback(&mut self)
        ensures
            final(self)@ == (AppCoreView {
                player: PlaybackState {
                    playing: false,
                    stop_requested: true,
                    ..old(self)@.player
                },
                ..old(self)@
            }),
    {
        self.player.stop();
    }

    /// Whether a playback run is active.
    pub fn is_playing(&self) -> (r: bool)
        ensures
            r == self@.player.playing,
    {
        self.player.is_playing()
    }

    /// The single convergence point of every playback run: clear the
    /// active flag and produce the notification the GUI layer expects,
    /// whatever ended the run.
    pub fn on_playback_finish(&mut self) -> (r: HotkeyEvent)
        ensures
            final(self)@ == (AppCoreView {
                player: PlaybackState { playing: false, ..old(self)@.player },
                ..old(self)@
            }),
            r@.action == "playback-stopped"@,
            r@.recording == false,
            r@.playing == false,
    {
        self.player.finish()
    }

    /// Add or replace a macro binding (last writer per trigger wins).
    pub fn add_macro(&mut self, macro_def: MacroDefinition)
        requires
            old(self)@.wf(),
        ensures
            final(self)@ == (AppCoreView {
                macros: MacroTableView {
                    active: old(self)@.macros.active,
                    bindings: spec_add(old(self)@.macros.bindings, macro_def@),
                },
                ..old(self)@
            }),
            final(self)@.wf(),
    {
        self.macros.add_macro(macro_def);
    }

    /// Remove every macro with the given definition id.
    pub fn remove_macro(&mut self, id: &str)
        requires
            old(self)@.wf(),
        ensures
            final(self)@ == (AppCoreView {
                macros: MacroTableView {
                    active: old(self)@.macros.active,
                    bindings: old(self)@.macros.bindings.filter(
                        |d: MacroDefView| d.id != id@,
                    ),
                },
                ..old(self)@
            }),
            final(self)@.wf(),
    {
        self.macros.remove_macro(id);
    }

    /// All registered macros, in insertion order.
    pub fn get_all_macros(&self) -> (r: Vec<MacroDefinition>)
        ensures
            r.deep_view() == self@.macros.bindings,
    {
        self.macros.get_all_macros()
    }

    /// Flip the enabled flag of the first macro with the given id; a no-op
    /// if no macro has that id.
    pub fn toggle_macro(&mut self, id: &str, enabled: bool)
        requires
            old(self)@.wf(),
        ensures
            final(self)@.wf(),
            final(self)@.macros.active == old(self)@.macros.active,
            final(self)@.hotkeys == old(self)@.hotkeys,
            final(self)@.recorder == old(self)@.recorder,
            final(self)@.player == old(self)@.player,
            final(self)@.manager == old(self)@.manager,
            (forall|i: int|
                0 <= i < old(self)@.macros.bindings.len() ==> (
                #[trigger] old(self)@.macros.bindings[i].id) != id@) ==> final(self)@ == old(
                self,
            )@,
            forall|i: int|
                (0 <= i < old(self)@.macros.bindings.len() && (
                #[trigger] old(self)@.macros.bindings[i].id) == id@ && (forall|j: int|
                    0 <= j < i ==> (#[trigger] old(self)@.macros.bindings[j].id) != id@))
                    ==> final(self)@.macros.bindings == old(self)@.macros.bindings.update(
                    i,
                    MacroDefView { enabled, ..old(self)@.macros.bindings[i] },
                ),
    {
        self.macros.toggle_macro(id, enabled);
    }

    /// Begin macro listening; the bindings are kept as they are.
    pub fn start_macro_listener(&mut self) -> (r: Result<(), Error>)
        ensures
            r == Result::<(), Error>::Ok(()),
            final(self)@ == (AppCoreView {
                macros: MacroTableView { active: true, bindings: old(self)@.macros.bindings },
                ..old(self)@
            }),
    {
        self.macros.set_active(true);
        Ok(())
    }

    /// Stop macro listening; the bindings are kept as they are.
    pub fn stop_macro_listener(&mut self)
        ensures
            final(self)@ == (AppCoreView {
                macros: MacroTableView { active: false, bindings: old(self)@.macros.bindings },
                ..old(self)@
            }),
    {
        self.macros.set_active(false);
    }

    /// Snapshot of the observable flags, without touching any state.
    pub fn get_app_state(&self) -> (r: AppState)
        ensures
            r == (AppState {
                recording: self@.recorder.recording,
                playing: self@.player.playing,
                macro_active: self@.macros.active,
            }),
    {
        AppState {
            recording: self.recorder.is_recording(),
            playing: self.player.is_playing(),
            macro_active: self.macros.is_active(),
        }
    }

    /// The semantic action of the recording hotkey, as the host's
    /// global-shortcut layer must perform it: toggle recording, unless
    /// playback is active, and report the notification to emit.
    pub fn on_recording_hotkey(&mut self, now_ms: u64) -> (r: Option<HotkeyEvent>)
        ensures
            old(self)@.recorder.recording ==> final(self)@ == (AppCoreView {
                recorder: RecorderView { recording: false, ..old(self)@.recorder },
                ..old(self)@
            }) && r is Some && (r->0)@.action == "recording-stopped"@ && (r->0)@.recording
                == false && (r->0)@.playing == old(self)@.player.playing,
            !old(self)@.recorder.recording && !old(self)@.player.playing ==> final(self)@ == (
            AppCoreView {
                recorder: RecorderView {
                    recording: true,
                    events: Seq::<EventView>::empty(),
                    clock_armed: true,
                    last_event_ms: now_ms,
                    mouse_x: old(self)@.recorder.mouse_x,
                    mouse_y: old(self)@.recorder.mouse_y,
                },
                ..old(self)@
            }) && r is Some && (r->0)@.action == "recording-started"@ && (r->0)@.recording
                == true && (r->0)@.playing == false,
            !old(self)@.recorder.recording && old(self)@.player.playing ==> final(self)@ == old(
                self,
            )@ && r is None,
    {
        if self.recorder.is_recording() {
            self.recorder.stop();
            Some(
                HotkeyEvent {
                    action: "recording-stopped".to_owned(),
                    recording: false,
                    playing: self.player.is_playing(),
                },
            )
        } else if !self.player.is_playing() {
            self.recorder.start(now_ms);
            Some(
                HotkeyEvent {
                    action: "recording-started".to_owned(),
                    recording: true,
                    playing: false,
                },
            )
        } else {
            None
        }
    }

    /// The semantic action of the playback hotkey: stop an active run, or
    /// ask the command surface to start one (the script lives there).
    pub fn on_playback_hotkey(&mut self) -> (r: HotkeyEvent)
        ensures
            old(self)@.player.playing ==> final(self)@ == (AppCoreView {
                player: PlaybackState {
                    playing: false,
                    stop_requested: true,
                    ..old(self)@.player
                },
                ..old(self)@
            }) && r@.action == "playback-stopped"@,
            !old(self)@.player.playing ==> final(self)@ == old(self)@ && r@.action
                == "playback-requested"@,
            r@.recording == old(self)@.recorder.recording,
            r@.playing == false,
    {
        let recording = self.recorder.is_recording();
        if self.player.is_playing() {
            self.player.stop();
            HotkeyEvent { action: "playback-stopped".to_owned(), recording, playing: false }
        } else {
            HotkeyEvent { action: "playback-requested".to_owned(), recording, playing: false }
        }
    }

    /// The semantic action of the emergency-stop hotkey: end whatever is
    /// running; the notification is emitted only if anything was.
    pub fn on_emergency_stop(&mut self) -> (r: Option<HotkeyEvent>)
        ensures
            final(self)@ == (AppCoreView {
                recorder: RecorderView { recording: false, ..old(self)@.recorder },
                player: PlaybackState {
                    playing: false,
                    stop_requested: old(self)@.player.stop_requested
                        || old(self)@.player.playing,
                    ..old(self)@.player
                },
                ..old(self)@
            }),
            (old(self)@.recorder.recording || old(self)@.player.playing) <==> r is Some,
            r is Some ==> (r->0)@.action == "emergency-stop"@ && (r->0)@.recording == false && (
            r->0)@.playing == false,
    {
        let was_recording = self.recorder.is_recording();
        let was_playing = self.player.is_playing();
        if was_recording {
            self.recorder.stop();
        }
        if was_playing {
            self.player.stop();
        }
        if was_recording || was_playing {
            Some(
                HotkeyEvent {
                    action: "emergency-stop".to_owned(),
                    recording: false,
                    playing: false,
                },
            )
        } else {
            None
        }
    }
}

/// During one recording session, each committed event's delay is the
/// backend-clock gap since the previous commit; the first event's delay is
/// measured from the start of the session, because starting a session sets
/// the delay clock to the start instant. Here: two key presses routed at
/// readings `t1` and then `t2` are committed with delays `t1 - last` and
/// `t2 - t1`.
pub proof fn lemma_capture_delays_measure_gaps(
    s: AppCoreView,
    k1: KeyView,
    k2: KeyView,
    t1: u64,
    t2: u64,
)
    requires
        s.recorder.recording,
        s.recorder.clock_armed,
        s.recorder.last_event_ms <= t1 <= t2,
        !s.hotkeys.is_hotkey(k1),
        !s.hotkeys.is_hotkey(k2),
        !s.player.playing,
    ensures
        ({
            let (s1, _r1) = spec_handle_event(s, InputEventView::KeyPress(k1), t1);
            let (s2, _r2) = spec_handle_event(s1, InputEventView::KeyPress(k2), t2);
            s2.recorder.events == s.recorder.events.push(
                EventView::KeyPress {
                    key: k1,
                    delay_ms: (t1 - s.recorder.last_event_ms) as u64,
                },
            ).push(EventView::KeyPress { key: k2, delay_ms: (t2 - t1) as u64 })
        }),
{
}

/// The first event of a recording session: starting a session at clock
/// reading `t0` arms the delay clock at `t0`, so the first committed
/// event's delay is measured from the start of the session.
pub proof fn lemma_first_delay_measured_from_start(
    s: AppCoreView,
    k: KeyView,
    t0: u64,
    t1: u64,
)
    requires
        t0 <= t1,
        !s.player.playing,
        !s.hotkeys.is_hotkey(k),
    ensures
        ({
            let started = AppCoreView {
                recorder: RecorderView {
                    recording: true,
                    events: Seq::<EventView>::empty(),
                    clock_armed: true,
                    last_event_ms: t0,
                    mouse_x: s.recorder.mouse_x,
                    mouse_y: s.recorder.mouse_y,
                },
                ..s
            };
            let (s1, _r) = spec_handle_event(started, InputEventView::KeyPress(k), t1);
            s1.recorder.events == seq![
                EventView::KeyPress { key: k, delay_ms: (t1 - t0) as u64 },
            ]
        }),
{
    let started = AppCoreView {
        recorder: RecorderView {
            recording: true,
            events: Seq::<EventView>::empty(),
            clock_armed: true,
            last_event_ms: t0,
            mouse_x: s.recorder.mouse_x,
            mouse_y: s.recorder.mouse_y,
        },
        ..s
    };
    let (s1, _r) = spec_handle_event(started, InputEventView::KeyPress(k), t1);
    assert(s1.recorder.events =~= seq![
        EventView::KeyPress { key: k, delay_ms: (t1 - t0) as u64 },
    ]);
}

/// Pointer-move throttling: two consecutive raw moves routed less than
/// 20 ms apart commit at most one `MouseMove` event, while the cursor
/// cache always ends at the most recent raw position — so a later click is
/// stamped with the latest position even when the move that produced it
/// was never committed.
pub proof fn lemma_move_throttle(
    s: AppCoreView,
    x1: i64,
    y1: i64,
    x2: i64,
    y2: i64,
    t1: u64,
    t2: u64,
)
    requires
        s.recorder.recording,
        !s.player.playing,
        t1 <= t2,
        (t2 as int) < (t1 as int) + 20,
    ensures
        ({
            let (s1, _r1) = spec_handle_event(s, InputEventView::PointerMove { x: x1, y: y1 }, t1);
            let (s2, _r2) = spec_handle_event(s1, InputEventView::PointerMove { x: x2, y: y2 }, t2);
            s2.recorder.events.len() <= s.recorder.events.len() + 1 && s2.recorder.mouse_x == x2
                && s2.recorder.mouse_y == y2
        }),
{
}

} // verus!
