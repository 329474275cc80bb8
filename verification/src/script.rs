//! Event and script data model: keyboard keys, mouse buttons, the closed
//! family of input events, scripts with loop and speed configuration, and
//! macro definitions.
//!
//! Pointer coordinates are whole pixels (`i64`); timestamps are milliseconds
//! since the Unix epoch (`i64`); the speed multiplier is kept in thousandths
//! (`speed_milli == 1000` is real time), so that all timing arithmetic is
//! exact integer arithmetic.

use vstd::prelude::*;

verus! {

/// Mouse button identity.
#[derive(Clone, Copy, Debug, PartialEq, Eq, Structural)]
pub enum MouseButton {
    Left,
    Right,
    Middle,
    Back,
    Forward,
    Unknown,
}

/// Keyboard key identity: a printable character or a named special key
/// drawn from a fixed vocabulary (arrows, function keys, modifiers, ...).
#[derive(Debug)]
pub enum KeyboardKey {
    /// Character key (a-z, 0-9, symbols)
    Char(char),
    /// Special key (Return, Escape, F1-F12, etc.)
    Special(String),
}

/// Mathematical model of a [`KeyboardKey`].
pub ghost enum KeyView {
    Char(char),
    Special(Seq<char>),
}

impl View for KeyboardKey {
    type V = KeyView;

    open spec fn view(&self) -> KeyView {
        match self {
            KeyboardKey::Char(c) => KeyView::Char(*c),
            KeyboardKey::Special(s) => KeyView::Special(s@),
        }
    }
}

impl DeepView for KeyboardKey {
    type V = KeyView;

    open spec fn deep_view(&self) -> KeyView {
        self.view()
    }
}

impl KeyboardKey {
    /// Structural equality: the identity used for trigger matching.
    pub fn matches(&self, other: &KeyboardKey) -> (r: bool)
        ensures
            r == (self@ == other@),
    {
        match (self, other) {
            (KeyboardKey::Char(a), KeyboardKey::Char(b)) => *a == *b,
            (KeyboardKey::Special(a), KeyboardKey::Special(b)) => a.eq(b),
            _ => false,
        }
    }
}

impl Clone for KeyboardKey {
    fn clone(&self) -> (r: KeyboardKey)
        ensures
            r@ == self@,
    {
        match self {
            KeyboardKey::Char(c) => KeyboardKey::Char(*c),
            KeyboardKey::Special(s) => KeyboardKey::Special(s.clone()),
        }
    }
}

/// A single input event, tagged with the wait in milliseconds that must
/// elapse after the previous event before this one fires.
#[derive(Debug)]
pub enum ScriptEvent {
    /// Key press event
    KeyPress { key: KeyboardKey, delay_ms: u64 },
    /// Key release event
    KeyRelease { key: KeyboardKey, delay_ms: u64 },
    /// Mouse button press at an absolute position
    MousePress { button: MouseButton, x: i64, y: i64, delay_ms: u64 },
    /// Mouse button release at an absolute position
    MouseRelease { button: MouseButton, x: i64, y: i64, delay_ms: u64 },
    /// Mouse movement to an absolute position
    MouseMove { x: i64, y: i64, delay_ms: u64 },
    /// Mouse scroll
    MouseScroll { delta_x: i64, delta_y: i64, delay_ms: u64 },
}

/// Mathematical model of a [`ScriptEvent`].
pub ghost enum EventView {
    KeyPress { key: KeyView, delay_ms: u64 },
    KeyRelease { key: KeyView, delay_ms: u64 },
    MousePress { button: MouseButton, x: i64, y: i64, delay_ms: u64 },
    MouseRelease { button: MouseButton, x: i64, y: i64, delay_ms: u64 },
    MouseMove { x: i64, y: i64, delay_ms: u64 },
    MouseScroll { delta_x: i64, delta_y: i64, delay_ms: u64 },
}

impl EventView {
    /// The wait attached to an event, at the model level.
    pub open spec fn delay(self) -> u64 {
        match self {
            EventView::KeyPress { delay_ms, .. } => delay_ms,
            EventView::KeyRelease { delay_ms, .. } => delay_ms,
            EventView::MousePress { delay_ms, .. } => delay_ms,
            EventView::MouseRelease { delay_ms, .. } => delay_ms,
            EventView::MouseMove { delay_ms, .. } => delay_ms,
            EventView::MouseScroll { delay_ms, .. } => delay_ms,
        }
    }

    /// The same event with its wait replaced.
    pub open spec fn with_delay(self, new_delay: u64) -> EventView {
        match self {
            EventView::KeyPress { key, .. } => EventView::KeyPress { key, delay_ms: new_delay },
            EventView::KeyRelease { key, .. } => EventView::KeyRelease {
                key,
                delay_ms: new_delay,
            },
            EventView::MousePress { button, x, y, .. } => EventView::MousePress {
                button,
                x,
                y,
                delay_ms: new_delay,
            },
            EventView::MouseRelease { button, x, y, .. } => EventView::MouseRelease {
                button,
                x,
                y,
                delay_ms: new_delay,
            },
            EventView::MouseMove { x, y, .. } => EventView::MouseMove { x, y, delay_ms: new_delay },
            EventView::MouseScroll { delta_x, delta_y, .. } => EventView::MouseScroll {
                delta_x,
                delta_y,
                delay_ms: new_delay,
            },
        }
    }
}

impl View for ScriptEvent {
    type V = EventView;

    open spec fn view(&self) -> EventView {
        match self {
            ScriptEvent::KeyPress { key, delay_ms } => EventView::KeyPress {
                key: key@,
                delay_ms: *delay_ms,
            },
            ScriptEvent::KeyRelease { key, delay_ms } => EventView::KeyRelease {
                key: key@,
                delay_ms: *delay_ms,
            },
            ScriptEvent::MousePress { button, x, y, delay_ms } => EventView::MousePress {
                button: *button,
                x: *x,
                y: *y,
                delay_ms: *delay_ms,
            },
            ScriptEvent::MouseRelease { button, x, y, delay_ms } => EventView::MouseRelease {
                button: *button,
                x: *x,
                y: *y,
                delay_ms: *delay_ms,
            },
            ScriptEvent::MouseMove { x, y, delay_ms } => EventView::MouseMove {
                x: *x,
                y: *y,
                delay_ms: *delay_ms,
            },
            ScriptEvent::MouseScroll { delta_x, delta_y, delay_ms } => EventView::MouseScroll {
                delta_x: *delta_x,
                delta_y: *delta_y,
                delay_ms: *delay_ms,
            },
        }
    }
}

impl DeepView for ScriptEvent {
    type V = EventView;

    open spec fn deep_view(&self) -> EventView {
        self.view()
    }
}

impl Clone for ScriptEvent {
    fn clone(&self) -> (r: ScriptEvent)
        ensures
            r@ == self@,
    {
        match self {
            ScriptEvent::KeyPress { key, delay_ms } => ScriptEvent::KeyPress {
                key: key.clone(),
                delay_ms: *delay_ms,
            },
            ScriptEvent::KeyRelease { key, delay_ms } => ScriptEvent::KeyRelease {
                key: key.clone(),
                delay_ms: *delay_ms,
            },
            ScriptEvent::MousePress { button, x, y, delay_ms } => ScriptEvent::MousePress {
                button: *button,
                x: *x,
                y: *y,
                delay_ms: *delay_ms,
            },
            ScriptEvent::MouseRelease { button, x, y, delay_ms } => ScriptEvent::MouseRelease {
                button: *button,
                x: *x,
                y: *y,
                delay_ms: *delay_ms,
            },
            ScriptEvent::MouseMove { x, y, delay_ms } => ScriptEvent::MouseMove {
                x: *x,
                y: *y,
                delay_ms: *delay_ms,
            },
            ScriptEvent::MouseScroll { delta_x, delta_y, delay_ms } => ScriptEvent::MouseScroll {
                delta_x: *delta_x,
                delta_y: *delta_y,
                delay_ms: *delay_ms,
            },
        }
    }
}

impl ScriptEvent {
    /// Get the delay in milliseconds for this event.
    pub fn delay_ms(&self) -> (r: u64)
        ensures
            r == self@.delay(),
    {
        match self {
            ScriptEvent::KeyPress { delay_ms, .. } => *delay_ms,
            ScriptEvent::KeyRelease { delay_ms, .. } => *delay_ms,
            ScriptEvent::MousePress { delay_ms, .. } => *delay_ms,
            ScriptEvent::MouseRelease { delay_ms, .. } => *delay_ms,
            ScriptEvent::MouseMove { delay_ms, .. } => *delay_ms,
            ScriptEvent::MouseScroll { delay_ms, .. } => *delay_ms,
        }
    }

    /// Set the delay in milliseconds for this event.
    pub fn set_delay_ms(&mut self, new_delay: u64)
        ensures
            final(self)@ == old(self)@.with_delay(new_delay),
    {
        match self {
            ScriptEvent::KeyPress { delay_ms, .. } => *delay_ms = new_delay,
            ScriptEvent::KeyRelease { delay_ms, .. } => *delay_ms = new_delay,
            ScriptEvent::MousePress { delay_ms, .. } => *delay_ms = new_delay,
            ScriptEvent::MouseRelease { delay_ms, .. } => *delay_ms = new_delay,
            ScriptEvent::MouseMove { delay_ms, .. } => *delay_ms = new_delay,
            ScriptEvent::MouseScroll { delay_ms, .. } => *delay_ms = new_delay,
        }
    }
}

/// Copy a list of events, element for element.
pub fn clone_events(events: &Vec<ScriptEvent>) -> (r: Vec<ScriptEvent>)
    ensures
        r.deep_view() == events.deep_view(),
{
    let mut out: Vec<ScriptEvent> = Vec::new();
    let mut i: usize = 0;
    while i < events.len()
        invariant
            i <= events.len(),
            out@.len() == i,
            forall|j: int| 0 <= j < i ==> out.deep_view()[j] == events.deep_view()[j],
        decreases events.len() - i,
    {
        out.push(events[i].clone());
        i = i + 1;
    }
    proof {
        assert(out.deep_view() =~= events.deep_view());
    }
    out
}

/// Macro trigger condition: the raw input that fires a macro.
#[derive(Debug)]
pub enum MacroTrigger {
    /// Triggered by pressing a keyboard key
    KeyPress { key: KeyboardKey },
    /// Triggered by pressing a mouse button
    MousePress { button: MouseButton },
}

/// Mathematical model of a [`MacroTrigger`].
pub ghost enum TriggerView {
    KeyPress { key: KeyView },
    MousePress { button: MouseButton },
}

impl View for MacroTrigger {
    type V = TriggerView;

    open spec fn view(&self) -> TriggerView {
        match self {
            MacroTrigger::KeyPress { key } => TriggerView::KeyPress { key: key@ },
            MacroTrigger::MousePress { button } => TriggerView::MousePress { button: *button },
        }
    }
}

impl DeepView for MacroTrigger {
    type V = TriggerView;

    open spec fn deep_view(&self) -> TriggerView {
        self.view()
    }
}

impl Clone for MacroTrigger {
    fn clone(&self) -> (r: MacroTrigger)
        ensures
            r@ == self@,
    {
        match self {
            MacroTrigger::KeyPress { key } => MacroTrigger::KeyPress { key: key.clone() },
            MacroTrigger::MousePress { button } => MacroTrigger::MousePress { button: *button },
        }
    }
}

impl MacroTrigger {
    /// Structural equality: two triggers bind to the same physical input
    /// exactly when their models are equal.
    pub fn matches(&self, other: &MacroTrigger) -> (r: bool)
        ensures
            r == (self@ == other@),
    {
        match (self, other) {
            (MacroTrigger::KeyPress { key: a }, MacroTrigger::KeyPress { key: b }) => a.matches(b),
            (
                MacroTrigger::MousePress { button: a },
                MacroTrigger::MousePress { button: b },
            ) => a == b,
            _ => false,
        }
    }
}

/// The action bound to a macro trigger: an inline event list, or a path to
/// a persisted script. The two forms are mutually exclusive by construction.
#[derive(Debug)]
pub enum MacroAction {
    /// Events to execute directly when triggered
    Inline(Vec<ScriptEvent>),
    /// Path of a persisted script to load and play when triggered
    FileRef(String),
}

/// Mathematical model of a [`MacroAction`].
pub ghost enum ActionView {
    Inline(Seq<EventView>),
    FileRef(Seq<char>),
}

impl ActionView {
    /// An action is worth dispatching only if it has any content.
    pub open spec fn is_nonempty(self) -> bool {
        match self {
            ActionView::Inline(events) => events.len() > 0,
            ActionView::FileRef(path) => path.len() > 0,
        }
    }
}

impl View for MacroAction {
    type V = ActionView;

    open spec fn view(&self) -> ActionView {
        match self {
            MacroAction::Inline(events) => ActionView::Inline(events.deep_view()),
            MacroAction::FileRef(path) => ActionView::FileRef(path@),
        }
    }
}

impl DeepView for MacroAction {
    type V = ActionView;

    open spec fn deep_view(&self) -> ActionView {
        self.view()
    }
}

impl Clone for MacroAction {
    fn clone(&self) -> (r: MacroAction)
        ensures
            r@ == self@,
    {
        match self {
            MacroAction::Inline(events) => MacroAction::Inline(clone_events(events)),
            MacroAction::FileRef(path) => MacroAction::FileRef(path.clone()),
        }
    }
}

impl MacroAction {
    /// Whether the action has any content to execute.
    pub fn is_nonempty(&self) -> (r: bool)
        ensures
            r == self@.is_nonempty(),
    {
        match self {
            MacroAction::Inline(events) => events.len() > 0,
            MacroAction::FileRef(path) => path.as_str().unicode_len() > 0,
        }
    }
}

/// A macro definition: trigger plus bound action.
#[derive(Debug)]
pub struct MacroDefinition {
    /// Unique identifier
    pub id: String,
    /// Display name
    pub name: String,
    /// What triggers this macro
    pub trigger: MacroTrigger,
    /// What to execute when triggered
    pub action: MacroAction,
    /// Whether the macro is enabled
    pub enabled: bool,
}

/// Mathematical model of a [`MacroDefinition`].
pub ghost struct MacroDefView {
    pub id: Seq<char>,
    pub name: Seq<char>,
    pub trigger: TriggerView,
    pub action: ActionView,
    pub enabled: bool,
}

impl View for MacroDefinition {
    type V = MacroDefView;

    open spec fn view(&self) -> MacroDefView {
        MacroDefView {
            id: self.id@,
            name: self.name@,
            trigger: self.trigger@,
            action: self.action@,
            enabled: self.enabled,
        }
    }
}

impl DeepView for MacroDefinition {
    type V = MacroDefView;

    open spec fn deep_view(&self) -> MacroDefView {
        self.view()
    }
}

impl Clone for MacroDefinition {
    fn clone(&self) -> (r: MacroDefinition)
        ensures
            r@ == self@,
    {
        MacroDefinition {
            id: self.id.clone(),
            name: self.name.clone(),
            trigger: self.trigger.clone(),
            action: self.action.clone(),
            enabled: self.enabled,
        }
    }
}

/// Loop configuration for script execution.
#[derive(Clone, Copy, Debug, PartialEq, Eq, Structural)]
pub struct LoopConfig {
    /// Number of times to repeat (0 = repeat until stopped)
    pub count: u32,
    /// Delay between loop passes in milliseconds
    pub delay_between_ms: u64,
}

impl Default for LoopConfig {
    /// One pass, no pause between passes.
    fn default() -> (r: LoopConfig)
        ensures
            r == (LoopConfig { count: 1, delay_between_ms: 0 }),
    {
        LoopConfig { count: 1, delay_between_ms: 0 }
    }
}

/// A complete script with metadata.
#[derive(Debug)]
pub struct Script {
    /// Script name
    pub name: String,
    /// Script description
    pub description: String,
    /// Creation timestamp, milliseconds since the Unix epoch
    pub created_at_ms: i64,
    /// Last-modified timestamp, milliseconds since the Unix epoch
    pub modified_at_ms: i64,
    /// List of events, in execution order
    pub events: Vec<ScriptEvent>,
    /// Loop configuration
    pub loop_config: LoopConfig,
    /// Speed multiplier in thousandths (1000 = real time, 2000 = double speed)
    pub speed_milli: u32,
}

/// Mathematical model of a [`Script`].
pub ghost struct ScriptView {
    pub name: Seq<char>,
    pub description: Seq<char>,
    pub created_at_ms: i64,
    pub modified_at_ms: i64,
    pub events: Seq<EventView>,
    pub loop_config: LoopConfig,
    pub speed_milli: u32,
}

impl ScriptView {
    /// Validity: the speed multiplier must be positive.
    pub open spec fn wf(self) -> bool {
        self.speed_milli > 0
    }
}

impl View for Script {
    type V = ScriptView;

    open spec fn view(&self) -> ScriptView {
        ScriptView {
            name: self.name@,
            description: self.description@,
            created_at_ms: self.created_at_ms,
            modified_at_ms: self.modified_at_ms,
            events: self.events.deep_view(),
            loop_config: self.loop_config,
            speed_milli: self.speed_milli,
        }
    }
}

impl DeepView for Script {
    type V = ScriptView;

    open spec fn deep_view(&self) -> ScriptView {
        self.view()
    }
}

/// Sum of all event delays of a script, as an unbounded integer.
pub open spec fn sum_delays(events: Seq<EventView>) -> int
    decreases events.len(),
{
    if events.len() == 0 {
        0
    } else {
        sum_delays(events.drop_last()) + events.last().delay()
    }
}

/// Every partial sum of delays is nonnegative.
pub proof fn lemma_sum_delays_nonneg(events: Seq<EventView>)
    ensures
        sum_delays(events) >= 0,
    decreases events.len(),
{
    if events.len() > 0 {
        lemma_sum_delays_nonneg(events.drop_last());
    }
}

impl Script {
    /// Create a new script with the given name, stamped with the current
    /// time; empty event list, single pass, real-time speed.
    pub fn new(name: String) -> (r: Script)
        ensures
            r@.name == name@,
            r@.description == Seq::<char>::empty(),
            r@.events == Seq::<EventView>::empty(),
            r@.loop_config == (LoopConfig { count: 1, delay_between_ms: 0 }),
            r@.speed_milli == 1000u32,
            r@.created_at_ms == r@.modified_at_ms,
            r@.wf(),
    {
        let now: i64 = crate::clock::utc_now_ms();
        Script {
            name,
            description: String::new(),
            created_at_ms: now,
            modified_at_ms: now,
            events: Vec::new(),
            loop_config: LoopConfig { count: 1, delay_between_ms: 0 },
            speed_milli: 1000,
        }
    }

    /// Append an event and refresh the modification timestamp.
    pub fn add_event(&mut self, event: ScriptEvent)
        ensures
            final(self)@.events == old(self)@.events.push(event@),
            final(self)@.name == old(self)@.name,
            final(self)@.description == old(self)@.description,
            final(self)@.created_at_ms == old(self)@.created_at_ms,
            final(self)@.loop_config == old(self)@.loop_config,
            final(self)@.speed_milli == old(self)@.speed_milli,
    {
        self.events.push(event);
        self.modified_at_ms = crate::clock::utc_now_ms();
        proof {
            assert(self@.events =~= old(self)@.events.push(event@));
        }
    }

    /// Remove all events and refresh the modification timestamp.
    pub fn clear_events(&mut self)
        ensures
            final(self)@.events == Seq::<EventView>::empty(),
            final(self)@.name == old(self)@.name,
            final(self)@.description == old(self)@.description,
            final(self)@.created_at_ms == old(self)@.created_at_ms,
            final(self)@.loop_config == old(self)@.loop_config,
            final(self)@.speed_milli == old(self)@.speed_milli,
    {
        self.events.clear();
        self.modified_at_ms = crate::clock::utc_now_ms();
        proof {
            assert(self@.events =~= Seq::<EventView>::empty());
        }
    }

    /// Total duration of one pass in milliseconds: the sum of all event
    /// delays, saturating at `u64::MAX`.
    pub fn total_duration_ms(&self) -> (r: u64)
        ensures
            sum_delays(self@.events) <= u64::MAX ==> r == sum_delays(self@.events),
            sum_delays(self@.events) > u64::MAX ==> r == u64::MAX,
    {
        let ghost evs = self@.events;
        let mut total: u64 = 0;
        let mut i: usize = 0;
        while i < self.events.len()
            invariant
                i <= self.events.len(),
                evs == self@.events,
                self.events.deep_view() == evs,
                sum_delays(evs.take(i as int)) <= u64::MAX ==> total == sum_delays(
                    evs.take(i as int),
                ),
                sum_delays(evs.take(i as int)) > u64::MAX ==> total == u64::MAX,
            decreases self.events.len() - i,
        {
            let d = self.events[i].delay_ms();
            proof {
                assert(evs.take(i + 1 as int).drop_last() =~= evs.take(i as int));
                assert(evs.take(i + 1 as int).last() == evs[i as int]);
                lemma_sum_delays_nonneg(evs.take(i as int));
            }
            if total > u64::MAX - d {
                total = u64::MAX;
            } else {
                total = total + d;
            }
            i = i + 1;
        }
        proof {
            assert(evs.take(self.events.len() as int) =~= evs);
        }
        total
    }
}

impl Default for Script {
    /// An untitled, empty script: one pass, real-time speed, stamped with
    /// the current time.
    fn default() -> (r: Script)
        ensures
            r@.name == "Untitled Script"@,
            r@.description == Seq::<char>::empty(),
            r@.events == Seq::<EventView>::empty(),
            r@.loop_config == (LoopConfig { count: 1, delay_between_ms: 0 }),
            r@.speed_milli == 1000u32,
            r@.created_at_ms == r@.modified_at_ms,
            r@.wf(),
    {
        Script::new("Untitled Script".to_owned())
    }
}

/// Set the delay of the event at `index`; lists with no such index are
/// handed back unchanged.
pub fn update_event_delay(events: Vec<ScriptEvent>, index: usize, delay_ms: u64) -> (r: Vec<
    ScriptEvent,
>)
    ensures
        index < events.deep_view().len() ==> r.deep_view() == events.deep_view().update(
            index as int,
            events.deep_view()[index as int].with_delay(delay_ms),
        ),
        index >= events.deep_view().len() ==> r.deep_view() == events.deep_view(),
{
    let mut events = events;
    let ghost orig = events.deep_view();
    if index < events.len() {
        let slot = &mut events[index];
        slot.set_delay_ms(delay_ms);
        proof {
            assert(events.deep_view() =~= orig.update(
                index as int,
                orig[index as int].with_delay(delay_ms),
            ));
        }
    }
    events
}

/// Remove the event at `index`; lists with no such index are handed back
/// unchanged.
pub fn delete_event(events: Vec<ScriptEvent>, index: usize) -> (r: Vec<ScriptEvent>)
    ensures
        index < events.deep_view().len() ==> r.deep_view() == events.deep_view().remove(
            index as int,
        ),
        index >= events.deep_view().len() ==> r.deep_view() == events.deep_view(),
{
    let mut events = events;
    let ghost orig = events.deep_view();
    if index < events.len() {
        events.remove(index);
        proof {
            assert(events.deep_view() =~= orig.remove(index as int));
        }
    }
    events
}

/// A delay scaled by a factor in thousandths, saturating at `u64::MAX`.
pub open spec fn spec_scaled_delay(delay_ms: u64, factor_milli: u32) -> u64 {
    let q = (delay_ms as int) * (factor_milli as int) / 1000;
    if q <= u64::MAX as int {
        q as u64
    } else {
        u64::MAX as u64
    }
}

/// Scale every event's delay by a factor in thousandths (1000 keeps the
/// timing, 500 halves every delay, 2000 doubles it).
pub fn scale_delays(events: Vec<ScriptEvent>, factor_milli: u32) -> (r: Vec<ScriptEvent>)
    ensures
        r.deep_view().len() == events.deep_view().len(),
        forall|i: int|
            0 <= i < events.deep_view().len() ==> #[trigger] r.deep_view()[i]
                == events.deep_view()[i].with_delay(
                spec_scaled_delay(events.deep_view()[i].delay(), factor_milli),
            ),
{
    let mut events = events;
    let ghost orig = events.deep_view();
    let mut i: usize = 0;
    while i < events.len()
        invariant
            i <= events@.len(),
            events@.len() == orig.len(),
            forall|j: int|
                0 <= j < i ==> #[trigger] events.deep_view()[j] == orig[j].with_delay(
                    spec_scaled_delay(orig[j].delay(), factor_milli),
                ),
            forall|j: int| i <= j < orig.len() ==> #[trigger] events.deep_view()[j] == orig[j],
        decreases events@.len() - i,
    {
        let d = events[i].delay_ms();
        proof {
            vstd::arithmetic::mul::lemma_mul_upper_bound(
                d as int,
                u64::MAX as int,
                factor_milli as int,
                u32::MAX as int,
            );
        }
        let scaled_wide: u128 = (d as u128) * (factor_milli as u128) / 1000;
        let scaled: u64 = if scaled_wide > u64::MAX as u128 {
            u64::MAX
        } else {
            scaled_wide as u64
        };
        let ghost prev = events.deep_view();
        let slot = &mut events[i];
        slot.set_delay_ms(scaled);
        proof {
            assert(events.deep_view() =~= prev.update(
                i as int,
                prev[i as int].with_delay(scaled),
            ));
        }
        i = i + 1;
    }
    events
}

/// The stem of a saved-script file name: the name without its ".autokb"
/// suffix, provided the suffix is there and the stem is not empty.
pub fn script_file_stem(file_name: &str) -> (r: Option<String>)
    ensures
        match r {
            Option::Some(stem) => file_name@.len() > 7 && file_name@ == stem@ + ".autokb"@
                && stem@.len() > 0,
            Option::None => file_name@.len() <= 7 || file_name@.subrange(
                file_name@.len() - 7,
                file_name@.len() as int,
            ) != ".autokb"@,
        },
{
    let n = file_name.unicode_len();
    if n <= 7 {
        return None;
    }
    let suffix = file_name.substring_char(n - 7, n);
    if str_eq(suffix, ".autokb") {
        let stem = file_name.substring_char(0, n - 7);
        proof {
            assert(file_name@ =~= stem@ + ".autokb"@);
        }
        Some(stem.to_owned())
    } else {
        None
    }
}

/// Exact string comparison, specified over the views.
pub fn str_eq(a: &str, b: &str) -> (r: bool)
    ensures
        r == (a@ == b@),
{
    a.to_owned().eq(&b.to_owned())
}

/// Application configuration: the rebindable hotkeys and the saved macros.
#[derive(Debug)]
pub struct AppConfig {
    /// Hotkey for start/stop recording (default: F9)
    pub recording_hotkey: String,
    /// Hotkey for start/stop playback (default: F10)
    pub playback_hotkey: String,
    /// Emergency stop hotkey (default: Escape)
    pub stop_hotkey: String,
    /// Macro definitions
    pub macros: Vec<MacroDefinition>,
}

impl Default for AppConfig {
    fn default() -> (r: AppConfig)
        ensures
            r.recording_hotkey@ == "F9"@,
            r.playback_hotkey@ == "F10"@,
            r.stop_hotkey@ == "Escape"@,
            r.macros.deep_view() == Seq::<MacroDefView>::empty(),
    {
        let r = AppConfig {
            recording_hotkey: "F9".to_owned(),
            playback_hotkey: "F10".to_owned(),
            stop_hotkey: "Escape".to_owned(),
            macros: Vec::new(),
        };
        proof {
            assert(r.macros.deep_view() =~= Seq::<MacroDefView>::empty());
        }
        r
    }
}

} // verus!
