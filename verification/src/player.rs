//! Playback scheduling core: the "am I playing" state machine, exact
//! integer speed scaling of delays, interruptible-wait slicing, and the
//! step plan a playback worker executes.
//!
//! The worker itself (sleeping and synthesizing input) is outside work; the
//! library decides everything: which synthesis operations an event expands
//! to, how long each wait is, how waits are sliced so a stop request takes
//! effect within one slice, and when a loop pass may begin.

use vstd::prelude::*;

use crate::hotkey::HotkeyEvent;
use crate::script::{EventView, KeyView, KeyboardKey, MouseButton, Script, ScriptEvent};

verus! {

/// Playback state manager: at most one playback run is active at a time.
#[derive(Clone, Copy, Debug, PartialEq, Eq, Structural)]
pub struct PlaybackState {
    /// Whether playback is active
    pub playing: bool,
    /// Current loop iteration, counted from 1 during a run
    pub current_loop: u32,
    /// Index of the event currently being executed
    pub current_event: usize,
    /// Whether a stop has been requested
    pub stop_requested: bool,
}

/// A loop counter bump that cannot overflow: sticks at `u32::MAX`.
pub open spec fn inc_saturating(x: u32) -> u32 {
    if x == u32::MAX {
        x
    } else {
        (x + 1) as u32
    }
}

/// The loop-head decision: bump the loop counter, then decide whether this
/// pass may run. A pass runs when no stop was requested and either the
/// count is 0 (repeat until stopped) or the bumped counter is still within
/// the count.
pub open spec fn spec_begin_pass(s: PlaybackState, count: u32) -> (PlaybackState, bool) {
    let bumped = PlaybackState { current_loop: inc_saturating(s.current_loop), ..s };
    let proceed = !s.stop_requested && (count == 0 || bumped.current_loop <= count);
    (bumped, proceed)
}

impl PlaybackState {
    /// A fresh, idle player.
    pub fn new() -> (r: PlaybackState)
        ensures
            r == (PlaybackState {
                playing: false,
                current_loop: 0u32,
                current_event: 0usize,
                stop_requested: false,
            }),
    {
        PlaybackState { playing: false, current_loop: 0, current_event: 0, stop_requested: false }
    }

    /// Whether a playback run is active.
    pub fn is_playing(&self) -> (r: bool)
        ensures
            r == self.playing,
    {
        self.playing
    }

    /// Mark a run active: reset both counters and the stop flag.
    pub fn start(&mut self)
        ensures
            *final(self) == (PlaybackState {
                playing: true,
                current_loop: 0u32,
                current_event: 0usize,
                stop_requested: false,
            }),
    {
        self.current_loop = 0;
        self.current_event = 0;
        self.stop_requested = false;
        self.playing = true;
    }

    /// Request a stop and mark the run inactive; idempotent.
    pub fn stop(&mut self)
        ensures
            *final(self) == (PlaybackState {
                playing: false,
                stop_requested: true,
                ..*old(self)
            }),
    {
        self.stop_requested = true;
        self.playing = false;
    }

    /// Whether a stop has been requested.
    pub fn should_stop(&self) -> (r: bool)
        ensures
            r == self.stop_requested,
    {
        self.stop_requested
    }

    /// Bump the loop counter (saturating) and return its new value.
    pub fn increment_loop(&mut self) -> (r: u32)
        ensures
            *final(self) == (PlaybackState {
                current_loop: inc_saturating(old(self).current_loop),
                ..*old(self)
            }),
            r == final(self).current_loop,
    {
        if self.current_loop < u32::MAX {
            self.current_loop = self.current_loop + 1;
        }
        self.current_loop
    }

    /// Record which event is about to execute, for progress observation.
    pub fn set_event_index(&mut self, index: usize)
        ensures
            *final(self) == (PlaybackState { current_event: index, ..*old(self) }),
    {
        self.current_event = index;
    }

    /// The loop-head decision of a playback run: bump the loop counter and
    /// report whether this pass may execute (see [`spec_begin_pass`]).
    pub fn begin_pass(&mut self, count: u32) -> (r: bool)
        ensures
            (*final(self), r) == spec_begin_pass(*old(self), count),
    {
        let stop = self.stop_requested;
        let bumped = self.increment_loop();
        !stop && (count == 0 || bumped <= count)
    }

    /// The single convergence point of every run (natural completion,
    /// error, stop): clear the active flag and produce the notification the
    /// GUI layer expects.
    pub fn finish(&mut self) -> (r: HotkeyEvent)
        ensures
            *final(self) == (PlaybackState { playing: false, ..*old(self) }),
            r@.action == "playback-stopped"@,
            r@.recording == false,
            r@.playing == false,
    {
        self.playing = false;
        HotkeyEvent { action: "playback-stopped".to_owned(), recording: false, playing: false }
    }
}

impl Default for PlaybackState {
    fn default() -> (r: PlaybackState)
        ensures
            r == (PlaybackState {
                playing: false,
                current_loop: 0u32,
                current_event: 0usize,
                stop_requested: false,
            }),
    {
        PlaybackState::new()
    }
}

/// Once a stop has been requested, no further pass begins: the loop-head
/// decision refuses whatever the loop counter and the configured count are.
pub proof fn lemma_stop_halts_looping(s: PlaybackState, count: u32)
    requires
        s.stop_requested,
    ensures
        !spec_begin_pass(s, count).1,
{
}

/// The wait before an event at a given speed: `delay_ms` scaled down by
/// `speed_milli` thousandths, saturating at `u64::MAX`.
pub open spec fn spec_effective_wait(delay_ms: u64, speed_milli: u32) -> u64 {
    let q = (delay_ms as int) * 1000 / (speed_milli as int);
    if q <= u64::MAX as int {
        q as u64
    } else {
        u64::MAX as u64
    }
}

/// Compute the speed-scaled wait for one event.
pub fn effective_wait_ms(delay_ms: u64, speed_milli: u32) -> (r: u64)
    requires
        speed_milli > 0,
    ensures
        r == spec_effective_wait(delay_ms, speed_milli),
{
    let scaled: u128 = (delay_ms as u128) * 1000 / (speed_milli as u128);
    if scaled > u64::MAX as u128 {
        u64::MAX
    } else {
        scaled as u64
    }
}

/// Speed 1000 (a multiplier of one) reproduces the original timing
/// exactly.
pub proof fn lemma_unit_speed_is_identity(delay_ms: u64)
    ensures
        spec_effective_wait(delay_ms, 1000) == delay_ms,
{
    assert((delay_ms as int) * 1000 / 1000 == delay_ms as int) by (nonlinear_arith);
}

/// Sum of a sequence of waits, as an unbounded integer.
pub open spec fn sum_u64(s: Seq<u64>) -> int
    decreases s.len(),
{
    if s.len() == 0 {
        0
    } else {
        sum_u64(s.drop_last()) + s.last()
    }
}

/// A total wait cut into 100 ms chunks, the remainder last.
pub open spec fn spec_wait_slices(total_ms: u64) -> Seq<u64>
    decreases total_ms,
{
    if total_ms == 0 {
        Seq::empty()
    } else if total_ms <= 100 {
        seq![total_ms]
    } else {
        seq![100u64] + spec_wait_slices((total_ms - 100) as u64)
    }
}

/// The slices sum to the total, and each is at most 100 ms — so a stop
/// request polled between slices takes effect within 100 ms.
pub proof fn lemma_wait_slices_bounded(total_ms: u64)
    ensures
        sum_u64(spec_wait_slices(total_ms)) == total_ms,
        forall|i: int|
            0 <= i < spec_wait_slices(total_ms).len() ==> 0 < #[trigger] spec_wait_slices(
                total_ms,
            )[i] <= 100,
    decreases total_ms,
{
    let s = spec_wait_slices(total_ms);
    assert(sum_u64(Seq::<u64>::empty()) == 0);
    if total_ms == 0 {
    } else if total_ms <= 100 {
        assert(s.drop_last() =~= Seq::<u64>::empty());
        assert(s.last() == total_ms);
    } else {
        lemma_wait_slices_bounded((total_ms - 100) as u64);
        let rest = spec_wait_slices((total_ms - 100) as u64);
        lemma_sum_u64_prepend(100u64, rest);
    }
}

/// Summing after prepending one element.
proof fn lemma_sum_u64_prepend(x: u64, s: Seq<u64>)
    ensures
        sum_u64(seq![x] + s) == x + sum_u64(s),
    decreases s.len(),
{
    assert(sum_u64(Seq::<u64>::empty()) == 0);
    if s.len() == 0 {
        assert((seq![x] + s).drop_last() =~= Seq::<u64>::empty());
        assert((seq![x] + s).last() == x);
        assert(sum_u64(s) == 0);
    } else {
        lemma_sum_u64_prepend(x, s.drop_last());
        assert((seq![x] + s).drop_last() =~= seq![x] + s.drop_last());
        assert((seq![x] + s).last() == s.last());
    }
}

/// Slice a total wait into bounded chunks (see [`spec_wait_slices`] and
/// [`lemma_wait_slices_bounded`]).
pub fn wait_slices(total_ms: u64) -> (r: Vec<u64>)
    ensures
        r@ == spec_wait_slices(total_ms),
        sum_u64(r@) == total_ms,
        forall|i: int| 0 <= i < r@.len() ==> 0 < #[trigger] r@[i] <= 100,
{
    let mut slices: Vec<u64> = Vec::new();
    let mut remaining: u64 = total_ms;
    while remaining > 0
        invariant
            slices@ + spec_wait_slices(remaining) =~= spec_wait_slices(total_ms),
            sum_u64(slices@) == total_ms - remaining,
            forall|i: int| 0 <= i < slices@.len() ==> 0 < #[trigger] slices@[i] <= 100,
        decreases remaining,
    {
        let chunk: u64 = if remaining > 100 {
            100
        } else {
            remaining
        };
        let ghost prev = slices@;
        slices.push(chunk);
        proof {
            assert(slices@.drop_last() =~= prev);
            if remaining <= 100 {
                assert(spec_wait_slices(remaining) =~= seq![chunk]);
                assert(slices@ + spec_wait_slices(0) =~= slices@);
                assert(slices@ + spec_wait_slices(0) =~= spec_wait_slices(total_ms));
            } else {
                assert(spec_wait_slices(remaining) =~= seq![100u64] + spec_wait_slices(
                    (remaining - 100) as u64,
                ));
                assert(slices@ + spec_wait_slices((remaining - 100) as u64)
                    =~= spec_wait_slices(total_ms));
            }
        }
        remaining = remaining - chunk;
    }
    proof {
        assert(slices@ + spec_wait_slices(0) =~= slices@);
    }
    slices
}

/// One primitive synthesis operation, in the order a worker must perform
/// them.
#[derive(Debug)]
pub enum SynthOp {
    /// Press a keyboard key
    KeyDown { key: KeyboardKey },
    /// Release a keyboard key
    KeyUp { key: KeyboardKey },
    /// Move the pointer to an absolute position
    MoveTo { x: i64, y: i64 },
    /// Press a mouse button
    ButtonDown { button: MouseButton },
    /// Release a mouse button
    ButtonUp { button: MouseButton },
    /// Scroll one axis; `vertical` selects the axis
    Scroll { vertical: bool, amount: i64 },
}

/// Mathematical model of a [`SynthOp`].
pub ghost enum SynthOpView {
    KeyDown { key: KeyView },
    KeyUp { key: KeyView },
    MoveTo { x: i64, y: i64 },
    ButtonDown { button: MouseButton },
    ButtonUp { button: MouseButton },
    Scroll { vertical: bool, amount: i64 },
}

impl View for SynthOp {
    type V = SynthOpView;

    open spec fn view(&self) -> SynthOpView {
        match self {
            SynthOp::KeyDown { key } => SynthOpView::KeyDown { key: key@ },
            SynthOp::KeyUp { key } => SynthOpView::KeyUp { key: key@ },
            SynthOp::MoveTo { x, y } => SynthOpView::MoveTo { x: *x, y: *y },
            SynthOp::ButtonDown { button } => SynthOpView::ButtonDown { button: *button },
            SynthOp::ButtonUp { button } => SynthOpView::ButtonUp { button: *button },
            SynthOp::Scroll { vertical, amount } => SynthOpView::Scroll {
                vertical: *vertical,
                amount: *amount,
            },
        }
    }
}

impl DeepView for SynthOp {
    type V = SynthOpView;

    open spec fn deep_view(&self) -> SynthOpView {
        self.view()
    }
}

/// Negation that cannot overflow: `i64::MIN` saturates to `i64::MAX`.
pub open spec fn spec_neg_saturating(d: i64) -> i64 {
    if d == i64::MIN {
        i64::MAX
    } else {
        (-d) as i64
    }
}

/// The synthesis operations one event expands to. Scroll deltas change
/// sign between the captured wheel convention and the synthesis convention;
/// button events are preceded by a pointer move to their recorded position
/// only when `use_recorded_position` holds.
pub open spec fn spec_synth_ops(e: EventView, use_recorded_position: bool) -> Seq<SynthOpView> {
    match e {
        EventView::KeyPress { key, .. } => seq![SynthOpView::KeyDown { key }],
        EventView::KeyRelease { key, .. } => seq![SynthOpView::KeyUp { key }],
        EventView::MousePress { button, x, y, .. } => if use_recorded_position {
            seq![SynthOpView::MoveTo { x, y }, SynthOpView::ButtonDown { button }]
        } else {
            seq![SynthOpView::ButtonDown { button }]
        },
        EventView::MouseRelease { button, x, y, .. } => if use_recorded_position {
            seq![SynthOpView::MoveTo { x, y }, SynthOpView::ButtonUp { button }]
        } else {
            seq![SynthOpView::ButtonUp { button }]
        },
        EventView::MouseMove { x, y, .. } => seq![SynthOpView::MoveTo { x, y }],
        EventView::MouseScroll { delta_x, delta_y, .. } => {
            let vertical: Seq<SynthOpView> = if delta_y != 0 {
                seq![
                    SynthOpView::Scroll { vertical: true, amount: spec_neg_saturating(delta_y) },
                ]
            } else {
                Seq::empty()
            };
            let horizontal: Seq<SynthOpView> = if delta_x != 0 {
                seq![
                    SynthOpView::Scroll { vertical: false, amount: spec_neg_saturating(delta_x) },
                ]
            } else {
                Seq::empty()
            };
            vertical + horizontal
        },
    }
}

/// Negate a scroll delta without overflowing.
fn neg_saturating(d: i64) -> (r: i64)
    ensures
        r == spec_neg_saturating(d),
{
    if d == i64::MIN {
        i64::MAX
    } else {
        -d
    }
}

/// Expand one event into the synthesis operations a worker must perform,
/// in order.
pub fn synth_ops(event: &ScriptEvent, use_recorded_position: bool) -> (r: Vec<SynthOp>)
    ensures
        r.deep_view() == spec_synth_ops(event@, use_recorded_position),
{
    let mut ops: Vec<SynthOp> = Vec::new();
    match event {
        ScriptEvent::KeyPress { key, .. } => {
            ops.push(SynthOp::KeyDown { key: key.clone() });
        },
        ScriptEvent::KeyRelease { key, .. } => {
            ops.push(SynthOp::KeyUp { key: key.clone() });
        },
        ScriptEvent::MousePress { button, x, y, .. } => {
            if use_recorded_position {
                ops.push(SynthOp::MoveTo { x: *x, y: *y });
            }
            ops.push(SynthOp::ButtonDown { button: *button });
        },
        ScriptEvent::MouseRelease { button, x, y, .. } => {
            if use_recorded_position {
                ops.push(SynthOp::MoveTo { x: *x, y: *y });
            }
            ops.push(SynthOp::ButtonUp { button: *button });
        },
        ScriptEvent::MouseMove { x, y, .. } => {
            ops.push(SynthOp::MoveTo { x: *x, y: *y });
        },
        ScriptEvent::MouseScroll { delta_x, delta_y, .. } => {
            if *delta_y != 0 {
                ops.push(SynthOp::Scroll { vertical: true, amount: neg_saturating(*delta_y) });
            }
            if *delta_x != 0 {
                ops.push(SynthOp::Scroll { vertical: false, amount: neg_saturating(*delta_x) });
            }
        },
    }
    proof {
        assert(ops.deep_view() =~= spec_synth_ops(event@, use_recorded_position));
    }
    ops
}

/// Whether the event list contains any explicit pointer-move event.
pub open spec fn spec_has_mouse_moves(events: Seq<EventView>) -> bool {
    exists|i: int| 0 <= i < events.len() && events[i] is MouseMove
}

/// Whether a script contains any explicit pointer-move event. A script
/// with none is replayed with button events at the live cursor position
/// rather than at their recorded coordinates.
pub fn has_mouse_moves(events: &Vec<ScriptEvent>) -> (r: bool)
    ensures
        r == spec_has_mouse_moves(events.deep_view()),
{
    let mut i: usize = 0;
    while i < events.len()
        invariant
            i <= events.len(),
            forall|j: int| 0 <= j < i ==> !(events.deep_view()[j] is MouseMove),
        decreases events.len() - i,
    {
        if matches!(&events[i], ScriptEvent::MouseMove { .. }) {
            assert(events.deep_view()[i as int] is MouseMove);
            return true;
        }
        i = i + 1;
    }
    false
}

/// One step of a playback plan: either fire an event after a wait, or
/// pause between two loop passes.
#[derive(Debug)]
pub enum PlanStep {
    /// Wait `wait_ms` milliseconds (sliced, interruptibly), then synthesize
    /// the event
    Fire { wait_ms: u64, event: ScriptEvent },
    /// Wait `wait_ms` milliseconds between two loop passes
    LoopPause { wait_ms: u64 },
}

/// Mathematical model of a [`PlanStep`].
pub ghost enum PlanStepView {
    Fire { wait_ms: u64, event: EventView },
    LoopPause { wait_ms: u64 },
}

impl View for PlanStep {
    type V = PlanStepView;

    open spec fn view(&self) -> PlanStepView {
        match self {
            PlanStep::Fire { wait_ms, event } => PlanStepView::Fire {
                wait_ms: *wait_ms,
                event: event@,
            },
            PlanStep::LoopPause { wait_ms } => PlanStepView::LoopPause { wait_ms: *wait_ms },
        }
    }
}

impl DeepView for PlanStep {
    type V = PlanStepView;

    open spec fn deep_view(&self) -> PlanStepView {
        self.view()
    }
}

/// The steps of one pass over the events: each event fires after its
/// speed-scaled wait, in script order.
pub open spec fn pass_steps(events: Seq<EventView>, speed_milli: u32) -> Seq<PlanStepView> {
    Seq::new(
        events.len(),
        |i: int|
            PlanStepView::Fire {
                wait_ms: spec_effective_wait(events[i].delay(), speed_milli),
                event: events[i],
            },
    )
}

/// The pause appended after a pass, when one is configured.
pub open spec fn pause_steps(pause_ms: u64) -> Seq<PlanStepView> {
    if pause_ms > 0 {
        seq![PlanStepView::LoopPause { wait_ms: pause_ms }]
    } else {
        Seq::empty()
    }
}

/// The full plan of a finite run: `n` passes, each followed by the
/// configured pause.
pub open spec fn plan_steps(
    events: Seq<EventView>,
    speed_milli: u32,
    n: nat,
    pause_ms: u64,
) -> Seq<PlanStepView>
    decreases n,
{
    if n == 0 {
        Seq::empty()
    } else {
        plan_steps(events, speed_milli, (n - 1) as nat, pause_ms) + pass_steps(
            events,
            speed_milli,
        ) + pause_steps(pause_ms)
    }
}

/// The events a single step fires: one for a `Fire`, none for a pause.
pub open spec fn step_fires(step: PlanStepView) -> Seq<EventView> {
    match step {
        PlanStepView::Fire { event, .. } => seq![event],
        PlanStepView::LoopPause { .. } => Seq::empty(),
    }
}

/// The sequence of events a plan fires, in order.
pub open spec fn fires_of(steps: Seq<PlanStepView>) -> Seq<EventView>
    decreases steps.len(),
{
    if steps.len() == 0 {
        Seq::empty()
    } else {
        fires_of(steps.drop_last()) + step_fires(steps.last())
    }
}

/// The event list repeated `n` times, in order.
pub open spec fn repeat_events(events: Seq<EventView>, n: nat) -> Seq<EventView>
    decreases n,
{
    if n == 0 {
        Seq::empty()
    } else {
        repeat_events(events, (n - 1) as nat) + events
    }
}

/// Firing distributes over concatenation of plans.
pub proof fn lemma_fires_of_add(a: Seq<PlanStepView>, b: Seq<PlanStepView>)
    ensures
        fires_of(a + b) == fires_of(a) + fires_of(b),
    decreases b.len(),
{
    if b.len() == 0 {
        assert(a + b =~= a);
        assert(fires_of(a) + fires_of(b) =~= fires_of(a));
    } else {
        lemma_fires_of_add(a, b.drop_last());
        assert((a + b).drop_last() =~= a + b.drop_last());
        assert(fires_of(a + b) =~= fires_of(a) + fires_of(b));
    }
}

/// One pass fires exactly the event list, in order.
pub proof fn lemma_fires_of_pass(events: Seq<EventView>, speed_milli: u32)
    ensures
        fires_of(pass_steps(events, speed_milli)) == events,
    decreases events.len(),
{
    if events.len() == 0 {
        assert(fires_of(pass_steps(events, speed_milli)) =~= events);
    } else {
        lemma_fires_of_pass(events.drop_last(), speed_milli);
        assert(pass_steps(events, speed_milli).drop_last() =~= pass_steps(
            events.drop_last(),
            speed_milli,
        ));
        assert(fires_of(pass_steps(events, speed_milli)) =~= events);
    }
}

/// A pause fires nothing.
pub proof fn lemma_fires_of_pause(pause_ms: u64)
    ensures
        fires_of(pause_steps(pause_ms)) == Seq::<EventView>::empty(),
{
    if pause_ms > 0 {
        let s = pause_steps(pause_ms);
        assert(s.drop_last() =~= Seq::<PlanStepView>::empty());
        assert(fires_of(Seq::<PlanStepView>::empty()) == Seq::<EventView>::empty());
        assert(fires_of(s) =~= Seq::<EventView>::empty());
    } else {
        assert(fires_of(pause_steps(pause_ms)) =~= Seq::<EventView>::empty());
    }
}

/// Loop-count semantics: the plan of a finite run fires the full event
/// sequence exactly `n` times, and nothing else.
pub proof fn lemma_plan_fires_exactly_n_times(
    events: Seq<EventView>,
    speed_milli: u32,
    n: nat,
    pause_ms: u64,
)
    ensures
        fires_of(plan_steps(events, speed_milli, n, pause_ms)) == repeat_events(events, n),
        repeat_events(events, n).len() == n * events.len(),
    decreases n,
{
    if n == 0 {
        assert(fires_of(plan_steps(events, speed_milli, n, pause_ms)) =~= repeat_events(
            events,
            n,
        ));
        assert(n * events.len() == 0) by (nonlinear_arith)
            requires n == 0,
        ;
    } else {
        lemma_plan_fires_exactly_n_times(events, speed_milli, (n - 1) as nat, pause_ms);
        let prefix = plan_steps(events, speed_milli, (n - 1) as nat, pause_ms);
        let pass = pass_steps(events, speed_milli);
        lemma_fires_of_add(prefix + pass, pause_steps(pause_ms));
        lemma_fires_of_add(prefix, pass);
        lemma_fires_of_pass(events, speed_milli);
        lemma_fires_of_pause(pause_ms);
        assert(fires_of(plan_steps(events, speed_milli, n, pause_ms)) =~= repeat_events(
            events,
            n,
        ));
        assert((n - 1) * events.len() + events.len() == n * events.len()) by (nonlinear_arith)
            requires n >= 1,
        ;
    }
}

/// Build the steps of a single pass over an event list.
pub fn single_pass_plan(events: &Vec<ScriptEvent>, speed_milli: u32) -> (r: Vec<PlanStep>)
    requires
        speed_milli > 0,
    ensures
        r.deep_view() == pass_steps(events.deep_view(), speed_milli),
{
    let mut steps: Vec<PlanStep> = Vec::new();
    let mut j: usize = 0;
    while j < events.len()
        invariant
            j <= events.len(),
            speed_milli > 0,
            steps.deep_view() =~= pass_steps(events.deep_view(), speed_milli).take(j as int),
        decreases events.len() - j,
    {
        let wait = effective_wait_ms(events[j].delay_ms(), speed_milli);
        let ghost prev = steps.deep_view();
        steps.push(PlanStep::Fire { wait_ms: wait, event: events[j].clone() });
        proof {
            assert(steps.deep_view() =~= prev.push(
                pass_steps(events.deep_view(), speed_milli)[j as int],
            ));
            assert(steps.deep_view() =~= pass_steps(events.deep_view(), speed_milli).take(
                j + 1 as int,
            ));
        }
        j = j + 1;
    }
    proof {
        assert(steps.deep_view() =~= pass_steps(events.deep_view(), speed_milli));
    }
    steps
}

/// Build the full plan of a finite run: the script's event sequence,
/// speed-scaled, repeated `loop_config.count` times with the configured
/// pause after each pass.
pub fn build_plan(script: &Script) -> (r: Vec<PlanStep>)
    requires
        script@.loop_config.count > 0,
        script@.wf(),
    ensures
        r.deep_view() == plan_steps(
            script@.events,
            script@.speed_milli,
            script@.loop_config.count as nat,
            script@.loop_config.delay_between_ms,
        ),
{
    let count = script.loop_config.count;
    let pause = script.loop_config.delay_between_ms;
    let speed = script.speed_milli;
    let ghost evs = script@.events;
    let mut plan: Vec<PlanStep> = Vec::new();
    let mut l: u32 = 0;
    while l < count
        invariant
            l <= count,
            speed > 0,
            speed == script@.speed_milli,
            pause == script@.loop_config.delay_between_ms,
            count == script@.loop_config.count,
            evs == script@.events,
            script.events.deep_view() == evs,
            plan.deep_view() =~= plan_steps(evs, speed, l as nat, pause),
        decreases count - l,
    {
        let pass = single_pass_plan(&script.events, speed);
        let mut k: usize = 0;
        while k < pass.len()
            invariant
                k <= pass.len(),
                pass.deep_view() == pass_steps(evs, speed),
                plan.deep_view() =~= plan_steps(evs, speed, l as nat, pause) + pass.deep_view().take(
                    k as int,
                ),
            decreases pass.len() - k,
        {
            let ghost prev = plan.deep_view();
            plan.push(pass[k].clone_step());
            proof {
                assert(plan.deep_view() =~= prev.push(pass.deep_view()[k as int]));
                assert(plan.deep_view() =~= plan_steps(evs, speed, l as nat, pause)
                    + pass.deep_view().take(k + 1 as int));
            }
            k = k + 1;
        }
        proof {
            assert(pass.deep_view().take(pass.deep_view().len() as int) =~= pass.deep_view());
        }
        if pause > 0 {
            let ghost prev = plan.deep_view();
            plan.push(PlanStep::LoopPause { wait_ms: pause });
            proof {
                assert(plan.deep_view() =~= prev.push(PlanStepView::LoopPause { wait_ms: pause }));
            }
        }
        proof {
            assert(plan.deep_view() =~= plan_steps(evs, speed, (l + 1) as nat, pause));
        }
        l = l + 1;
    }
    plan
}

impl PlanStep {
    /// Copy one plan step.
    pub fn clone_step(&self) -> (r: PlanStep)
        ensures
            r@ == self@,
    {
        match self {
            PlanStep::Fire { wait_ms, event } => PlanStep::Fire {
                wait_ms: *wait_ms,
                event: event.clone(),
            },
            PlanStep::LoopPause { wait_ms } => PlanStep::LoopPause { wait_ms: *wait_ms },
        }
    }
}

} // verus!
