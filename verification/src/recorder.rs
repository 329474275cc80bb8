//! Recording state machine: the "am I recording" flag, the growing event
//! log, the delay clock, and the cursor-position cache.
//!
//! The backend clock is handed in as a plain argument (`now_ms`,
//! milliseconds on a monotone clock), so delay bookkeeping is verified for
//! every possible reading. The caller that owns the real clock is expected
//! to pass non-decreasing readings; a reading earlier than the previous one
//! yields an elapsed time of zero rather than a panic.

use vstd::prelude::*;

use crate::script::{clone_events, EventView, ScriptEvent};

verus! {

/// Mathematical model of a [`RecordingState`].
pub ghost struct RecorderView {
    pub recording: bool,
    pub events: Seq<EventView>,
    pub clock_armed: bool,
    pub last_event_ms: u64,
    pub mouse_x: i64,
    pub mouse_y: i64,
}

/// Milliseconds elapsed since the last committed event (or since recording
/// started), given the clock reading `now_ms`; zero before the first
/// `start`, and zero if the clock appears to have gone backwards.
pub open spec fn spec_elapsed(s: RecorderView, now_ms: u64) -> u64 {
    if s.clock_armed && now_ms >= s.last_event_ms {
        (now_ms - s.last_event_ms) as u64
    } else {
        0
    }
}

/// Committing an event at clock reading `now_ms`: append it and advance the
/// delay clock. A commit while not recording is a no-op.
pub open spec fn spec_commit(s: RecorderView, ev: EventView, now_ms: u64) -> RecorderView {
    if s.recording {
        RecorderView { events: s.events.push(ev), clock_armed: true, last_event_ms: now_ms, ..s }
    } else {
        s
    }
}

/// Recording state manager.
pub struct RecordingState {
    /// Whether recording is active
    pub recording: bool,
    /// Recorded events
    pub events: Vec<ScriptEvent>,
    /// Whether the delay clock has been armed by a `start` or a commit
    pub clock_armed: bool,
    /// Clock reading at the last commit (or at `start`)
    pub last_event_ms: u64,
    /// Current mouse position, x in pixels
    pub mouse_x: i64,
    /// Current mouse position, y in pixels
    pub mouse_y: i64,
}

impl View for RecordingState {
    type V = RecorderView;

    open spec fn view(&self) -> RecorderView {
        RecorderView {
            recording: self.recording,
            events: self.events.deep_view(),
            clock_armed: self.clock_armed,
            last_event_ms: self.last_event_ms,
            mouse_x: self.mouse_x,
            mouse_y: self.mouse_y,
        }
    }
}

impl RecordingState {
    /// A fresh, idle recorder: not recording, empty log, clock unarmed.
    pub fn new() -> (r: RecordingState)
        ensures
            r@ == (RecorderView {
                recording: false,
                events: Seq::<EventView>::empty(),
                clock_armed: false,
                last_event_ms: 0u64,
                mouse_x: 0i64,
                mouse_y: 0i64,
            }),
    {
        let r = RecordingState {
            recording: false,
            events: Vec::new(),
            clock_armed: false,
            last_event_ms: 0,
            mouse_x: 0,
            mouse_y: 0,
        };
        proof {
            assert(r@.events =~= Seq::<EventView>::empty());
        }
        r
    }

    /// Whether recording is active.
    pub fn is_recording(&self) -> (r: bool)
        ensures
            r == self@.recording,
    {
        self.recording
    }

    /// Begin a session at clock reading `now_ms`: clear the log, reset the
    /// delay clock, raise the flag. The cursor cache is kept.
    pub fn start(&mut self, now_ms: u64)
        ensures
            final(self)@ == (RecorderView {
                recording: true,
                events: Seq::<EventView>::empty(),
                clock_armed: true,
                last_event_ms: now_ms,
                mouse_x: old(self)@.mouse_x,
                mouse_y: old(self)@.mouse_y,
            }),
    {
        self.events.clear();
        self.last_event_ms = now_ms;
        self.clock_armed = true;
        self.recording = true;
        proof {
            assert(self@.events =~= Seq::<EventView>::empty());
        }
    }

    /// End the session: only the flag changes; the log survives so that it
    /// can still be read afterwards.
    pub fn stop(&mut self)
        ensures
            final(self)@ == (RecorderView { recording: false, ..old(self)@ }),
    {
        self.recording = false;
    }

    /// Append an event as-is, without touching the delay clock; a no-op
    /// while not recording.
    pub fn add_event(&mut self, event: ScriptEvent)
        ensures
            old(self)@.recording ==> final(self)@ == (RecorderView {
                events: old(self)@.events.push(event@),
                ..old(self)@
            }),
            !old(self)@.recording ==> final(self)@ == old(self)@,
    {
        if self.recording {
            self.events.push(event);
            proof {
                assert(self@.events =~= old(self)@.events.push(event@));
            }
        }
    }

    /// Snapshot of the accumulated events.
    pub fn get_events(&self) -> (r: Vec<ScriptEvent>)
        ensures
            r.deep_view() == self@.events,
    {
        clone_events(&self.events)
    }

    /// Milliseconds elapsed since the last commit, at clock reading
    /// `now_ms`.
    pub fn get_elapsed_ms(&self, now_ms: u64) -> (r: u64)
        ensures
            r == spec_elapsed(self@, now_ms),
    {
        if self.clock_armed && now_ms >= self.last_event_ms {
            now_ms - self.last_event_ms
        } else {
            0
        }
    }

    /// Commit an event at clock reading `now_ms`: advance the delay clock
    /// and append. A no-op while not recording.
    pub fn commit_event(&mut self, event: ScriptEvent, now_ms: u64)
        ensures
            final(self)@ == spec_commit(old(self)@, event@, now_ms),
    {
        if !self.recording {
            return ;
        }
        self.last_event_ms = now_ms;
        self.clock_armed = true;
        self.events.push(event);
        proof {
            assert(self@.events =~= old(self)@.events.push(event@));
        }
    }

    /// Refresh the cursor cache without committing an event.
    pub fn update_mouse_position(&mut self, x: i64, y: i64)
        ensures
            final(self)@ == (RecorderView { mouse_x: x, mouse_y: y, ..old(self)@ }),
    {
        self.mouse_x = x;
        self.mouse_y = y;
    }

    /// The most recently cached cursor position.
    pub fn get_mouse_position(&self) -> (r: (i64, i64))
        ensures
            r.0 == self@.mouse_x,
            r.1 == self@.mouse_y,
    {
        (self.mouse_x, self.mouse_y)
    }
}

impl Default for RecordingState {
    fn default() -> (r: RecordingState)
        ensures
            r@ == (RecorderView {
                recording: false,
                events: Seq::<EventView>::empty(),
                clock_armed: false,
                last_event_ms: 0u64,
                mouse_x: 0i64,
                mouse_y: 0i64,
            }),
    {
        RecordingState::new()
    }
}

} // verus!
