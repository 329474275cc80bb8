//! Input capture and replay core: a recorder for keyboard/mouse event
//! streams, a playback scheduler with speed scaling and looping, a macro
//! trigger table, and the arbiter that routes every raw input event to at
//! most one of them.

use vstd::prelude::*;

pub mod arbiter;
pub mod clock;
pub mod hotkey;
pub mod macro_trigger;
pub mod player;
pub mod recorder;
pub mod script;

verus! {

/// Errors reported by the control surface.
#[derive(Clone, Copy, Debug, PartialEq, Eq, Structural)]
pub enum Error {
    /// A recording session is already active.
    AlreadyRecording,
    /// A playback run is already active.
    AlreadyPlaying,
    /// Playback of a script with no events was requested.
    EmptyScript,
    /// A trigger description named an unknown trigger kind.
    InvalidTriggerType,
    /// A trigger description named an unknown mouse button.
    InvalidMouseButton,
}

impl Error {
    /// A human-readable description of the error.
    pub fn message(&self) -> (r: String)
        ensures
            *self == Error::AlreadyRecording ==> r@ == "Already recording"@,
            *self == Error::AlreadyPlaying ==> r@ == "Already playing"@,
            *self == Error::EmptyScript ==> r@ == "Script has no events"@,
            *self == Error::InvalidTriggerType ==> r@ == "Invalid trigger type"@,
            *self == Error::InvalidMouseButton ==> r@ == "Invalid mouse button"@,
    {
        match self {
            Error::AlreadyRecording => "Already recording".to_owned(),
            Error::AlreadyPlaying => "Already playing".to_owned(),
            Error::EmptyScript => "Script has no events".to_owned(),
            Error::InvalidTriggerType => "Invalid trigger type".to_owned(),
            Error::InvalidMouseButton => "Invalid mouse button".to_owned(),
        }
    }
}

} // verus!
