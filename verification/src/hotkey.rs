//! Hotkey state: the three rebindable control keys (recording toggle,
//! playback toggle, emergency stop) and the notification payload sent to
//! the excluded GUI layer.

use vstd::prelude::*;

use crate::script::{KeyView, KeyboardKey};

verus! {

/// Mathematical model of a [`HotkeyState`].
pub ghost struct HotkeyView {
    pub recording_key: KeyView,
    pub playback_key: KeyView,
    pub stop_key: KeyView,
}

impl HotkeyView {
    /// Whether `key` is a member of the configured hotkey set.
    pub open spec fn is_hotkey(self, key: KeyView) -> bool {
        key == self.recording_key || key == self.playback_key || key == self.stop_key
    }
}

/// Hotkey state manager.
pub struct HotkeyState {
    /// Recording hotkey (default: F9)
    pub recording_key: KeyboardKey,
    /// Playback hotkey (default: F10)
    pub playback_key: KeyboardKey,
    /// Stop hotkey (default: Escape)
    pub stop_key: KeyboardKey,
}

impl View for HotkeyState {
    type V = HotkeyView;

    open spec fn view(&self) -> HotkeyView {
        HotkeyView {
            recording_key: self.recording_key@,
            playback_key: self.playback_key@,
            stop_key: self.stop_key@,
        }
    }
}

impl HotkeyState {
    /// The default bindings: F9, F10, Escape.
    pub fn new() -> (r: HotkeyState)
        ensures
            r@.recording_key == KeyView::Special("F9"@),
            r@.playback_key == KeyView::Special("F10"@),
            r@.stop_key == KeyView::Special("Escape"@),
    {
        HotkeyState {
            recording_key: KeyboardKey::Special("F9".to_owned()),
            playback_key: KeyboardKey::Special("F10".to_owned()),
            stop_key: KeyboardKey::Special("Escape".to_owned()),
        }
    }

    pub fn get_recording_key(&self) -> (r: KeyboardKey)
        ensures
            r@ == self@.recording_key,
    {
        self.recording_key.clone()
    }

    pub fn get_playback_key(&self) -> (r: KeyboardKey)
        ensures
            r@ == self@.playback_key,
    {
        self.playback_key.clone()
    }

    pub fn get_stop_key(&self) -> (r: KeyboardKey)
        ensures
            r@ == self@.stop_key,
    {
        self.stop_key.clone()
    }

    /// Rebind any subset of the three hotkeys; a `None` keeps the binding.
    pub fn set_hotkeys(
        &mut self,
        recording: Option<KeyboardKey>,
        playback: Option<KeyboardKey>,
        stop: Option<KeyboardKey>,
    )
        ensures
            final(self)@.recording_key == (match recording {
                Option::Some(k) => k@,
                Option::None => old(self)@.recording_key,
            }),
            final(self)@.playback_key == (match playback {
                Option::Some(k) => k@,
                Option::None => old(self)@.playback_key,
            }),
            final(self)@.stop_key == (match stop {
                Option::Some(k) => k@,
                Option::None => old(self)@.stop_key,
            }),
    {
        if let Some(key) = recording {
            self.recording_key = key;
        }
        if let Some(key) = playback {
            self.playback_key = key;
        }
        if let Some(key) = stop {
            self.stop_key = key;
        }
    }

    /// Whether `key` is one of the three configured hotkeys (structural
    /// comparison).
    pub fn is_hotkey(&self, key: &KeyboardKey) -> (r: bool)
        ensures
            r == self@.is_hotkey(key@),
    {
        key.matches(&self.recording_key) || key.matches(&self.playback_key) || key.matches(
            &self.stop_key,
        )
    }
}

impl Default for HotkeyState {
    fn default() -> (r: HotkeyState)
        ensures
            r@.recording_key == KeyView::Special("F9"@),
            r@.playback_key == KeyView::Special("F10"@),
            r@.stop_key == KeyView::Special("Escape"@),
    {
        HotkeyState::new()
    }
}

/// Notification payload for the excluded GUI layer.
#[derive(Debug)]
pub struct HotkeyEvent {
    /// One of: recording-started, recording-stopped, playback-stopped,
    /// playback-requested, emergency-stop
    pub action: String,
    /// Whether recording is active after the transition
    pub recording: bool,
    /// Whether playback is active after the transition
    pub playing: bool,
}

/// Mathematical model of a [`HotkeyEvent`].
pub ghost struct HotkeyEventView {
    pub action: Seq<char>,
    pub recording: bool,
    pub playing: bool,
}

impl View for HotkeyEvent {
    type V = HotkeyEventView;

    open spec fn view(&self) -> HotkeyEventView {
        HotkeyEventView { action: self.action@, recording: self.recording, playing: self.playing }
    }
}

impl Clone for HotkeyEvent {
    fn clone(&self) -> (r: HotkeyEvent)
        ensures
            r@ == self@,
    {
        HotkeyEvent {
            action: self.action.clone(),
            recording: self.recording,
            playing: self.playing,
        }
    }
}

} // verus!
