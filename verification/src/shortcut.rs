//! The shortcut debouncer: turns a stream of raw key press/release
//! events into shortcut activations.
//!
//! Three held-flags track the keys of interest.  Every event first
//! updates the flag it concerns, then the activation rules are evaluated
//! on the fresh snapshot, in fixed priority order.  Evaluation is
//! level-triggered: a qualifying combination re-fires on every event
//! that leaves it standing, key repeats included; any debouncing of
//! repeated activations is the caller's affair.

use vstd::prelude::*;

verus! {

/// The keys the detector tracks.
#[derive(Clone, Copy, PartialEq, Eq, Structural, Debug)]
pub enum TrackedKey {
    Alt,
    Space,
    KeyH,
}

/// One raw keyboard event, as the platform hook reports it; anything
/// not concerning a tracked key arrives as `Other`.
#[derive(Clone, Copy, PartialEq, Eq, Structural, Debug)]
pub enum KeyEvent {
    Press(TrackedKey),
    Release(TrackedKey),
    Other,
}

/// A recognized shortcut.
#[derive(Clone, Copy, PartialEq, Eq, Structural, Debug)]
pub enum ShortcutType {
    ToggleRecording,
    ShowMenu,
}

/// The held-state of the tracked keys.
pub struct ShortcutDetector {
    pub alt_pressed: bool,
    pub space_pressed: bool,
    pub h_pressed: bool,
}

impl ShortcutDetector {
    /// A detector with every tracked key up.
    pub fn new() -> (d: ShortcutDetector)
        ensures
            !d.alt_pressed,
            !d.space_pressed,
            !d.h_pressed,
    {
        ShortcutDetector { alt_pressed: false, space_pressed: false, h_pressed: false }
    }

    /// The held-flags after one event: the flag of the key the event
    /// concerns follows the event's direction, the others stand.
    pub open spec fn after_event(self, event: KeyEvent) -> ShortcutDetector {
        match event {
            KeyEvent::Press(TrackedKey::Alt) => ShortcutDetector { alt_pressed: true, ..self },
            KeyEvent::Press(TrackedKey::Space) => ShortcutDetector { space_pressed: true, ..self },
            KeyEvent::Press(TrackedKey::KeyH) => ShortcutDetector { h_pressed: true, ..self },
            KeyEvent::Release(TrackedKey::Alt) => ShortcutDetector { alt_pressed: false, ..self },
            KeyEvent::Release(TrackedKey::Space) => ShortcutDetector {
                space_pressed: false,
                ..self
            },
            KeyEvent::Release(TrackedKey::KeyH) => ShortcutDetector { h_pressed: false, ..self },
            KeyEvent::Other => self,
        }
    }

    /// The activation a snapshot of the held-flags yields, in priority
    /// order: toggle first, then the menu, else nothing.
    pub open spec fn activation(self) -> Option<ShortcutType> {
        if self.alt_pressed && self.space_pressed {
            Some(ShortcutType::ToggleRecording)
        } else if self.alt_pressed && self.h_pressed {
            Some(ShortcutType::ShowMenu)
        } else {
            None
        }
    }

    /// Feed one event: update the concerned flag, then report the
    /// activation the fresh snapshot yields.  Level-triggered: the same
    /// combination fires again on every further qualifying event.
    pub fn handle_event(&mut self, event: KeyEvent) -> (r: Option<ShortcutType>)
        ensures
            *final(self) == old(self).after_event(event),
            r == final(self).activation(),
    {
        match event {
            KeyEvent::Press(TrackedKey::Alt) => {
                self.alt_pressed = true;
            },
            KeyEvent::Press(TrackedKey::Space) => {
                self.space_pressed = true;
            },
            KeyEvent::Press(TrackedKey::KeyH) => {
                self.h_pressed = true;
            },
            KeyEvent::Release(TrackedKey::Alt) => {
                self.alt_pressed = false;
            },
            KeyEvent::Release(TrackedKey::Space) => {
                self.space_pressed = false;
            },
            KeyEvent::Release(TrackedKey::KeyH) => {
                self.h_pressed = false;
            },
            KeyEvent::Other => {},
        }
        if self.alt_pressed && self.space_pressed {
            Some(ShortcutType::ToggleRecording)
        } else if self.alt_pressed && self.h_pressed {
            Some(ShortcutType::ShowMenu)
        } else {
            None
        }
    }
}

} // verus!
