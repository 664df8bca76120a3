//! The keyboard side of the client: which local event is a toggle, and which
//! events toggle the local player.
use crate::config::Keys;
use crate::input::InputEvent;
use crate::input::Key;
use vstd::prelude::*;

verus! {

/// The system refused to simulate an input event.
#[derive(Clone, Copy, Debug, PartialEq, Eq, Structural)]
pub struct SimulationError;

/// Watches the toggle key and presses the playback key.
pub struct PeripheryHandler {
    keys: Keys,
}

impl PeripheryHandler {
    pub closed spec fn keys(&self) -> Keys {
        self.keys
    }

    pub fn new(keys: Keys) -> (h: PeripheryHandler)
        ensures
            h.keys() == keys,
    {
        PeripheryHandler { keys }
    }

    /// The key whose press is broadcast as a toggle.
    pub fn toggle_key(&self) -> (k: Key)
        ensures
            k == self.keys().toggle,
    {
        self.keys.toggle
    }

    /// Whether a local input event is a press of the toggle key; releases,
    /// other keys and mouse events are not.
    pub fn is_toggle_press(&self, event: &InputEvent) -> (r: bool)
        ensures
            r == (*event == InputEvent::KeyPress(self.keys().toggle)),
    {
        match event {
            InputEvent::KeyPress(key) => *key == self.keys.toggle,
            _ => false,
        }
    }

    /// The events simulated, in order, to toggle the local player: a press
    /// and a release of the playback key. Simulation stops at the first
    /// event that the system refuses.
    pub fn playback_press_events(&self) -> (v: Vec<InputEvent>)
        ensures
            v@ == seq![
                InputEvent::KeyPress(self.keys().playback),
                InputEvent::KeyRelease(self.keys().playback),
            ],
    {
        let mut v: Vec<InputEvent> = Vec::new();
        v.push(InputEvent::KeyPress(self.keys.playback));
        v.push(InputEvent::KeyRelease(self.keys.playback));
        v
    }
}

} // verus!
