//! Pausing the player with a click in the middle of the main screen.
use crate::input::Button;
use crate::input::InputEvent;
use crate::periphery::SimulationError;
use vstd::prelude::*;

verus! {

/// The events of a pause: the cursor moves to the centre of a screen of
/// `width` by `height` pixels, the left button goes down and up, and the
/// cursor moves back to where it was.
pub open spec fn click_center_sequence(width: u64, height: u64, x: i64, y: i64) -> Seq<InputEvent> {
    seq![
        InputEvent::MouseMove { x: (width / 2) as i64, y: (height / 2) as i64 },
        InputEvent::ButtonPress(Button::Left),
        InputEvent::ButtonRelease(Button::Left),
        InputEvent::MouseMove { x, y },
    ]
}

/// A pause leaves the cursor where it was: its last event moves the cursor
/// back to (`x`, `y`), wherever that is. Its first event moves the cursor to
/// the middle of the screen (half of each side, rounded down), wherever the
/// cursor was; in between, the left button goes down, then up.
pub proof fn lemma_click_returns_cursor(width: u64, height: u64, x: i64, y: i64, x2: i64, y2: i64)
    ensures
        click_center_sequence(width, height, x, y).len() == 4,
        click_center_sequence(width, height, x, y).last() == (InputEvent::MouseMove { x, y }),
        click_center_sequence(width, height, x, y)[0] == click_center_sequence(width, height, x2, y2)[0],
        click_center_sequence(width, height, x, y)[0] matches InputEvent::MouseMove { x: cx, y: cy }
            && 2 * cx <= width < 2 * cx + 2 && 2 * cy <= height < 2 * cy + 2,
        click_center_sequence(width, height, x, y)[1] == InputEvent::ButtonPress(Button::Left),
        click_center_sequence(width, height, x, y)[2] == InputEvent::ButtonRelease(Button::Left),
{
    assert(width / 2 <= i64::MAX);
    assert(height / 2 <= i64::MAX);
}

/// Pauses and resumes the player by clicking in the middle of the screen.
pub struct Clicker {}

impl Clicker {
    /// A clicker; making one never fails.
    pub fn new() -> (r: Result<Clicker, SimulationError>)
        ensures
            r is Ok,
    {
        Ok(Clicker {})
    }

    /// The events simulated, in order, by a click in the centre of the main
    /// screen (`width` by `height` pixels) with the cursor at (`x`, `y`).
    /// Simulation stops at the first event that the system refuses.
    pub fn click_center_events(&self, width: u64, height: u64, x: i64, y: i64) -> (v: Vec<InputEvent>)
        ensures
            v@ == click_center_sequence(width, height, x, y),
    {
        let cx: i64 = (width / 2) as i64;
        let cy: i64 = (height / 2) as i64;
        let mut v: Vec<InputEvent> = Vec::new();
        v.push(InputEvent::MouseMove { x: cx, y: cy });
        v.push(InputEvent::ButtonPress(Button::Left));
        v.push(InputEvent::ButtonRelease(Button::Left));
        v.push(InputEvent::MouseMove { x, y });
        assert(v@ =~= click_center_sequence(width, height, x, y));
        v
    }
}

} // verus!
