//! The keystroke alphabet of the orchestration layer.
//!
//! The binary translates raw terminal events into this enum before handing
//! them to any state machine here; keys the layer never reacts to arrive as
//! `Other`.

use vstd::prelude::*;

verus! {

/// One key press, as seen by the view state machines.
#[derive(Clone, Copy, Debug, PartialEq, Eq, Structural)]
pub enum Key {
    Char(char),
    Enter,
    Esc,
    Tab,
    Up,
    Down,
    Left,
    Right,
    Other,
}

} // verus!
