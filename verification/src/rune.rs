//! Rewind runes: placed teleport anchors with a per-move countdown.

use vstd::prelude::*;

verus! {

/// Number of committed moves before a freshly placed rune fires.
pub const RUNE_COUNTDOWN: u8 = 5;

/// A placed rune. It remembers the tile it sits on and the stamina the
/// player had when placing it; when the countdown reaches zero the
/// player is pulled back to `(x, y)` with that stamina. `timestamp` is a
/// strictly increasing placement stamp used to tell runes apart when the
/// most recent placement has to be undone.
#[derive(Debug, Clone, Copy, PartialEq, Eq, Structural)]
pub struct RewindRune {
    pub x: u8,
    pub y: u8,
    pub countdown: u8,
    pub stamina: u16,
    pub timestamp: u64,
}

} // verus!
