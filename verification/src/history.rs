//! The undo log: a strict LIFO stack of semantically tagged events, one
//! per committed reversible action.

use vstd::prelude::*;

use crate::equipment::{HorizontalLadderKey, RopeKey, VerticalLadderKey};
use crate::player::Player;

verus! {

/// One committed, reversible action. Move events store the complete
/// previous actor state, so undoing needs no diffing; placement events
/// store the key whose occupancy they changed.
#[derive(Debug, Clone, Copy, PartialEq, Eq, Structural)]
pub enum PlayerHistoryEvent {
    /// An ordinary committed move; holds the actor state it replaced.
    PlayerMove(Player),
    /// A committed move that ended on the scale collectible.
    PlayerMoveToScale(Player),
    /// A committed move that ended on the gem collectible.
    PlayerMoveToGem(Player),
    PlaceVerticalLadder(VerticalLadderKey),
    PlaceHorizontalLadder(HorizontalLadderKey),
    PlaceRope(RopeKey),
    PickUpVerticalLadder(VerticalLadderKey),
    PickUpHorizontalLadder(HorizontalLadderKey),
    PlaceRune,
    /// A rune countdown reached zero during a move: target tile and the
    /// placement stamp of the rune that fired.
    Teleport { x: u8, y: u8, timestamp: u64 },
}

/// The append-only stack of committed events. Only the top is ever
/// inverted; there is no redo.
#[derive(Debug)]
pub struct PlayerHistory(pub Vec<PlayerHistoryEvent>);

impl PlayerHistory {
    pub fn new() -> (r: Self)
        ensures
            r.0@ == Seq::<PlayerHistoryEvent>::empty(),
    {
        PlayerHistory(Vec::new())
    }

    pub fn push(&mut self, event: PlayerHistoryEvent)
        ensures
            final(self).0@ == old(self).0@.push(event),
    {
        self.0.push(event);
    }

    pub fn pop(&mut self) -> (r: Option<PlayerHistoryEvent>)
        ensures
            old(self).0@.len() == 0 ==> r is None && final(self).0@ == old(self).0@,
            old(self).0@.len() > 0 ==> r == Some(old(self).0@.last()) && final(self).0@ == old(
                self,
            ).0@.drop_last(),
    {
        self.0.pop()
    }

    pub fn clear(&mut self)
        ensures
            final(self).0@ == Seq::<PlayerHistoryEvent>::empty(),
    {
        self.0 = Vec::new();
    }

    pub fn len(&self) -> (r: usize)
        ensures
            r == self.0@.len(),
    {
        self.0.len()
    }
}

} // verus!
