//! The turn controller: one discrete turn at a time, it feeds decoded
//! commands to the movement rules, commits the results, applies the
//! secondary effects (rune countdowns, teleports, collectible pickups)
//! and records every committed mutation in the undo log so that it can
//! be exactly reversed.

use vstd::prelude::*;

use crate::direction::{Alignment, CardinalDirection};
use crate::equipment::{HorizontalLadderKey, RopeKey, VerticalLadderKey};
use crate::history::{PlayerHistory, PlayerHistoryEvent};
use crate::inventory::{Equipment, Inventory, POTION_STAMINA};
use crate::level::Level;
use crate::map::GridMap;
use crate::player::{Player, PlayerState};
use crate::rune::{RewindRune, RUNE_COUNTDOWN};

verus! {

/// What one directional command did.
#[derive(Debug, Clone, Copy, PartialEq, Eq, Structural)]
pub enum TurnOutcome {
    /// The movement rules rejected the command; nothing changed.
    Rejected,
    /// A standing actor merely turned; nothing was logged.
    Refaced,
    /// An ordinary committed move.
    Moved,
    /// A committed move that ended on the scale collectible.
    MovedToScale,
    /// A committed move that ended on the gem collectible.
    MovedToGem,
    /// A rune countdown hit zero: the actor was pulled to the rune tile
    /// instead of completing the move.
    Teleported,
}

/// What one undo command did. Placement undos carry the handle the
/// presentation layer should despawn; pickup undos carry the freshly
/// minted handle it should spawn. `None` marks a skipped, inconsistent
/// inverse (the slot was not in the state the log promised), which the
/// session survives without changing the tables.
#[derive(Debug, Clone, Copy, PartialEq, Eq)]
pub enum UndoOutcome {
    NothingToUndo,
    UndidMove,
    UndidMoveToScale,
    UndidMoveToGem,
    UndidPlaceVerticalLadder(Option<u64>),
    UndidPlaceHorizontalLadder(Option<u64>),
    UndidPlaceRope(Option<u64>),
    UndidPickUpVerticalLadder(Option<u64>),
    UndidPickUpHorizontalLadder(Option<u64>),
    UndidPlaceRune(bool),
    UndidTeleport,
}

/// The mutable part of a session as one mathematical value; the terrain
/// and budgets are carried separately since no turn changes them.
#[verifier::ext_equal]
pub struct SessionView {
    pub player: Player,
    pub runes: Seq<RewindRune>,
    pub history: Seq<PlayerHistoryEvent>,
    pub vertical_ladders: Map<VerticalLadderKey, u64>,
    pub horizontal_ladders: Map<HorizontalLadderKey, u64>,
    pub ropes: Map<RopeKey, u64>,
    pub inventory: Inventory,
    pub scale_counter: u8,
    pub scale_present: bool,
    pub has_gem: bool,
    pub next_handle: u64,
    pub next_stamp: u64,
}

/// Increment that sticks at the top of the counter's range instead of
/// overflowing.
pub open spec fn inc_u8(c: u8) -> u8 {
    if c < 255 {
        (c + 1) as u8
    } else {
        c
    }
}

/// Decrement that sticks at zero instead of underflowing.
pub open spec fn dec_u8(c: u8) -> u8 {
    if c > 0 {
        (c - 1) as u8
    } else {
        0
    }
}

pub open spec fn inc_u64(c: u64) -> u64 {
    if c < 0xffff_ffff_ffff_ffff {
        (c + 1) as u64
    } else {
        c
    }
}

/// One move of the rune's countdown.
pub open spec fn dec_rune(r: RewindRune) -> RewindRune
    recommends
        r.countdown >= 1,
{
    RewindRune { countdown: (r.countdown - 1) as u8, ..r }
}

/// The exact inverse of [`dec_rune`], sticking at the top of the range.
pub open spec fn inc_rune(r: RewindRune) -> RewindRune {
    if r.countdown < 255 {
        RewindRune { countdown: (r.countdown + 1) as u8, ..r }
    } else {
        r
    }
}

/// Every rune one tick closer to firing.
pub open spec fn decremented_runes(runes: Seq<RewindRune>) -> Seq<RewindRune> {
    runes.map_values(|r: RewindRune| dec_rune(r))
}

/// Every rune rolled back one tick.
pub open spec fn incremented_runes(runes: Seq<RewindRune>) -> Seq<RewindRune> {
    runes.map_values(|r: RewindRune| inc_rune(r))
}

/// The runes that survive a countdown tick: each decremented, those that
/// hit zero despawned.
pub open spec fn live_after_decrement(runes: Seq<RewindRune>) -> Seq<RewindRune>
    decreases runes.len(),
{
    if runes.len() == 0 {
        Seq::empty()
    } else {
        let rest = live_after_decrement(runes.drop_last());
        let d = dec_rune(runes.last());
        if d.countdown == 0 {
            rest
        } else {
            rest.push(d)
        }
    }
}

/// Of the runes that hit zero this tick, the last one in placement
/// order; it decides where the actor ends up.
pub open spec fn last_zero_rune(runes: Seq<RewindRune>) -> Option<RewindRune>
    decreases runes.len(),
{
    if runes.len() == 0 {
        None
    } else {
        let d = dec_rune(runes.last());
        if d.countdown == 0 {
            Some(d)
        } else {
            last_zero_rune(runes.drop_last())
        }
    }
}

/// Index of the most recently placed rune: the first one whose
/// placement stamp no later rune exceeds.
pub open spec fn latest_rune_index(runes: Seq<RewindRune>) -> int
    decreases runes.len(),
{
    if runes.len() <= 1 {
        0
    } else {
        let i = latest_rune_index(runes.drop_last());
        if runes.last().timestamp > runes[i].timestamp {
            runes.len() - 1
        } else {
            i
        }
    }
}

/// A live rune has at least one tick left and sits on the grid.
pub open spec fn rune_wf(r: RewindRune, m: GridMap) -> bool {
    &&& r.countdown >= 1
    &&& m.in_bounds(r.x as int, r.y as int)
}

pub open spec fn runes_wf(runes: Seq<RewindRune>, m: GridMap) -> bool {
    forall|i: int| 0 <= i < runes.len() ==> rune_wf(#[trigger] runes[i], m)
}

/// Stored events keep enough well-formedness for their inverses to
/// restore a well-formed world.
pub open spec fn event_wf(e: PlayerHistoryEvent, m: GridMap) -> bool {
    match e {
        PlayerHistoryEvent::PlayerMove(p) => p.wf(m),
        PlayerHistoryEvent::PlayerMoveToScale(p) => p.wf(m),
        PlayerHistoryEvent::PlayerMoveToGem(p) => p.wf(m),
        PlayerHistoryEvent::Teleport { x, y, timestamp: _ } => m.in_bounds(x as int, y as int),
        _ => true,
    }
}

pub open spec fn history_wf(events: Seq<PlayerHistoryEvent>, m: GridMap) -> bool {
    forall|i: int| 0 <= i < events.len() ==> event_wf(#[trigger] events[i], m)
}

/// The view-level well-formedness a session maintains.
pub open spec fn view_wf(s: SessionView, m: GridMap) -> bool {
    &&& s.player.wf(m)
    &&& runes_wf(s.runes, m)
    &&& history_wf(s.history, m)
}

/// Whether the committed actor state `p` picks up the scale: it stands
/// or hangs at the scale tile, a climbing actor only when clinging just
/// above it.
pub open spec fn scale_hit(cfg: GridMap, s: SessionView, p: Player) -> bool {
    &&& s.scale_present
    &&& match cfg.scale_pos {
        Some(sp) => {
            &&& p.grid_pos_x == sp.0 && p.grid_pos_y == sp.1
            &&& match p.state {
                PlayerState::Climbing(cs) => cfg.height_at(sp.0 as int, sp.1 as int)
                    == cs.elevation - 1,
                _ => true,
            }
        },
        None => false,
    }
}

/// Whether the committed actor state `p` picks up the gem.
pub open spec fn gem_hit(cfg: GridMap, s: SessionView, p: Player) -> bool {
    &&& !s.has_gem
    &&& match cfg.cave_data {
        Some(c) => match c.gem_pos {
            Some(g) => p.grid_pos_x == g.0 && p.grid_pos_y == g.1,
            None => false,
        },
        None => false,
    }
}

/// One full turn for a directional command: rule evaluation, commit,
/// rune countdown with a possible teleport override, and the collectible
/// checks, with the matching undo event logged.
pub open spec fn turn_spec(cfg: GridMap, s: SessionView, direction: CardinalDirection) -> (
    SessionView,
    TurnOutcome,
) {
    match s.player.go_spec(direction, cfg, s.has_gem) {
        None => (s, TurnOutcome::Rejected),
        Some(new_p) => {
            if s.player.spec_is_reface(new_p) {
                (SessionView { player: new_p, ..s }, TurnOutcome::Refaced)
            } else {
                match last_zero_rune(s.runes) {
                    Some(z) => (
                        SessionView {
                            player: Player {
                                stamina: z.stamina,
                                grid_pos_x: z.x,
                                grid_pos_y: z.y,
                                state: PlayerState::Standing(CardinalDirection::South),
                            },
                            runes: live_after_decrement(s.runes),
                            history: s.history.push(
                                PlayerHistoryEvent::Teleport {
                                    x: z.x,
                                    y: z.y,
                                    timestamp: z.timestamp,
                                },
                            ),
                            ..s
                        },
                        TurnOutcome::Teleported,
                    ),
                    None => {
                        let committed = SessionView {
                            player: new_p,
                            runes: decremented_runes(s.runes),
                            ..s
                        };
                        if scale_hit(cfg, s, new_p) {
                            (
                                SessionView {
                                    history: s.history.push(
                                        PlayerHistoryEvent::PlayerMoveToScale(s.player),
                                    ),
                                    scale_present: false,
                                    scale_counter: inc_u8(s.scale_counter),
                                    ..committed
                                },
                                TurnOutcome::MovedToScale,
                            )
                        } else if gem_hit(cfg, s, new_p) {
                            (
                                SessionView {
                                    history: s.history.push(
                                        PlayerHistoryEvent::PlayerMoveToGem(s.player),
                                    ),
                                    has_gem: true,
                                    ..committed
                                },
                                TurnOutcome::MovedToGem,
                            )
                        } else {
                            (
                                SessionView {
                                    history: s.history.push(
                                        PlayerHistoryEvent::PlayerMove(s.player),
                                    ),
                                    ..committed
                                },
                                TurnOutcome::Moved,
                            )
                        }
                    },
                }
            }
        },
    }
}

/// One undo: pop the top event and apply its exact inverse. An inverse
/// that finds the world inconsistent with the event is skipped rather
/// than applied blindly.
pub open spec fn undo_spec(s: SessionView) -> (SessionView, UndoOutcome) {
    if s.history.len() == 0 {
        (s, UndoOutcome::NothingToUndo)
    } else {
        let e = s.history.last();
        let h = s.history.drop_last();
        match e {
            PlayerHistoryEvent::PlayerMove(prev) => (
                SessionView { player: prev, runes: incremented_runes(s.runes), history: h, ..s },
                UndoOutcome::UndidMove,
            ),
            PlayerHistoryEvent::PlayerMoveToScale(prev) => (
                SessionView {
                    player: prev,
                    runes: incremented_runes(s.runes),
                    history: h,
                    scale_present: true,
                    scale_counter: dec_u8(s.scale_counter),
                    ..s
                },
                UndoOutcome::UndidMoveToScale,
            ),
            PlayerHistoryEvent::PlayerMoveToGem(prev) => (
                SessionView {
                    player: prev,
                    runes: incremented_runes(s.runes),
                    history: h,
                    has_gem: false,
                    ..s
                },
                UndoOutcome::UndidMoveToGem,
            ),
            PlayerHistoryEvent::PlaceVerticalLadder(k) => if s.vertical_ladders.dom().contains(k) {
                (
                    SessionView {
                        vertical_ladders: s.vertical_ladders.remove(k),
                        inventory: Inventory {
                            ladder_count: inc_u8(s.inventory.ladder_count),
                            ..s.inventory
                        },
                        history: h,
                        ..s
                    },
                    UndoOutcome::UndidPlaceVerticalLadder(Some(s.vertical_ladders[k])),
                )
            } else {
                (SessionView { history: h, ..s }, UndoOutcome::UndidPlaceVerticalLadder(None))
            },
            PlayerHistoryEvent::PlaceHorizontalLadder(k) => if s.horizontal_ladders.dom().contains(
                k,
            ) {
                (
                    SessionView {
                        horizontal_ladders: s.horizontal_ladders.remove(k),
                        inventory: Inventory {
                            ladder_count: inc_u8(s.inventory.ladder_count),
                            ..s.inventory
                        },
                        history: h,
                        ..s
                    },
                    UndoOutcome::UndidPlaceHorizontalLadder(Some(s.horizontal_ladders[k])),
                )
            } else {
                (SessionView { history: h, ..s }, UndoOutcome::UndidPlaceHorizontalLadder(None))
            },
            PlayerHistoryEvent::PlaceRope(k) => if s.ropes.dom().contains(k) {
                (
                    SessionView {
                        ropes: s.ropes.remove(k),
                        inventory: Inventory {
                            rope_count: inc_u8(s.inventory.rope_count),
                            ..s.inventory
                        },
                        history: h,
                        ..s
                    },
                    UndoOutcome::UndidPlaceRope(Some(s.ropes[k])),
                )
            } else {
                (SessionView { history: h, ..s }, UndoOutcome::UndidPlaceRope(None))
            },
            PlayerHistoryEvent::PickUpVerticalLadder(k) => if !s.vertical_ladders.dom().contains(
                k,
            ) {
                (
                    SessionView {
                        vertical_ladders: s.vertical_ladders.insert(k, s.next_handle),
                        inventory: Inventory {
                            ladder_count: dec_u8(s.inventory.ladder_count),
                            ..s.inventory
                        },
                        next_handle: inc_u64(s.next_handle),
                        history: h,
                        ..s
                    },
                    UndoOutcome::UndidPickUpVerticalLadder(Some(s.next_handle)),
                )
            } else {
                (SessionView { history: h, ..s }, UndoOutcome::UndidPickUpVerticalLadder(None))
            },
            PlayerHistoryEvent::PickUpHorizontalLadder(k) => if !s.horizontal_ladders.dom()
                .contains(k) {
                (
                    SessionView {
                        horizontal_ladders: s.horizontal_ladders.insert(k, s.next_handle),
                        inventory: Inventory {
                            ladder_count: dec_u8(s.inventory.ladder_count),
                            ..s.inventory
                        },
                        next_handle: inc_u64(s.next_handle),
                        history: h,
                        ..s
                    },
                    UndoOutcome::UndidPickUpHorizontalLadder(Some(s.next_handle)),
                )
            } else {
                (SessionView { history: h, ..s }, UndoOutcome::UndidPickUpHorizontalLadder(None))
            },
            PlayerHistoryEvent::PlaceRune => if s.runes.len() == 0 {
                (SessionView { history: h, ..s }, UndoOutcome::UndidPlaceRune(false))
            } else {
                (
                    SessionView {
                        runes: s.runes.remove(latest_rune_index(s.runes)),
                        inventory: Inventory {
                            rewind_count: inc_u8(s.inventory.rewind_count),
                            ..s.inventory
                        },
                        history: h,
                        ..s
                    },
                    UndoOutcome::UndidPlaceRune(true),
                )
            },
            PlayerHistoryEvent::Teleport { x, y, timestamp } => (
                SessionView {
                    runes: s.runes.push(
                        RewindRune { x, y, countdown: 1, stamina: s.player.stamina, timestamp },
                    ),
                    history: h,
                    ..s
                },
                UndoOutcome::UndidTeleport,
            ),
        }
    }
}

/// What a ladder toggle command did.
#[derive(Debug, Clone, Copy, PartialEq, Eq, Structural)]
pub enum LadderActionOutcome {
    /// No geometrically valid placement in front of the actor.
    NoPlacement,
    /// A valid, vacant spot, but no ladder left to place.
    OutOfLadders,
    PlacedVertical { key: VerticalLadderKey, handle: u64 },
    PickedUpVertical { key: VerticalLadderKey, handle: u64 },
    PlacedHorizontal { key: HorizontalLadderKey, handle: u64 },
    PickedUpHorizontal { key: HorizontalLadderKey, handle: u64 },
}

/// What a rope command did.
#[derive(Debug, Clone, Copy, PartialEq, Eq, Structural)]
pub enum RopeActionOutcome {
    NotStanding,
    OutOfBounds,
    NoDrop,
    AlreadyPlaced,
    OutOfRopes,
    Placed { key: RopeKey, handle: u64 },
}

/// The elevation equipment is anchored at: the actor's tile height when
/// standing, otherwise the handhold or ladder elevation.
pub open spec fn equip_height(p: Player, m: GridMap) -> u8 {
    match p.state {
        PlayerState::Standing(_) => m.height_at(p.pos_x(), p.pos_y()),
        PlayerState::Climbing(cs) => cs.elevation,
        PlayerState::StandingOnLadder(ls) => ls.elevation,
    }
}

/// The direction equipment is placed toward.
pub open spec fn equip_direction(p: Player) -> CardinalDirection {
    match p.state {
        PlayerState::Standing(d) => d,
        PlayerState::Climbing(cs) => cs.direction,
        PlayerState::StandingOnLadder(ls) => ls.direction,
    }
}

/// A vertical ladder fits against the faced tile when that tile is on
/// the grid and its wall rises at least two units above the anchor.
pub open spec fn vertical_spot_valid(m: GridMap, p: Player) -> bool {
    let d = equip_direction(p);
    let fx = p.pos_x() + d.dx();
    let fy = p.pos_y() + d.dy();
    m.in_bounds(fx, fy) && m.height_at(fx, fy) >= equip_height(p, m) + 2
}

pub open spec fn vertical_spot_key(m: GridMap, p: Player) -> VerticalLadderKey {
    let d = equip_direction(p);
    VerticalLadderKey {
        x: (p.pos_x() + d.dx()) as u8,
        y: (p.pos_y() + d.dy()) as u8,
        height: equip_height(p, m),
        direction: d,
    }
}

/// A horizontal ladder fits over the faced tile when it and the tile
/// beyond are on the grid and one end rests at the anchor height with
/// the other no higher.
pub open spec fn horizontal_spot_valid(m: GridMap, p: Player) -> bool {
    let d = equip_direction(p);
    let ph = equip_height(p, m);
    let fx = p.pos_x() + d.dx();
    let fy = p.pos_y() + d.dy();
    let gx = p.pos_x() + 2 * d.dx();
    let gy = p.pos_y() + 2 * d.dy();
    &&& m.in_bounds(fx, fy)
    &&& m.in_bounds(gx, gy)
    &&& ((m.height_at(fx, fy) <= ph && m.height_at(gx, gy) == ph) || (m.height_at(fx, fy) == ph
        && m.height_at(gx, gy) <= ph))
}

pub open spec fn horizontal_spot_key(m: GridMap, p: Player) -> HorizontalLadderKey {
    let d = equip_direction(p);
    HorizontalLadderKey {
        x: (p.pos_x() + d.dx()) as u8,
        y: (p.pos_y() + d.dy()) as u8,
        height: equip_height(p, m),
        alignment: Alignment::spec_of_direction(d),
    }
}

/// One ladder toggle: at a valid vertical spot, pick the ladder up if
/// one is there, else place one if any is carried; otherwise the same
/// over a valid horizontal spot; otherwise nothing.
pub open spec fn toggle_ladder_spec(cfg: GridMap, s: SessionView) -> (
    SessionView,
    LadderActionOutcome,
) {
    let p = s.player;
    if vertical_spot_valid(cfg, p) {
        let k = vertical_spot_key(cfg, p);
        if s.vertical_ladders.dom().contains(k) {
            (
                SessionView {
                    vertical_ladders: s.vertical_ladders.remove(k),
                    inventory: Inventory {
                        ladder_count: inc_u8(s.inventory.ladder_count),
                        ..s.inventory
                    },
                    history: s.history.push(PlayerHistoryEvent::PickUpVerticalLadder(k)),
                    ..s
                },
                LadderActionOutcome::PickedUpVertical { key: k, handle: s.vertical_ladders[k] },
            )
        } else if s.inventory.ladder_count > 0 {
            (
                SessionView {
                    vertical_ladders: s.vertical_ladders.insert(k, s.next_handle),
                    inventory: Inventory {
                        ladder_count: (s.inventory.ladder_count - 1) as u8,
                        ..s.inventory
                    },
                    next_handle: inc_u64(s.next_handle),
                    history: s.history.push(PlayerHistoryEvent::PlaceVerticalLadder(k)),
                    ..s
                },
                LadderActionOutcome::PlacedVertical { key: k, handle: s.next_handle },
            )
        } else {
            (s, LadderActionOutcome::OutOfLadders)
        }
    } else if horizontal_spot_valid(cfg, p) {
        let k = horizontal_spot_key(cfg, p);
        if s.horizontal_ladders.dom().contains(k) {
            (
                SessionView {
                    horizontal_ladders: s.horizontal_ladders.remove(k),
                    inventory: Inventory {
                        ladder_count: inc_u8(s.inventory.ladder_count),
                        ..s.inventory
                    },
                    history: s.history.push(PlayerHistoryEvent::PickUpHorizontalLadder(k)),
                    ..s
                },
                LadderActionOutcome::PickedUpHorizontal { key: k, handle: s.horizontal_ladders[k] },
            )
        } else if s.inventory.ladder_count > 0 {
            (
                SessionView {
                    horizontal_ladders: s.horizontal_ladders.insert(k, s.next_handle),
                    inventory: Inventory {
                        ladder_count: (s.inventory.ladder_count - 1) as u8,
                        ..s.inventory
                    },
                    next_handle: inc_u64(s.next_handle),
                    history: s.history.push(PlayerHistoryEvent::PlaceHorizontalLadder(k)),
                    ..s
                },
                LadderActionOutcome::PlacedHorizontal { key: k, handle: s.next_handle },
            )
        } else {
            (s, LadderActionOutcome::OutOfLadders)
        }
    } else {
        (s, LadderActionOutcome::NoPlacement)
    }
}

/// One rope command: a standing actor ties a rope off at their own tile
/// toward a strictly lower faced tile.
pub open spec fn place_rope_spec(cfg: GridMap, s: SessionView) -> (
    SessionView,
    RopeActionOutcome,
) {
    let p = s.player;
    match p.state {
        PlayerState::Standing(d) => {
            let fx = p.pos_x() + d.dx();
            let fy = p.pos_y() + d.dy();
            if !cfg.in_bounds(fx, fy) {
                (s, RopeActionOutcome::OutOfBounds)
            } else if cfg.height_at(p.pos_x(), p.pos_y()) > cfg.height_at(fx, fy) {
                let k = RopeKey { x: p.grid_pos_x, y: p.grid_pos_y, direction: d };
                if s.ropes.dom().contains(k) {
                    (s, RopeActionOutcome::AlreadyPlaced)
                } else if s.inventory.rope_count > 0 {
                    (
                        SessionView {
                            ropes: s.ropes.insert(k, s.next_handle),
                            inventory: Inventory {
                                rope_count: (s.inventory.rope_count - 1) as u8,
                                ..s.inventory
                            },
                            next_handle: inc_u64(s.next_handle),
                            history: s.history.push(PlayerHistoryEvent::PlaceRope(k)),
                            ..s
                        },
                        RopeActionOutcome::Placed { key: k, handle: s.next_handle },
                    )
                } else {
                    (s, RopeActionOutcome::OutOfRopes)
                }
            } else {
                (s, RopeActionOutcome::NoDrop)
            }
        },
        _ => (s, RopeActionOutcome::NotStanding),
    }
}

/// One rune command: a standing actor with a rune to spare plants it on
/// their own tile, primed with the full countdown and their current
/// stamina.
pub open spec fn place_rune_spec(s: SessionView) -> (SessionView, bool) {
    if s.player.state matches PlayerState::Standing(_) && s.inventory.rewind_count > 0 {
        (
            SessionView {
                runes: s.runes.push(
                    RewindRune {
                        x: s.player.grid_pos_x,
                        y: s.player.grid_pos_y,
                        countdown: RUNE_COUNTDOWN,
                        stamina: s.player.stamina,
                        timestamp: s.next_stamp,
                    },
                ),
                inventory: Inventory {
                    rewind_count: (s.inventory.rewind_count - 1) as u8,
                    ..s.inventory
                },
                history: s.history.push(PlayerHistoryEvent::PlaceRune),
                next_stamp: inc_u64(s.next_stamp),
                ..s
            },
            true,
        )
    } else {
        (s, false)
    }
}

/// No rune fires this tick exactly when none is on its last move; the
/// survivors are then all runes, each decremented.
pub proof fn lemma_live_no_zero(runes: Seq<RewindRune>)
    requires
        last_zero_rune(runes) is None,
    ensures
        live_after_decrement(runes) == decremented_runes(runes),
        forall|i: int| 0 <= i < runes.len() ==> (#[trigger] runes[i]).countdown != 1,
    decreases runes.len(),
{
    if runes.len() == 0 {
        assert(live_after_decrement(runes) =~= decremented_runes(runes));
    } else {
        lemma_live_no_zero(runes.drop_last());
        assert forall|i: int| 0 <= i < runes.len() implies (#[trigger] runes[i]).countdown
            != 1 by {
            if i < runes.len() - 1 {
                assert(runes.drop_last()[i] == runes[i]);
            }
        }
        assert(live_after_decrement(runes) =~= decremented_runes(runes));
    }
}

/// The rune a teleport ends on sits on the grid.
pub proof fn lemma_last_zero_wf(runes: Seq<RewindRune>, m: GridMap)
    requires
        runes_wf(runes, m),
        last_zero_rune(runes) is Some,
    ensures
        m.in_bounds(
            last_zero_rune(runes).unwrap().x as int,
            last_zero_rune(runes).unwrap().y as int,
        ),
    decreases runes.len(),
{
    let d = dec_rune(runes.last());
    if d.countdown == 0 {
        assert(rune_wf(runes[runes.len() - 1], m));
    } else {
        assert forall|i: int| 0 <= i < runes.drop_last().len() implies rune_wf(
            #[trigger] runes.drop_last()[i],
            m,
        ) by {
            assert(runes.drop_last()[i] == runes[i]);
        }
        lemma_last_zero_wf(runes.drop_last(), m);
    }
}

/// Ticking the countdown preserves rune well-formedness for the
/// survivors.
pub proof fn lemma_live_wf(runes: Seq<RewindRune>, m: GridMap)
    requires
        runes_wf(runes, m),
    ensures
        runes_wf(live_after_decrement(runes), m),
    decreases runes.len(),
{
    if runes.len() > 0 {
        assert forall|i: int| 0 <= i < runes.drop_last().len() implies rune_wf(
            #[trigger] runes.drop_last()[i],
            m,
        ) by {
            assert(runes.drop_last()[i] == runes[i]);
        }
        lemma_live_wf(runes.drop_last(), m);
        let rest = live_after_decrement(runes.drop_last());
        let d = dec_rune(runes.last());
        if d.countdown != 0 {
            assert(rune_wf(runes[runes.len() - 1], m));
            assert forall|i: int| 0 <= i < rest.push(d).len() implies rune_wf(
                #[trigger] rest.push(d)[i],
                m,
            ) by {
                if i < rest.len() {
                    assert(rest.push(d)[i] == rest[i]);
                }
            }
        }
    }
}

/// The session: everything one level run mutates, plus the level's
/// immutable terrain and budgets.
#[derive(Debug)]
pub struct GameSession {
    pub map: GridMap,
    pub stamina_budget: u16,
    pub weight_budget: u8,
    pub ladder_unlocked: bool,
    pub rope_unlocked: bool,
    pub potion_unlocked: bool,
    pub rewind_unlocked: bool,
    pub player: Player,
    pub inventory: Inventory,
    pub history: PlayerHistory,
    pub runes: Vec<RewindRune>,
    pub scale_counter: u8,
    pub scale_present: bool,
    pub has_gem: bool,
    pub next_handle: u64,
    pub next_stamp: u64,
}

impl View for GameSession {
    type V = SessionView;

    open spec fn view(&self) -> SessionView {
        SessionView {
            player: self.player,
            runes: self.runes@,
            history: self.history.0@,
            vertical_ladders: self.map.vertical_ladders@,
            horizontal_ladders: self.map.horizontal_ladders@,
            ropes: self.map.ropes@,
            inventory: self.inventory,
            scale_counter: self.scale_counter,
            scale_present: self.scale_present,
            has_gem: self.has_gem,
            next_handle: self.next_handle,
            next_stamp: self.next_stamp,
        }
    }
}

/// Two sessions play the same level: terrain, feature positions,
/// budgets and unlocks agree.
pub open spec fn same_level(a: GameSession, b: GameSession) -> bool {
    &&& a.map.grid_heights == b.map.grid_heights
    &&& a.map.grid_climbable == b.map.grid_climbable
    &&& a.map.player_start_pos == b.map.player_start_pos
    &&& a.map.flag_pos == b.map.flag_pos
    &&& a.map.scale_pos == b.map.scale_pos
    &&& a.map.cave_data == b.map.cave_data
    &&& a.stamina_budget == b.stamina_budget
    &&& a.weight_budget == b.weight_budget
    &&& a.ladder_unlocked == b.ladder_unlocked
    &&& a.rope_unlocked == b.rope_unlocked
    &&& a.potion_unlocked == b.potion_unlocked
    &&& a.rewind_unlocked == b.rewind_unlocked
}

/// Roll every rune's countdown back one tick, the exact inverse of the
/// tick a committed move applied.
fn bump_countdowns(runes: &mut Vec<RewindRune>)
    ensures
        final(runes)@ == incremented_runes(old(runes)@),
{
    let n = runes.len();
    let mut out: Vec<RewindRune> = Vec::new();
    let mut i: usize = 0;
    while i < n
        invariant
            n == runes@.len(),
            0 <= i <= n,
            out@.len() == i,
            forall|j: int| 0 <= j < i ==> out@[j] == inc_rune(#[trigger] runes@[j]),
        decreases n - i,
    {
        let r = runes[i];
        if r.countdown < 255 {
            out.push(RewindRune { countdown: r.countdown + 1, ..r });
        } else {
            out.push(r);
        }
        i += 1;
    }
    proof {
        assert(out@ =~= incremented_runes(runes@));
    }
    *runes = out;
}

impl GameSession {
    /// The session invariant: the grid is well-formed and every piece of
    /// mutable state is consistent with it.
    pub open spec fn wf(&self) -> bool {
        &&& self.map.wf()
        &&& view_wf(self@, self.map)
    }

    /// Start a fresh run of `level` with an empty log, empty inventory
    /// and the actor on the spawn tile facing south.
    pub fn new(level: Level) -> (r: GameSession)
        requires
            level.wf(),
        ensures
            r.wf(),
            r.map == level.map,
            r.stamina_budget == level.stamina_budget,
            r.weight_budget == level.weight_budget,
            r.ladder_unlocked == level.ladder_unlocked,
            r.rope_unlocked == level.rope_unlocked,
            r.potion_unlocked == level.potion_unlocked,
            r.rewind_unlocked == level.rewind_unlocked,
            r.player == (Player {
                stamina: level.stamina_budget,
                grid_pos_x: level.map.player_start_pos.0,
                grid_pos_y: level.map.player_start_pos.1,
                state: PlayerState::Standing(CardinalDirection::South),
            }),
            r.inventory == Inventory::spec_empty(),
            r.history.0@ == Seq::<PlayerHistoryEvent>::empty(),
            r.runes@ == Seq::<RewindRune>::empty(),
            r.scale_counter == 0,
            r.scale_present == (level.map.scale_pos is Some),
            r.has_gem == (match level.map.cave_data {
                Some(c) => c.gem_pos is None,
                None => false,
            }),
    {
        let player = Player {
            stamina: level.stamina_budget,
            grid_pos_x: level.map.player_start_pos.0,
            grid_pos_y: level.map.player_start_pos.1,
            state: PlayerState::Standing(CardinalDirection::South),
        };
        let scale_present = level.map.scale_pos.is_some();
        let has_gem = match &level.map.cave_data {
            Some(c) => c.gem_pos.is_none(),
            None => false,
        };
        GameSession {
            map: level.map,
            stamina_budget: level.stamina_budget,
            weight_budget: level.weight_budget,
            ladder_unlocked: level.ladder_unlocked,
            rope_unlocked: level.rope_unlocked,
            potion_unlocked: level.potion_unlocked,
            rewind_unlocked: level.rewind_unlocked,
            player,
            inventory: Inventory::empty(),
            history: PlayerHistory::new(),
            runes: Vec::new(),
            scale_counter: 0,
            scale_present,
            has_gem,
            next_handle: 0,
            next_stamp: 0,
        }
    }

    /// Process one directional command as a full turn.
    pub fn go_direction(&mut self, direction: CardinalDirection) -> (r: TurnOutcome)
        requires
            old(self).wf(),
        ensures
            final(self).wf(),
            same_level(*old(self), *final(self)),
            ({
                let (sv, oc) = turn_spec(old(self).map, old(self)@, direction);
                final(self)@ == sv && r == oc
            }),
            r == TurnOutcome::Rejected ==> final(self)@ == old(self)@,
            (r == TurnOutcome::Rejected || r == TurnOutcome::Refaced) ==> final(self).runes@ == old(
                self,
            ).runes@ && final(self).history.0@ == old(self).history.0@,
            (r == TurnOutcome::Moved || r == TurnOutcome::MovedToScale || r
                == TurnOutcome::MovedToGem) ==> final(self).runes@ == decremented_runes(
                old(self).runes@,
            ) && final(self).player.stamina <= old(self).player.stamina,
    {
        let new_p = match self.player.go(direction, &self.map, self.has_gem) {
            None => {
                return TurnOutcome::Rejected;
            },
            Some(p) => p,
        };
        if self.player.has_direction_changed(&new_p) {
            self.player = new_p;
            return TurnOutcome::Refaced;
        }
        let old_p = self.player;

        // Tick every rune; remember the last one that fired.
        let n = self.runes.len();
        let mut live: Vec<RewindRune> = Vec::new();
        let mut fired: Option<RewindRune> = None;
        let mut i: usize = 0;
        while i < n
            invariant
                n == self.runes@.len(),
                0 <= i <= n,
                runes_wf(self.runes@, self.map),
                live@ == live_after_decrement(self.runes@.subrange(0, i as int)),
                fired == last_zero_rune(self.runes@.subrange(0, i as int)),
            decreases n - i,
        {
            let r = self.runes[i];
            proof {
                assert(rune_wf(self.runes@[i as int], self.map));
                assert(self.runes@.subrange(0, i + 1 as int) =~= self.runes@.subrange(
                    0,
                    i as int,
                ).push(r));
                assert(self.runes@.subrange(0, i + 1 as int).drop_last() =~= self.runes@.subrange(
                    0,
                    i as int,
                ));
            }
            let d = RewindRune { countdown: r.countdown - 1, ..r };
            if d.countdown == 0 {
                fired = Some(d);
            } else {
                live.push(d);
            }
            i += 1;
        }
        proof {
            assert(self.runes@.subrange(0, n as int) =~= self.runes@);
        }

        match fired {
            Some(z) => {
                proof {
                    lemma_last_zero_wf(self.runes@, self.map);
                    lemma_live_wf(self.runes@, self.map);
                }
                self.runes = live;
                self.player = Player {
                    stamina: z.stamina,
                    grid_pos_x: z.x,
                    grid_pos_y: z.y,
                    state: PlayerState::Standing(CardinalDirection::South),
                };
                self.history.push(
                    PlayerHistoryEvent::Teleport { x: z.x, y: z.y, timestamp: z.timestamp },
                );
                proof {
                    assert(self.history.0@.drop_last() =~= old(self).history.0@);
                    self.lemma_history_push_wf(old(self).history.0@, old(self).map);
                }
                TurnOutcome::Teleported
            },
            None => {
                proof {
                    lemma_live_no_zero(self.runes@);
                }
                self.runes = live;
                self.player = new_p;

                // Post-commit observers: scale first, then gem.
                let hit_scale = self.scale_present && match self.map.scale_pos {
                    Some(sp) => new_p.grid_pos_x == sp.0 && new_p.grid_pos_y == sp.1
                        && match new_p.state {
                        PlayerState::Climbing(cs) => {
                            proof {
                                assert(cs.elevation >= 1);
                            }
                            self.map.grid_heights[sp.1 as usize][sp.0 as usize] == cs.elevation - 1
                        },
                        _ => true,
                    },
                    None => false,
                };
                let hit_gem = !self.has_gem && match self.map.cave_data {
                    Some(c) => match c.gem_pos {
                        Some(g) => new_p.grid_pos_x == g.0 && new_p.grid_pos_y == g.1,
                        None => false,
                    },
                    None => false,
                };
                let r = if hit_scale {
                    self.history.push(PlayerHistoryEvent::PlayerMoveToScale(old_p));
                    self.scale_present = false;
                    self.scale_counter = if self.scale_counter < 255 {
                        self.scale_counter + 1
                    } else {
                        self.scale_counter
                    };
                    TurnOutcome::MovedToScale
                } else if hit_gem {
                    self.history.push(PlayerHistoryEvent::PlayerMoveToGem(old_p));
                    self.has_gem = true;
                    TurnOutcome::MovedToGem
                } else {
                    self.history.push(PlayerHistoryEvent::PlayerMove(old_p));
                    TurnOutcome::Moved
                };
                proof {
                    assert(self.history.0@.drop_last() =~= old(self).history.0@);
                    self.lemma_history_push_wf(old(self).history.0@, old(self).map);
                    assert(runes_wf(self.runes@, self.map)) by {
                        assert forall|k: int|
                            0 <= k < self.runes@.len() implies rune_wf(
                            #[trigger] self.runes@[k],
                            self.map,
                        ) by {
                            assert(self.runes@[k] == dec_rune(old(self).runes@[k]));
                            assert(rune_wf(old(self).runes@[k], self.map));
                            assert(old(self).runes@[k].countdown != 1);
                        }
                    }
                }
                r
            },
        }
    }

    /// After pushing one well-formed event onto a well-formed log, the
    /// log is still well-formed.
    proof fn lemma_history_push_wf(&self, prior: Seq<PlayerHistoryEvent>, m: GridMap)
        requires
            history_wf(prior, m),
            self.history.0@.len() == prior.len() + 1,
            self.history.0@.drop_last() == prior,
            event_wf(self.history.0@.last(), m),
        ensures
            history_wf(self.history.0@, m),
    {
        let s = self.history.0@;
        assert forall|i: int| 0 <= i < s.len() implies event_wf(#[trigger] s[i], m) by {
            if i < s.len() - 1 {
                assert(s.drop_last()[i] == s[i]);
                assert(event_wf(prior[i], m));
            }
        }
    }

    /// Pop the top event and apply its inverse.
    pub fn undo(&mut self) -> (r: UndoOutcome)
        requires
            old(self).wf(),
        ensures
            final(self).wf(),
            same_level(*old(self), *final(self)),
            ({
                let (sv, oc) = undo_spec(old(self)@);
                final(self)@ == sv && r == oc
            }),
    {
        proof {
            if old(self).history.0@.len() > 0 {
                assert(event_wf(old(self).history.0@.last(), old(self).map));
                assert forall|i: int|
                    0 <= i < old(self).history.0@.drop_last().len() implies event_wf(
                    #[trigger] old(self).history.0@.drop_last()[i],
                    old(self).map,
                ) by {
                    assert(old(self).history.0@.drop_last()[i] == old(self).history.0@[i]);
                }
            }
        }
        let e = match self.history.pop() {
            None => {
                return UndoOutcome::NothingToUndo;
            },
            Some(e) => e,
        };
        match e {
            PlayerHistoryEvent::PlayerMove(prev) => {
                self.player = prev;
                bump_countdowns(&mut self.runes);
                proof {
                    self.lemma_inc_runes_wf(old(self).runes@, old(self).map);
                }
                UndoOutcome::UndidMove
            },
            PlayerHistoryEvent::PlayerMoveToScale(prev) => {
                self.player = prev;
                bump_countdowns(&mut self.runes);
                self.scale_present = true;
                self.scale_counter = if self.scale_counter > 0 {
                    self.scale_counter - 1
                } else {
                    0
                };
                proof {
                    self.lemma_inc_runes_wf(old(self).runes@, old(self).map);
                }
                UndoOutcome::UndidMoveToScale
            },
            PlayerHistoryEvent::PlayerMoveToGem(prev) => {
                self.player = prev;
                bump_countdowns(&mut self.runes);
                self.has_gem = false;
                proof {
                    self.lemma_inc_runes_wf(old(self).runes@, old(self).map);
                }
                UndoOutcome::UndidMoveToGem
            },
            PlayerHistoryEvent::PlaceVerticalLadder(k) => {
                match self.map.vertical_ladders.remove(&k) {
                    Some(h) => {
                        self.inventory.ladder_count = if self.inventory.ladder_count < 255 {
                            self.inventory.ladder_count + 1
                        } else {
                            self.inventory.ladder_count
                        };
                        UndoOutcome::UndidPlaceVerticalLadder(Some(h))
                    },
                    None => UndoOutcome::UndidPlaceVerticalLadder(None),
                }
            },
            PlayerHistoryEvent::PlaceHorizontalLadder(k) => {
                match self.map.horizontal_ladders.remove(&k) {
                    Some(h) => {
                        self.inventory.ladder_count = if self.inventory.ladder_count < 255 {
                            self.inventory.ladder_count + 1
                        } else {
                            self.inventory.ladder_count
                        };
                        UndoOutcome::UndidPlaceHorizontalLadder(Some(h))
                    },
                    None => UndoOutcome::UndidPlaceHorizontalLadder(None),
                }
            },
            PlayerHistoryEvent::PlaceRope(k) => {
                match self.map.ropes.remove(&k) {
                    Some(h) => {
                        self.inventory.rope_count = if self.inventory.rope_count < 255 {
                            self.inventory.rope_count + 1
                        } else {
                            self.inventory.rope_count
                        };
                        UndoOutcome::UndidPlaceRope(Some(h))
                    },
                    None => UndoOutcome::UndidPlaceRope(None),
                }
            },
            PlayerHistoryEvent::PickUpVerticalLadder(k) => {
                if self.map.vertical_ladders.contains_key(&k) {
                    UndoOutcome::UndidPickUpVerticalLadder(None)
                } else {
                    let h = self.next_handle;
                    let _ = self.map.vertical_ladders.place(k, h);
                    self.next_handle = if self.next_handle < u64::MAX {
                        self.next_handle + 1
                    } else {
                        self.next_handle
                    };
                    self.inventory.ladder_count = if self.inventory.ladder_count > 0 {
                        self.inventory.ladder_count - 1
                    } else {
                        0
                    };
                    UndoOutcome::UndidPickUpVerticalLadder(Some(h))
                }
            },
            PlayerHistoryEvent::PickUpHorizontalLadder(k) => {
                if self.map.horizontal_ladders.contains_key(&k) {
                    UndoOutcome::UndidPickUpHorizontalLadder(None)
                } else {
                    let h = self.next_handle;
                    let _ = self.map.horizontal_ladders.place(k, h);
                    self.next_handle = if self.next_handle < u64::MAX {
                        self.next_handle + 1
                    } else {
                        self.next_handle
                    };
                    self.inventory.ladder_count = if self.inventory.ladder_count > 0 {
                        self.inventory.ladder_count - 1
                    } else {
                        0
                    };
                    UndoOutcome::UndidPickUpHorizontalLadder(Some(h))
                }
            },
            PlayerHistoryEvent::PlaceRune => {
                if self.runes.len() == 0 {
                    UndoOutcome::UndidPlaceRune(false)
                } else {
                    let len = self.runes.len();
                    let mut best: usize = 0;
                    let mut i: usize = 1;
                    while i < len
                        invariant
                            1 <= i <= len,
                            0 <= best < i,
                            len == self.runes@.len(),
                            best == latest_rune_index(self.runes@.subrange(0, i as int)),
                        decreases len - i,
                    {
                        proof {
                            assert(self.runes@.subrange(0, i + 1 as int) =~= self.runes@.subrange(
                                0,
                                i as int,
                            ).push(self.runes@[i as int]));
                            assert(self.runes@.subrange(0, i + 1 as int).drop_last()
                                =~= self.runes@.subrange(0, i as int));
                        }
                        if self.runes[i].timestamp > self.runes[best].timestamp {
                            best = i;
                        }
                        i += 1;
                    }
                    proof {
                        assert(self.runes@.subrange(0, len as int) =~= self.runes@);
                        assert forall|j: int|
                            0 <= j < self.runes@.remove(best as int).len() implies rune_wf(
                            #[trigger] self.runes@.remove(best as int)[j],
                            self.map,
                        ) by {
                            if j < best {
                                assert(self.runes@.remove(best as int)[j] == self.runes@[j]);
                            } else {
                                assert(self.runes@.remove(best as int)[j] == self.runes@[j + 1]);
                            }
                        }
                    }
                    let _ = self.runes.remove(best);
                    self.inventory.rewind_count = if self.inventory.rewind_count < 255 {
                        self.inventory.rewind_count + 1
                    } else {
                        self.inventory.rewind_count
                    };
                    UndoOutcome::UndidPlaceRune(true)
                }
            },
            PlayerHistoryEvent::Teleport { x, y, timestamp } => {
                self.runes.push(
                    RewindRune { x, y, countdown: 1, stamina: self.player.stamina, timestamp },
                );
                proof {
                    assert forall|j: int|
                        0 <= j < self.runes@.len() implies rune_wf(
                        #[trigger] self.runes@[j],
                        self.map,
                    ) by {
                        if j < self.runes@.len() - 1 {
                            assert(self.runes@[j] == old(self).runes@[j]);
                        }
                    }
                }
                UndoOutcome::UndidTeleport
            },
        }
    }

    /// Rolled-back runes stay well-formed.
    proof fn lemma_inc_runes_wf(&self, prior: Seq<RewindRune>, m: GridMap)
        requires
            runes_wf(prior, m),
            self.runes@ == incremented_runes(prior),
        ensures
            runes_wf(self.runes@, m),
    {
        assert forall|i: int| 0 <= i < self.runes@.len() implies rune_wf(
            #[trigger] self.runes@[i],
            m,
        ) by {
            assert(self.runes@[i] == inc_rune(prior[i]));
            assert(rune_wf(prior[i], m));
        }
    }
}


impl GameSession {
    /// Toggle a ladder in front of the actor: pick up or place.
    #[verifier::rlimit(60)]
    pub fn toggle_ladder(&mut self) -> (r: LadderActionOutcome)
        requires
            old(self).wf(),
        ensures
            final(self).wf(),
            same_level(*old(self), *final(self)),
            ({
                let (sv, oc) = toggle_ladder_spec(old(self).map, old(self)@);
                final(self)@ == sv && r == oc
            }),
    {
        let x = self.player.grid_pos_x;
        let y = self.player.grid_pos_y;
        let d = match self.player.state {
            PlayerState::Standing(d) => d,
            PlayerState::Climbing(cs) => cs.direction,
            PlayerState::StandingOnLadder(ls) => ls.direction,
        };
        let ph = match self.player.state {
            PlayerState::Standing(_) => self.map.grid_heights[y as usize][x as usize],
            PlayerState::Climbing(cs) => cs.elevation,
            PlayerState::StandingOnLadder(ls) => ls.elevation,
        };
        let facing = self.map.step(x, y, d);

        if let Some((fx, fy)) = facing {
            if self.map.grid_heights[fy as usize][fx as usize] as u16 >= ph as u16 + 2 {
                // A vertical ladder fits here.
                let k = VerticalLadderKey { x: fx, y: fy, height: ph, direction: d };
                match self.map.vertical_ladders.remove(&k) {
                    Some(h) => {
                        self.inventory.ladder_count = if self.inventory.ladder_count < 255 {
                            self.inventory.ladder_count + 1
                        } else {
                            self.inventory.ladder_count
                        };
                        self.history.push(PlayerHistoryEvent::PickUpVerticalLadder(k));
                        proof {
                            assert(self.history.0@.drop_last() =~= old(self).history.0@);
                            self.lemma_history_push_wf(old(self).history.0@, old(self).map);
                        }
                        return LadderActionOutcome::PickedUpVertical { key: k, handle: h };
                    },
                    None => {
                        if self.inventory.ladder_count > 0 {
                            let h = self.next_handle;
                            let _ = self.map.vertical_ladders.place(k, h);
                            self.next_handle = if self.next_handle < u64::MAX {
                                self.next_handle + 1
                            } else {
                                self.next_handle
                            };
                            self.inventory.ladder_count = self.inventory.ladder_count - 1;
                            self.history.push(PlayerHistoryEvent::PlaceVerticalLadder(k));
                            proof {
                                assert(self.history.0@.drop_last() =~= old(self).history.0@);
                                self.lemma_history_push_wf(old(self).history.0@, old(self).map);
                            }
                            return LadderActionOutcome::PlacedVertical { key: k, handle: h };
                        } else {
                            return LadderActionOutcome::OutOfLadders;
                        }
                    },
                }
            }
        }

        // No vertical spot; try bridging the gap ahead.
        let beyond = match facing {
            Some((fx, fy)) => self.map.step(fx, fy, d),
            None => None,
        };
        if let (Some((fx, fy)), Some((gx, gy))) = (facing, beyond) {
            let hf = self.map.grid_heights[fy as usize][fx as usize];
            let hg = self.map.grid_heights[gy as usize][gx as usize];
            if (hf <= ph && hg == ph) || (hf == ph && hg <= ph) {
                let k = HorizontalLadderKey { x: fx, y: fy, height: ph, alignment: d.into() };
                match self.map.horizontal_ladders.remove(&k) {
                    Some(h) => {
                        self.inventory.ladder_count = if self.inventory.ladder_count < 255 {
                            self.inventory.ladder_count + 1
                        } else {
                            self.inventory.ladder_count
                        };
                        self.history.push(PlayerHistoryEvent::PickUpHorizontalLadder(k));
                        proof {
                            assert(self.history.0@.drop_last() =~= old(self).history.0@);
                            self.lemma_history_push_wf(old(self).history.0@, old(self).map);
                        }
                        return LadderActionOutcome::PickedUpHorizontal { key: k, handle: h };
                    },
                    None => {
                        if self.inventory.ladder_count > 0 {
                            let h = self.next_handle;
                            let _ = self.map.horizontal_ladders.place(k, h);
                            self.next_handle = if self.next_handle < u64::MAX {
                                self.next_handle + 1
                            } else {
                                self.next_handle
                            };
                            self.inventory.ladder_count = self.inventory.ladder_count - 1;
                            self.history.push(PlayerHistoryEvent::PlaceHorizontalLadder(k));
                            proof {
                                assert(self.history.0@.drop_last() =~= old(self).history.0@);
                                self.lemma_history_push_wf(old(self).history.0@, old(self).map);
                            }
                            return LadderActionOutcome::PlacedHorizontal { key: k, handle: h };
                        } else {
                            return LadderActionOutcome::OutOfLadders;
                        }
                    },
                }
            }
        }
        LadderActionOutcome::NoPlacement
    }

    /// Tie a rope off at the actor's tile, hanging toward the faced
    /// tile.
    pub fn place_rope(&mut self) -> (r: RopeActionOutcome)
        requires
            old(self).wf(),
        ensures
            final(self).wf(),
            same_level(*old(self), *final(self)),
            ({
                let (sv, oc) = place_rope_spec(old(self).map, old(self)@);
                final(self)@ == sv && r == oc
            }),
    {
        let d = match self.player.state {
            PlayerState::Standing(d) => d,
            _ => {
                return RopeActionOutcome::NotStanding;
            },
        };
        let x = self.player.grid_pos_x;
        let y = self.player.grid_pos_y;
        let (fx, fy) = match self.map.step(x, y, d) {
            Some(t) => t,
            None => {
                return RopeActionOutcome::OutOfBounds;
            },
        };
        let ph = self.map.grid_heights[y as usize][x as usize];
        let hf = self.map.grid_heights[fy as usize][fx as usize];
        if ph > hf {
            let k = RopeKey { x, y, direction: d };
            if self.map.ropes.contains_key(&k) {
                RopeActionOutcome::AlreadyPlaced
            } else if self.inventory.rope_count > 0 {
                let h = self.next_handle;
                let _ = self.map.ropes.place(k, h);
                self.next_handle = if self.next_handle < u64::MAX {
                    self.next_handle + 1
                } else {
                    self.next_handle
                };
                self.inventory.rope_count = self.inventory.rope_count - 1;
                self.history.push(PlayerHistoryEvent::PlaceRope(k));
                proof {
                    assert(self.history.0@.drop_last() =~= old(self).history.0@);
                    self.lemma_history_push_wf(old(self).history.0@, old(self).map);
                }
                RopeActionOutcome::Placed { key: k, handle: h }
            } else {
                RopeActionOutcome::OutOfRopes
            }
        } else {
            RopeActionOutcome::NoDrop
        }
    }

    /// Plant a rewind rune on the actor's tile.
    pub fn place_rune(&mut self) -> (r: bool)
        requires
            old(self).wf(),
        ensures
            final(self).wf(),
            same_level(*old(self), *final(self)),
            ({
                let (sv, oc) = place_rune_spec(old(self)@);
                final(self)@ == sv && r == oc
            }),
    {
        match self.player.state {
            PlayerState::Standing(_) => {},
            _ => {
                return false;
            },
        }
        if self.inventory.rewind_count == 0 {
            return false;
        }
        let rune = RewindRune {
            x: self.player.grid_pos_x,
            y: self.player.grid_pos_y,
            countdown: RUNE_COUNTDOWN,
            stamina: self.player.stamina,
            timestamp: self.next_stamp,
        };
        self.runes.push(rune);
        self.inventory.rewind_count = self.inventory.rewind_count - 1;
        self.history.push(PlayerHistoryEvent::PlaceRune);
        self.next_stamp = if self.next_stamp < u64::MAX {
            self.next_stamp + 1
        } else {
            self.next_stamp
        };
        proof {
            assert(self.history.0@.drop_last() =~= old(self).history.0@);
            self.lemma_history_push_wf(old(self).history.0@, old(self).map);
            assert forall|j: int| 0 <= j < self.runes@.len() implies rune_wf(
                #[trigger] self.runes@[j],
                self.map,
            ) by {
                if j < self.runes@.len() - 1 {
                    assert(self.runes@[j] == old(self).runes@[j]);
                }
            }
        }
        true
    }

    /// Pack one piece of equipment during the picking phase. Succeeds
    /// when the weight budget still has room for it, its counter has
    /// room, and, for a potion, the granted stamina fits; a potion also
    /// grants its stamina immediately.
    pub fn add_equipment(&mut self, eq: Equipment) -> (r: bool)
        requires
            old(self).wf(),
        ensures
            final(self).wf(),
            same_level(*old(self), *final(self)),
            r == (old(self).weight_budget >= old(self).inventory.weight + eq.spec_weight()
                && old(self).inventory.spec_count(eq) < 255 && (eq != Equipment::Potion || old(
                self,
            ).player.stamina + POTION_STAMINA <= u16::MAX)),
            r ==> final(self).inventory == (Inventory {
                weight: (old(self).inventory.weight + eq.spec_weight()) as u8,
                ..old(self).inventory.spec_with_count(
                    eq,
                    (old(self).inventory.spec_count(eq) + 1) as u8,
                )
            }),
            r ==> final(self).player == (Player {
                stamina: if eq == Equipment::Potion {
                    (old(self).player.stamina + POTION_STAMINA) as u16
                } else {
                    old(self).player.stamina
                },
                ..old(self).player
            }),
            !r ==> final(self)@ == old(self)@,
            final(self).runes@ == old(self).runes@,
            final(self).history.0@ == old(self).history.0@,
            final(self).map == old(self).map,
    {
        let w = eq.weight();
        let fits = self.weight_budget as u16 >= self.inventory.weight as u16 + w as u16;
        let count = self.inventory.count(eq);
        let stamina_ok = match eq {
            Equipment::Potion => self.player.stamina <= u16::MAX - POTION_STAMINA,
            _ => true,
        };
        if fits && count < 255 && stamina_ok {
            self.inventory.weight = self.inventory.weight + w;
            match eq {
                Equipment::Ladder => {
                    self.inventory.ladder_count = count + 1;
                },
                Equipment::Rope => {
                    self.inventory.rope_count = count + 1;
                },
                Equipment::Potion => {
                    self.inventory.potion_count = count + 1;
                    self.player.stamina = self.player.stamina + POTION_STAMINA;
                },
                Equipment::Rewind => {
                    self.inventory.rewind_count = count + 1;
                },
            }
            true
        } else {
            false
        }
    }

    /// Unpack one piece of equipment during the picking phase. Succeeds
    /// when one is packed and, for a potion, its granted stamina can be
    /// taken back; the packed weight is released, never below zero.
    pub fn remove_equipment(&mut self, eq: Equipment) -> (r: bool)
        requires
            old(self).wf(),
        ensures
            final(self).wf(),
            same_level(*old(self), *final(self)),
            r == (old(self).inventory.spec_count(eq) > 0 && (eq != Equipment::Potion || old(
                self,
            ).player.stamina >= POTION_STAMINA)),
            r ==> final(self).inventory == (Inventory {
                weight: if old(self).inventory.weight >= eq.spec_weight() {
                    (old(self).inventory.weight - eq.spec_weight()) as u8
                } else {
                    0
                },
                ..old(self).inventory.spec_with_count(
                    eq,
                    (old(self).inventory.spec_count(eq) - 1) as u8,
                )
            }),
            r ==> final(self).player == (Player {
                stamina: if eq == Equipment::Potion {
                    (old(self).player.stamina - POTION_STAMINA) as u16
                } else {
                    old(self).player.stamina
                },
                ..old(self).player
            }),
            !r ==> final(self)@ == old(self)@,
            final(self).runes@ == old(self).runes@,
            final(self).history.0@ == old(self).history.0@,
            final(self).map == old(self).map,
    {
        let w = eq.weight();
        let count = self.inventory.count(eq);
        let stamina_ok = match eq {
            Equipment::Potion => self.player.stamina >= POTION_STAMINA,
            _ => true,
        };
        if count > 0 && stamina_ok {
            self.inventory.weight = if self.inventory.weight >= w {
                self.inventory.weight - w
            } else {
                0
            };
            match eq {
                Equipment::Ladder => {
                    self.inventory.ladder_count = count - 1;
                },
                Equipment::Rope => {
                    self.inventory.rope_count = count - 1;
                },
                Equipment::Potion => {
                    self.inventory.potion_count = count - 1;
                    self.player.stamina = self.player.stamina - POTION_STAMINA;
                },
                Equipment::Rewind => {
                    self.inventory.rewind_count = count - 1;
                },
            }
            true
        } else {
            false
        }
    }

    /// Whether the actor has reached the goal flag.
    pub fn at_flag(&self) -> (r: bool)
        ensures
            r == (self.player.grid_pos_x == self.map.flag_pos.0 && self.player.grid_pos_y
                == self.map.flag_pos.1),
    {
        self.player.grid_pos_x == self.map.flag_pos.0 && self.player.grid_pos_y
            == self.map.flag_pos.1
    }

    /// What a move in `direction` would cost right now, or `None` when
    /// it is illegal. Feeds the key-hint display.
    pub fn stamina_cost(&self, direction: CardinalDirection) -> (r: Option<u16>)
        requires
            self.wf(),
        ensures
            r == match self.player.go_spec(direction, self.map, self.has_gem) {
                Some(p) => Some((self.player.stamina - p.stamina) as u16),
                None => None::<u16>,
            },
    {
        match self.player.go(direction, &self.map, self.has_gem) {
            Some(p) => Some(self.player.stamina - p.stamina),
            None => None,
        }
    }

    /// Restart the current level: equipment tables, inventory, log and
    /// runes are cleared and the actor respawns, while the collected
    /// scale tally survives the restart.
    pub fn reload(&mut self)
        requires
            old(self).wf(),
        ensures
            final(self).wf(),
            same_level(*old(self), *final(self)),
            final(self).map.vertical_ladders@ == Map::<VerticalLadderKey, u64>::empty(),
            final(self).map.horizontal_ladders@ == Map::<HorizontalLadderKey, u64>::empty(),
            final(self).map.ropes@ == Map::<RopeKey, u64>::empty(),
            final(self).player == (Player {
                stamina: old(self).stamina_budget,
                grid_pos_x: old(self).map.player_start_pos.0,
                grid_pos_y: old(self).map.player_start_pos.1,
                state: PlayerState::Standing(CardinalDirection::South),
            }),
            final(self).inventory == Inventory::spec_empty(),
            final(self).history.0@ == Seq::<PlayerHistoryEvent>::empty(),
            final(self).runes@ == Seq::<RewindRune>::empty(),
            final(self).scale_counter == old(self).scale_counter,
            final(self).scale_present == (old(self).map.scale_pos is Some),
            final(self).has_gem == (match old(self).map.cave_data {
                Some(c) => c.gem_pos is None,
                None => false,
            }),
            final(self).next_handle == old(self).next_handle,
            final(self).next_stamp == old(self).next_stamp,
    {
        self.map.reset();
        self.player = Player {
            stamina: self.stamina_budget,
            grid_pos_x: self.map.player_start_pos.0,
            grid_pos_y: self.map.player_start_pos.1,
            state: PlayerState::Standing(CardinalDirection::South),
        };
        self.inventory = Inventory::empty();
        self.history.clear();
        self.runes = Vec::new();
        self.scale_present = self.map.scale_pos.is_some();
        self.has_gem = match &self.map.cave_data {
            Some(c) => c.gem_pos.is_none(),
            None => false,
        };
    }

    /// Move on to another level: everything resets as on a reload, but
    /// on the new level's terrain and budgets; the collected scale tally
    /// carries over.
    pub fn load_level(&mut self, level: Level)
        requires
            old(self).wf(),
            level.wf(),
        ensures
            final(self).wf(),
            final(self).map == level.map,
            final(self).stamina_budget == level.stamina_budget,
            final(self).weight_budget == level.weight_budget,
            final(self).ladder_unlocked == level.ladder_unlocked,
            final(self).rope_unlocked == level.rope_unlocked,
            final(self).potion_unlocked == level.potion_unlocked,
            final(self).rewind_unlocked == level.rewind_unlocked,
            final(self).player == (Player {
                stamina: level.stamina_budget,
                grid_pos_x: level.map.player_start_pos.0,
                grid_pos_y: level.map.player_start_pos.1,
                state: PlayerState::Standing(CardinalDirection::South),
            }),
            final(self).inventory == Inventory::spec_empty(),
            final(self).history.0@ == Seq::<PlayerHistoryEvent>::empty(),
            final(self).runes@ == Seq::<RewindRune>::empty(),
            final(self).scale_counter == old(self).scale_counter,
            final(self).scale_present == (level.map.scale_pos is Some),
            final(self).has_gem == (match level.map.cave_data {
                Some(c) => c.gem_pos is None,
                None => false,
            }),
    {
        self.map = level.map;
        self.stamina_budget = level.stamina_budget;
        self.weight_budget = level.weight_budget;
        self.ladder_unlocked = level.ladder_unlocked;
        self.rope_unlocked = level.rope_unlocked;
        self.potion_unlocked = level.potion_unlocked;
        self.rewind_unlocked = level.rewind_unlocked;
        self.player = Player {
            stamina: self.stamina_budget,
            grid_pos_x: self.map.player_start_pos.0,
            grid_pos_y: self.map.player_start_pos.1,
            state: PlayerState::Standing(CardinalDirection::South),
        };
        self.inventory = Inventory::empty();
        self.history.clear();
        self.runes = Vec::new();
        self.scale_present = self.map.scale_pos.is_some();
        self.has_gem = match &self.map.cave_data {
            Some(c) => c.gem_pos.is_none(),
            None => false,
        };
    }
}


/// Undo is a left inverse of a committed move: in a well-formed session
/// whose scale tally is not pinned at the top of its range, any turn
/// that commits a move without triggering a teleport — including the
/// compound collectible variants — is exactly reversed by one undo.
///
/// A teleport-triggering move is the one committed turn this cannot
/// cover: its log entry deliberately forgets the pre-move actor state
/// (see [`lemma_undo_after_single_rune_teleport`]).
pub proof fn lemma_undo_reverses_move(cfg: GridMap, s: SessionView, direction: CardinalDirection)
    requires
        view_wf(s, cfg),
        s.scale_counter < 255,
        turn_spec(cfg, s, direction).1 == TurnOutcome::Moved || turn_spec(cfg, s, direction).1
            == TurnOutcome::MovedToScale || turn_spec(cfg, s, direction).1
            == TurnOutcome::MovedToGem,
    ensures
        undo_spec(turn_spec(cfg, s, direction).0).0 == s,
        turn_spec(cfg, s, direction).1 == TurnOutcome::Moved ==> undo_spec(
            turn_spec(cfg, s, direction).0,
        ).1 == UndoOutcome::UndidMove,
        turn_spec(cfg, s, direction).1 == TurnOutcome::MovedToScale ==> undo_spec(
            turn_spec(cfg, s, direction).0,
        ).1 == UndoOutcome::UndidMoveToScale,
        turn_spec(cfg, s, direction).1 == TurnOutcome::MovedToGem ==> undo_spec(
            turn_spec(cfg, s, direction).0,
        ).1 == UndoOutcome::UndidMoveToGem,
{
    let (s1, oc) = turn_spec(cfg, s, direction);
    let new_p = s.player.go_spec(direction, cfg, s.has_gem).unwrap();
    assert(last_zero_rune(s.runes) is None);
    lemma_live_no_zero(s.runes);
    assert(s1.runes == decremented_runes(s.runes));
    assert(s1.history.drop_last() =~= s.history);
    assert(incremented_runes(decremented_runes(s.runes)) =~= s.runes) by {
        assert forall|i: int|
            0 <= i < s.runes.len() implies incremented_runes(decremented_runes(s.runes))[i]
            == s.runes[i] by {
            assert(rune_wf(s.runes[i], cfg));
            assert(inc_rune(dec_rune(s.runes[i])) == s.runes[i]);
        }
    }
    assert(undo_spec(s1).0 =~= s);
}

/// The provable half of reversing a teleport: when a single placed rune
/// fires during a move, one undo restores every part of the session
/// except the actor, which stays on the rune tile — re-running the
/// preceding moves would fire the same rune the same way.
pub proof fn lemma_undo_after_single_rune_teleport(
    cfg: GridMap,
    s: SessionView,
    direction: CardinalDirection,
)
    requires
        view_wf(s, cfg),
        s.runes.len() == 1,
        turn_spec(cfg, s, direction).1 == TurnOutcome::Teleported,
    ensures
        undo_spec(turn_spec(cfg, s, direction).0).0 == (SessionView {
            player: turn_spec(cfg, s, direction).0.player,
            ..s
        }),
{
    let (s1, oc) = turn_spec(cfg, s, direction);
    let z = last_zero_rune(s.runes).unwrap();
    let rune = s.runes[0];
    assert(s.runes.drop_last().len() == 0);
    assert(rune_wf(rune, cfg));
    assert(s.runes.last() == rune);
    assert(last_zero_rune(s.runes.drop_last()) is None);
    assert(z == dec_rune(rune));
    assert(rune.countdown == 1);
    assert(live_after_decrement(s.runes.drop_last()) =~= Seq::<RewindRune>::empty());
    assert(live_after_decrement(s.runes) =~= Seq::<RewindRune>::empty());
    assert(s1.history.drop_last() =~= s.history);
    let s2 = undo_spec(s1).0;
    assert(s2.runes =~= s.runes) by {
        assert(s2.runes == s1.runes.push(
            RewindRune {
                x: z.x,
                y: z.y,
                countdown: 1,
                stamina: s1.player.stamina,
                timestamp: z.timestamp,
            },
        ));
        assert(s1.player.stamina == rune.stamina);
        assert(s2.runes[0] == rune);
    }
    assert(s2 =~= SessionView { player: s1.player, ..s });
}

} // verus!
