use climber::direction::CardinalDirection::{East, North, South, West};
use climber::equipment::VerticalLadderKey;
use climber::history::PlayerHistoryEvent;
use climber::inventory::Equipment;
use climber::level::Level;
use climber::map::{CaveData, GridMap};
use climber::player::{ClimbingState, PlayerState};
use climber::session::{GameSession, LadderActionOutcome, RopeActionOutcome, TurnOutcome, UndoOutcome};

fn level(
    heights: Vec<Vec<u8>>,
    climbable: Vec<Vec<bool>>,
    start: (u8, u8),
    flag: (u8, u8),
    scale: Option<(u8, u8)>,
    cave: Option<CaveData>,
    stamina: u16,
    weight: u8,
) -> Level {
    Level {
        map: GridMap::new(heights, climbable, start, flag, scale, cave),
        stamina_budget: stamina,
        weight_budget: weight,
        ladder_unlocked: true,
        rope_unlocked: true,
        potion_unlocked: true,
        rewind_unlocked: true,
    }
}

fn flat_2x2(stamina: u16, weight: u8) -> Level {
    level(
        vec![vec![1, 1], vec![1, 1]],
        vec![vec![false, false], vec![false, false]],
        (0, 1),
        (1, 0),
        None,
        None,
        stamina,
        weight,
    )
}

#[test]
fn refacing_is_not_logged_until_a_move_commits() {
    let mut s = GameSession::new(flat_2x2(10, 0));
    assert_eq!(s.go_direction(East), TurnOutcome::Refaced);
    assert_eq!(s.player.state, PlayerState::Standing(East));
    assert_eq!((s.player.grid_pos_x, s.player.grid_pos_y), (0, 1));
    assert_eq!(s.player.stamina, 10);
    assert_eq!(s.history.len(), 0);

    // A following committed move is logged, and undoing it returns to
    // the refaced state, not the original facing.
    assert_eq!(s.go_direction(East), TurnOutcome::Moved);
    assert_eq!(s.history.len(), 1);
    assert_eq!(s.undo(), UndoOutcome::UndidMove);
    assert_eq!(s.player.state, PlayerState::Standing(East));
    assert_eq!((s.player.grid_pos_x, s.player.grid_pos_y), (0, 1));
    assert_eq!(s.player.stamina, 10);
    assert_eq!(s.history.len(), 0);
}

#[test]
fn rejected_inputs_change_nothing() {
    let mut s = GameSession::new(flat_2x2(10, 0));
    // Facing south at the south edge: walking off is rejected.
    assert_eq!(s.go_direction(South), TurnOutcome::Rejected);
    assert_eq!(s.player.state, PlayerState::Standing(South));
    assert_eq!(s.player.stamina, 10);
    assert_eq!(s.history.len(), 0);
}

#[test]
fn move_then_undo_restores_the_session() {
    let mut s = GameSession::new(flat_2x2(10, 0));
    assert_eq!(s.go_direction(East), TurnOutcome::Refaced);
    let before = s.player;
    let history_before = s.history.len();
    assert_eq!(s.go_direction(East), TurnOutcome::Moved);
    assert_eq!(s.player.stamina, 9);
    assert_eq!(s.undo(), UndoOutcome::UndidMove);
    assert_eq!(s.player, before);
    assert_eq!(s.history.len(), history_before);
    assert_eq!(s.runes.len(), 0);
}

#[test]
fn undoing_an_empty_log_reports_no_history() {
    let mut s = GameSession::new(flat_2x2(10, 0));
    assert_eq!(s.undo(), UndoOutcome::NothingToUndo);
    assert_eq!(s.player.state, PlayerState::Standing(South));
}

#[test]
fn rune_counts_down_once_per_committed_move_only() {
    let mut s = GameSession::new(flat_2x2(20, 1));
    assert!(s.add_equipment(Equipment::Rewind));
    assert!(s.place_rune());
    assert_eq!(s.runes.len(), 1);
    assert_eq!(s.runes[0].countdown, 5);
    assert_eq!(s.runes[0].stamina, 20);

    // A rejected input does not tick the countdown.
    assert_eq!(s.go_direction(South), TurnOutcome::Rejected);
    assert_eq!(s.runes[0].countdown, 5);
    // A pure re-facing does not tick it either.
    assert_eq!(s.go_direction(East), TurnOutcome::Refaced);
    assert_eq!(s.runes[0].countdown, 5);

    // Each committed move ticks it exactly once.
    assert_eq!(s.go_direction(East), TurnOutcome::Moved);
    assert_eq!(s.runes[0].countdown, 4);
    assert_eq!(s.go_direction(West), TurnOutcome::Refaced);
    assert_eq!(s.go_direction(West), TurnOutcome::Moved);
    assert_eq!(s.runes[0].countdown, 3);
    assert_eq!(s.go_direction(East), TurnOutcome::Refaced);
    assert_eq!(s.go_direction(East), TurnOutcome::Moved);
    assert_eq!(s.runes[0].countdown, 2);
    assert_eq!(s.go_direction(West), TurnOutcome::Refaced);
    assert_eq!(s.go_direction(West), TurnOutcome::Moved);
    assert_eq!(s.runes[0].countdown, 1);

    // The fifth committed move fires the rune: the actor is pulled back
    // to the rune tile with the recorded stamina, the rune despawns,
    // and exactly one teleport happens.
    assert_eq!(s.go_direction(East), TurnOutcome::Refaced);
    assert_eq!(s.go_direction(East), TurnOutcome::Teleported);
    assert_eq!(s.runes.len(), 0);
    assert_eq!((s.player.grid_pos_x, s.player.grid_pos_y), (0, 1));
    assert_eq!(s.player.stamina, 20);
    assert_eq!(s.player.state, PlayerState::Standing(South));
}

#[test]
fn undoing_a_teleport_restores_the_rune_and_rearms_it() {
    let mut s = GameSession::new(flat_2x2(20, 1));
    assert!(s.add_equipment(Equipment::Rewind));
    assert!(s.place_rune());
    let stamp = s.runes[0].timestamp;
    // Burn the countdown down with four committed moves.
    for _ in 0..2 {
        assert_eq!(s.go_direction(East), TurnOutcome::Refaced);
        assert_eq!(s.go_direction(East), TurnOutcome::Moved);
        assert_eq!(s.go_direction(West), TurnOutcome::Refaced);
        assert_eq!(s.go_direction(West), TurnOutcome::Moved);
    }
    assert_eq!(s.runes[0].countdown, 1);
    // countdown is now 1; the next commit fires.
    assert_eq!(s.go_direction(East), TurnOutcome::Refaced);
    assert_eq!(s.go_direction(East), TurnOutcome::Teleported);

    // Undo re-arms the rune with one tick and the stored stamp; the
    // actor stays where the teleport left it.
    assert_eq!(s.undo(), UndoOutcome::UndidTeleport);
    assert_eq!(s.runes.len(), 1);
    assert_eq!(s.runes[0].countdown, 1);
    assert_eq!(s.runes[0].timestamp, stamp);
    assert_eq!(s.runes[0].stamina, 20);
    assert_eq!((s.player.grid_pos_x, s.player.grid_pos_y), (0, 1));

    // Re-committing a move re-triggers the same teleport symmetrically.
    assert_eq!(s.go_direction(East), TurnOutcome::Refaced);
    assert_eq!(s.go_direction(East), TurnOutcome::Teleported);
    assert_eq!((s.player.grid_pos_x, s.player.grid_pos_y), (0, 1));
    assert_eq!(s.player.stamina, 20);
}

#[test]
fn place_ladder_then_undo_leaves_the_key_vacant() {
    let mut s = GameSession::new(level(
        vec![vec![3, 3], vec![1, 1]],
        vec![vec![false, false], vec![false, false]],
        (0, 1),
        (1, 1),
        None,
        None,
        10,
        4,
    ));
    assert!(s.add_equipment(Equipment::Ladder));
    assert_eq!(s.inventory.ladder_count, 1);
    assert_eq!(s.go_direction(North), TurnOutcome::Refaced);

    let key = VerticalLadderKey {
        x: 0,
        y: 0,
        height: 1,
        direction: North,
    };
    match s.toggle_ladder() {
        LadderActionOutcome::PlacedVertical { key: k, handle: _ } => assert_eq!(k, key),
        other => panic!("expected a vertical placement, got {:?}", other),
    }
    assert!(s.map.vertical_ladders.contains_key(&key));
    assert_eq!(s.inventory.ladder_count, 0);

    match s.undo() {
        UndoOutcome::UndidPlaceVerticalLadder(Some(_)) => {}
        other => panic!("expected the placement to be undone, got {:?}", other),
    }
    assert!(!s.map.vertical_ladders.contains_key(&key));
    assert_eq!(s.inventory.ladder_count, 1);
}

#[test]
fn pick_up_ladder_then_undo_replaces_it() {
    let mut s = GameSession::new(level(
        vec![vec![3, 3], vec![1, 1]],
        vec![vec![false, false], vec![false, false]],
        (0, 1),
        (1, 1),
        None,
        None,
        10,
        4,
    ));
    assert!(s.add_equipment(Equipment::Ladder));
    assert_eq!(s.go_direction(North), TurnOutcome::Refaced);
    let key = VerticalLadderKey {
        x: 0,
        y: 0,
        height: 1,
        direction: North,
    };
    assert!(matches!(
        s.toggle_ladder(),
        LadderActionOutcome::PlacedVertical { .. }
    ));
    // Toggling again over the same spot picks the ladder back up.
    match s.toggle_ladder() {
        LadderActionOutcome::PickedUpVertical { key: k, handle: _ } => assert_eq!(k, key),
        other => panic!("expected a pickup, got {:?}", other),
    }
    assert!(!s.map.vertical_ladders.contains_key(&key));
    assert_eq!(s.inventory.ladder_count, 1);

    // Undoing the pickup puts a ladder back on the key.
    match s.undo() {
        UndoOutcome::UndidPickUpVerticalLadder(Some(_)) => {}
        other => panic!("expected the pickup to be undone, got {:?}", other),
    }
    assert!(s.map.vertical_ladders.contains_key(&key));
    assert_eq!(s.inventory.ladder_count, 0);
}

#[test]
fn ladder_toggle_without_stock_or_spot() {
    // A valid vacant spot with no ladder in the inventory.
    let mut s = GameSession::new(level(
        vec![vec![3, 3], vec![1, 1]],
        vec![vec![false, false], vec![false, false]],
        (0, 1),
        (1, 1),
        None,
        None,
        10,
        4,
    ));
    assert_eq!(s.go_direction(North), TurnOutcome::Refaced);
    assert_eq!(s.toggle_ladder(), LadderActionOutcome::OutOfLadders);

    // No geometrically valid spot at all on flat ground.
    let mut t = GameSession::new(flat_2x2(10, 4));
    assert!(t.add_equipment(Equipment::Ladder));
    assert_eq!(t.go_direction(East), TurnOutcome::Refaced);
    assert_eq!(t.toggle_ladder(), LadderActionOutcome::NoPlacement);
}

#[test]
fn horizontal_ladder_bridges_a_gap() {
    let mut s = GameSession::new(level(
        vec![vec![2, 1, 2]],
        vec![vec![false, false, false]],
        (0, 0),
        (2, 0),
        None,
        None,
        10,
        4,
    ));
    assert!(s.add_equipment(Equipment::Ladder));
    assert_eq!(s.go_direction(East), TurnOutcome::Refaced);
    assert!(matches!(
        s.toggle_ladder(),
        LadderActionOutcome::PlacedHorizontal { .. }
    ));
    // Walk onto the bridge, then off the far side.
    assert_eq!(s.go_direction(East), TurnOutcome::Moved);
    assert!(matches!(
        s.player.state,
        PlayerState::StandingOnLadder(_)
    ));
    assert_eq!((s.player.grid_pos_x, s.player.grid_pos_y), (1, 0));
    assert_eq!(s.go_direction(East), TurnOutcome::Moved);
    assert_eq!(s.player.state, PlayerState::Standing(East));
    assert_eq!((s.player.grid_pos_x, s.player.grid_pos_y), (2, 0));
    assert_eq!(s.player.stamina, 8);
    assert!(s.at_flag());
}

#[test]
fn rope_placement_outcomes() {
    // A proper drop: the rope goes in, once.
    let mut s = GameSession::new(level(
        vec![vec![2, 2], vec![1, 1]],
        vec![vec![false, false], vec![false, false]],
        (0, 0),
        (1, 1),
        None,
        None,
        10,
        2,
    ));
    assert!(s.add_equipment(Equipment::Rope));
    match s.place_rope() {
        RopeActionOutcome::Placed { key, handle: _ } => {
            assert_eq!((key.x, key.y), (0, 0));
            assert_eq!(key.direction, South);
        }
        other => panic!("expected a rope placement, got {:?}", other),
    }
    assert_eq!(s.place_rope(), RopeActionOutcome::AlreadyPlaced);

    // The rope assists the descent: cost one instead of two.
    assert_eq!(s.go_direction(South), TurnOutcome::Moved);
    assert_eq!(s.player.stamina, 9);
    assert_eq!(
        s.player.state,
        PlayerState::Climbing(ClimbingState {
            direction: North,
            elevation: 2,
        })
    );
    // Not standing any more: no rope can be placed.
    assert_eq!(s.place_rope(), RopeActionOutcome::NotStanding);

    // Flat ground gives no drop; an edge is out of bounds; an empty
    // inventory is out of ropes.
    let mut t = GameSession::new(flat_2x2(10, 2));
    assert!(t.add_equipment(Equipment::Rope));
    assert_eq!(t.go_direction(East), TurnOutcome::Refaced);
    assert_eq!(t.place_rope(), RopeActionOutcome::NoDrop);

    let mut u = GameSession::new(level(
        vec![vec![2, 2], vec![1, 1]],
        vec![vec![false, false], vec![false, false]],
        (0, 1),
        (1, 1),
        None,
        None,
        10,
        2,
    ));
    assert!(u.add_equipment(Equipment::Rope));
    assert_eq!(u.place_rope(), RopeActionOutcome::OutOfBounds);

    let mut v = GameSession::new(level(
        vec![vec![2, 2], vec![1, 1]],
        vec![vec![false, false], vec![false, false]],
        (0, 0),
        (1, 1),
        None,
        None,
        10,
        2,
    ));
    assert_eq!(v.place_rope(), RopeActionOutcome::OutOfRopes);
}

#[test]
fn scale_pickup_is_compound_and_reversible() {
    let mut s = GameSession::new(level(
        vec![vec![1, 1], vec![1, 1]],
        vec![vec![false, false], vec![false, false]],
        (0, 1),
        (0, 0),
        Some((1, 1)),
        None,
        10,
        0,
    ));
    assert!(s.scale_present);
    assert_eq!(s.go_direction(East), TurnOutcome::Refaced);
    assert_eq!(s.go_direction(East), TurnOutcome::MovedToScale);
    assert_eq!(s.scale_counter, 1);
    assert!(!s.scale_present);
    assert_eq!(s.history.len(), 1);

    // One undo restores position, the collectible and the tally.
    assert_eq!(s.undo(), UndoOutcome::UndidMoveToScale);
    assert_eq!((s.player.grid_pos_x, s.player.grid_pos_y), (0, 1));
    assert_eq!(s.player.stamina, 10);
    assert_eq!(s.scale_counter, 0);
    assert!(s.scale_present);
    assert_eq!(s.history.len(), 0);
}

#[test]
fn gem_pickup_is_compound_and_reversible() {
    let cave = CaveData {
        first_pos: (0, 0),
        second_pos: (1, 0),
        gem_pos: Some((1, 1)),
    };
    let mut s = GameSession::new(level(
        vec![vec![1, 1], vec![1, 1]],
        vec![vec![false, false], vec![false, false]],
        (0, 1),
        (0, 0),
        None,
        Some(cave),
        10,
        0,
    ));
    assert!(!s.has_gem);
    assert_eq!(s.go_direction(East), TurnOutcome::Refaced);
    assert_eq!(s.go_direction(East), TurnOutcome::MovedToGem);
    assert!(s.has_gem);

    assert_eq!(s.undo(), UndoOutcome::UndidMoveToGem);
    assert!(!s.has_gem);
    assert_eq!((s.player.grid_pos_x, s.player.grid_pos_y), (0, 1));
    assert_eq!(s.player.stamina, 10);
}

#[test]
fn equipment_picking_respects_the_weight_budget() {
    let mut s = GameSession::new(flat_2x2(10, 2));
    assert!(s.add_equipment(Equipment::Ladder));
    assert_eq!(s.inventory.weight, 2);
    // The budget is full: nothing more fits.
    assert!(!s.add_equipment(Equipment::Rope));
    assert_eq!(s.inventory.rope_count, 0);

    assert!(s.remove_equipment(Equipment::Ladder));
    assert_eq!(s.inventory.ladder_count, 0);
    assert_eq!(s.inventory.weight, 0);
    assert!(!s.remove_equipment(Equipment::Ladder));

    // A potion grants its stamina on packing and takes it back on
    // unpacking.
    assert!(s.add_equipment(Equipment::Potion));
    assert_eq!(s.player.stamina, 12);
    assert!(s.remove_equipment(Equipment::Potion));
    assert_eq!(s.player.stamina, 10);
}

#[test]
fn skipped_inverses_survive_a_corrupted_log() {
    let mut s = GameSession::new(flat_2x2(10, 0));
    // A rune-placement event with no rune alive.
    s.history.push(PlayerHistoryEvent::PlaceRune);
    assert_eq!(s.undo(), UndoOutcome::UndidPlaceRune(false));

    // A ladder-placement event whose key is vacant.
    let key = VerticalLadderKey {
        x: 0,
        y: 0,
        height: 1,
        direction: North,
    };
    s.history.push(PlayerHistoryEvent::PlaceVerticalLadder(key));
    assert_eq!(s.undo(), UndoOutcome::UndidPlaceVerticalLadder(None));

    // A pickup event whose key is already occupied.
    assert!(s.map.vertical_ladders.place(key, 42).is_ok());
    s.history.push(PlayerHistoryEvent::PickUpVerticalLadder(key));
    assert_eq!(s.undo(), UndoOutcome::UndidPickUpVerticalLadder(None));
    assert!(s.map.vertical_ladders.contains_key(&key));
}

#[test]
fn stamina_cost_hints_match_the_rules() {
    let mut s = GameSession::new(flat_2x2(5, 0));
    // Walking off the south edge is illegal: no cost to show.
    assert_eq!(s.stamina_cost(South), None);
    // Turning east is free; once faced, the step itself costs one.
    assert_eq!(s.stamina_cost(East), Some(0));
    assert_eq!(s.go_direction(East), TurnOutcome::Refaced);
    assert_eq!(s.stamina_cost(East), Some(1));
}

#[test]
fn reaching_the_flag_is_observable() {
    let mut s = GameSession::new(flat_2x2(10, 0));
    assert!(!s.at_flag());
    assert_eq!(s.go_direction(East), TurnOutcome::Refaced);
    assert_eq!(s.go_direction(East), TurnOutcome::Moved);
    assert_eq!(s.go_direction(North), TurnOutcome::Refaced);
    assert_eq!(s.go_direction(North), TurnOutcome::Moved);
    assert!(s.at_flag());
}

#[test]
fn reload_resets_the_run_but_keeps_the_scale_tally() {
    let mut s = GameSession::new(level(
        vec![vec![1, 1], vec![1, 1]],
        vec![vec![false, false], vec![false, false]],
        (0, 1),
        (0, 0),
        Some((1, 1)),
        None,
        10,
        2,
    ));
    assert!(s.add_equipment(Equipment::Rope));
    assert_eq!(s.go_direction(East), TurnOutcome::Refaced);
    assert_eq!(s.go_direction(East), TurnOutcome::MovedToScale);
    assert_eq!(s.scale_counter, 1);

    s.reload();
    assert_eq!((s.player.grid_pos_x, s.player.grid_pos_y), (0, 1));
    assert_eq!(s.player.state, PlayerState::Standing(South));
    assert_eq!(s.player.stamina, 10);
    assert_eq!(s.history.len(), 0);
    assert_eq!(s.runes.len(), 0);
    assert_eq!(s.inventory.rope_count, 0);
    assert_eq!(s.inventory.weight, 0);
    assert!(s.scale_present);
    // The tally of collected scales survives a restart.
    assert_eq!(s.scale_counter, 1);
}
