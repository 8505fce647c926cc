use climber::direction::CardinalDirection;
use climber::map::GridMap;
use climber::player::{ClimbingState, LadderState, Player, PlayerState};

fn grid(heights: Vec<Vec<u8>>, climbable: Vec<Vec<bool>>) -> GridMap {
    let start = (0, 0);
    let flag = (0, 0);
    GridMap::new(heights, climbable, start, flag, None, None)
}

fn standing(x: u8, y: u8, d: CardinalDirection, stamina: u16) -> Player {
    Player {
        stamina,
        grid_pos_x: x,
        grid_pos_y: y,
        state: PlayerState::Standing(d),
    }
}

#[test]
fn unclimbable_rise_is_rejected() {
    // 2x2 grid, north row at height 2, south row at height 1, nothing
    // climbable: moving north into the rise must be rejected.
    let m = grid(
        vec![vec![2, 2], vec![1, 1]],
        vec![vec![false, false], vec![false, false]],
    );
    let p = standing(0, 1, CardinalDirection::North, 10);
    assert!(p.go(CardinalDirection::North, &m, false).is_none());
}

#[test]
fn climbable_rise_clings_then_mounts() {
    // Same grid with the north-west tile climbable: the first move
    // clings for free, the second pays the unassisted climb-up cost and
    // mounts the top.
    let m = grid(
        vec![vec![2, 2], vec![1, 1]],
        vec![vec![true, false], vec![false, false]],
    );
    let p = standing(0, 1, CardinalDirection::North, 10);

    let clung = p.go(CardinalDirection::North, &m, false).unwrap();
    assert_eq!(clung.stamina, 10);
    assert_eq!((clung.grid_pos_x, clung.grid_pos_y), (0, 1));
    assert_eq!(
        clung.state,
        PlayerState::Climbing(ClimbingState {
            direction: CardinalDirection::North,
            elevation: 2,
        })
    );

    let mounted = clung.go(CardinalDirection::North, &m, false).unwrap();
    assert_eq!(mounted.stamina, 6);
    assert_eq!((mounted.grid_pos_x, mounted.grid_pos_y), (0, 0));
    assert_eq!(mounted.state, PlayerState::Standing(CardinalDirection::North));
}

#[test]
fn refacing_is_free_and_stays_put() {
    let m = grid(
        vec![vec![1, 1], vec![1, 1]],
        vec![vec![false, false], vec![false, false]],
    );
    let p = standing(0, 1, CardinalDirection::South, 7);
    let turned = p.go(CardinalDirection::East, &m, false).unwrap();
    assert_eq!(turned.stamina, 7);
    assert_eq!((turned.grid_pos_x, turned.grid_pos_y), (0, 1));
    assert_eq!(turned.state, PlayerState::Standing(CardinalDirection::East));
}

#[test]
fn flat_move_costs_one() {
    let m = grid(
        vec![vec![1, 1], vec![1, 1]],
        vec![vec![false, false], vec![false, false]],
    );
    let p = standing(0, 1, CardinalDirection::East, 7);
    let moved = p.go(CardinalDirection::East, &m, false).unwrap();
    assert_eq!(moved.stamina, 6);
    assert_eq!((moved.grid_pos_x, moved.grid_pos_y), (1, 1));
}

#[test]
fn flat_move_without_stamina_is_rejected() {
    let m = grid(
        vec![vec![1, 1], vec![1, 1]],
        vec![vec![false, false], vec![false, false]],
    );
    let p = standing(0, 1, CardinalDirection::East, 0);
    assert!(p.go(CardinalDirection::East, &m, false).is_none());
}

#[test]
fn walking_off_the_edge_is_rejected() {
    let m = grid(
        vec![vec![1, 1], vec![1, 1]],
        vec![vec![false, false], vec![false, false]],
    );
    let p = standing(0, 1, CardinalDirection::South, 9);
    assert!(p.go(CardinalDirection::South, &m, false).is_none());
    let q = standing(0, 0, CardinalDirection::West, 9);
    assert!(q.go(CardinalDirection::West, &m, false).is_none());
}

#[test]
fn climbing_down_an_own_climbable_tile_costs_two() {
    // Standing on a climbable tile above a drop: descending transitions
    // to climbing, facing back, for the unassisted climb-down cost.
    let m = grid(
        vec![vec![2, 2], vec![1, 1]],
        vec![vec![true, false], vec![false, false]],
    );
    let p = standing(0, 0, CardinalDirection::South, 10);
    let hanging = p.go(CardinalDirection::South, &m, false).unwrap();
    assert_eq!(hanging.stamina, 8);
    assert_eq!((hanging.grid_pos_x, hanging.grid_pos_y), (0, 1));
    assert_eq!(
        hanging.state,
        PlayerState::Climbing(ClimbingState {
            direction: CardinalDirection::North,
            elevation: 2,
        })
    );

    // One step down reaches the bottom: dismounting is free.
    let down = hanging.go(CardinalDirection::South, &m, false).unwrap();
    assert_eq!(down.stamina, 8);
    assert_eq!((down.grid_pos_x, down.grid_pos_y), (0, 1));
    assert_eq!(down.state, PlayerState::Standing(CardinalDirection::North));
}

#[test]
fn climbing_sideways_costs_two() {
    let m = grid(
        vec![vec![2, 2], vec![1, 1]],
        vec![vec![true, true], vec![false, false]],
    );
    let p = Player {
        stamina: 10,
        grid_pos_x: 0,
        grid_pos_y: 1,
        state: PlayerState::Climbing(ClimbingState {
            direction: CardinalDirection::North,
            elevation: 2,
        }),
    };
    let shifted = p.go(CardinalDirection::East, &m, false).unwrap();
    assert_eq!(shifted.stamina, 8);
    assert_eq!((shifted.grid_pos_x, shifted.grid_pos_y), (1, 1));
    assert_eq!(
        shifted.state,
        PlayerState::Climbing(ClimbingState {
            direction: CardinalDirection::North,
            elevation: 2,
        })
    );
}

#[test]
fn climbing_sideways_needs_a_climbable_wall() {
    let m = grid(
        vec![vec![2, 2], vec![1, 1]],
        vec![vec![true, false], vec![false, false]],
    );
    let p = Player {
        stamina: 10,
        grid_pos_x: 0,
        grid_pos_y: 1,
        state: PlayerState::Climbing(ClimbingState {
            direction: CardinalDirection::North,
            elevation: 2,
        }),
    };
    assert!(p.go(CardinalDirection::East, &m, false).is_none());
}

#[test]
fn ladder_dismounts_onto_level_ground() {
    let m = grid(vec![vec![2, 1, 2]], vec![vec![false, false, false]]);
    let p = Player {
        stamina: 5,
        grid_pos_x: 1,
        grid_pos_y: 0,
        state: PlayerState::StandingOnLadder(LadderState {
            direction: CardinalDirection::East,
            elevation: 2,
            alignment: climber::direction::Alignment::Xaxis,
        }),
    };
    let off = p.go(CardinalDirection::East, &m, false).unwrap();
    assert_eq!(off.stamina, 4);
    assert_eq!((off.grid_pos_x, off.grid_pos_y), (2, 0));
    assert_eq!(off.state, PlayerState::Standing(CardinalDirection::East));
}

#[test]
fn ladder_toward_higher_wall_starts_climbing() {
    let m = grid(vec![vec![2, 1, 3]], vec![vec![false, false, false]]);
    let p = Player {
        stamina: 5,
        grid_pos_x: 1,
        grid_pos_y: 0,
        state: PlayerState::StandingOnLadder(LadderState {
            direction: CardinalDirection::East,
            elevation: 2,
            alignment: climber::direction::Alignment::Xaxis,
        }),
    };
    let clung = p.go(CardinalDirection::East, &m, false).unwrap();
    assert_eq!(clung.stamina, 5);
    assert_eq!((clung.grid_pos_x, clung.grid_pos_y), (1, 0));
    assert_eq!(
        clung.state,
        PlayerState::Climbing(ClimbingState {
            direction: CardinalDirection::East,
            elevation: 3,
        })
    );
}

#[test]
fn ladder_toward_lower_ground_is_rejected() {
    let m = grid(vec![vec![2, 1, 0]], vec![vec![false, false, false]]);
    let p = Player {
        stamina: 5,
        grid_pos_x: 1,
        grid_pos_y: 0,
        state: PlayerState::StandingOnLadder(LadderState {
            direction: CardinalDirection::East,
            elevation: 2,
            alignment: climber::direction::Alignment::Xaxis,
        }),
    };
    assert!(p.go(CardinalDirection::East, &m, false).is_none());
}

#[test]
fn stamina_never_increases_on_legal_moves() {
    // Walk a well-stocked actor through a batch of legal moves and
    // check monotonicity at every step.
    let m = grid(
        vec![vec![2, 2], vec![1, 1]],
        vec![vec![true, true], vec![true, true]],
    );
    let mut p = standing(0, 1, CardinalDirection::South, 20);
    let commands = [
        CardinalDirection::East,
        CardinalDirection::East,
        CardinalDirection::West,
        CardinalDirection::West,
        CardinalDirection::North,
        CardinalDirection::North,
        CardinalDirection::North,
        CardinalDirection::South,
        CardinalDirection::South,
    ];
    for d in commands {
        if let Some(next) = p.go(d, &m, false) {
            assert!(next.stamina <= p.stamina);
            p = next;
        }
    }
}

#[test]
fn cave_teleports_to_partner_tile() {
    let cave = climber::map::CaveData {
        first_pos: (0, 1),
        second_pos: (1, 1),
        gem_pos: None,
    };
    let m = GridMap::new(
        vec![vec![1, 1], vec![1, 1]],
        vec![vec![false, false], vec![false, false]],
        (0, 1),
        (0, 0),
        None,
        Some(cave),
    );
    let p = standing(0, 1, CardinalDirection::North, 10);

    // Gate closed: entering is rejected outright.
    assert!(p.go(CardinalDirection::North, &m, false).is_none());

    // Gate open: entering the first cave lands at the second.
    let tp = p.go(CardinalDirection::North, &m, true).unwrap();
    assert_eq!(tp.stamina, 9);
    assert_eq!((tp.grid_pos_x, tp.grid_pos_y), (1, 1));
    assert_eq!(tp.state, PlayerState::Standing(CardinalDirection::North));

    // Entering the second cave lands back at the first, facing out.
    let q = standing(1, 1, CardinalDirection::North, 9);
    let back = q.go(CardinalDirection::North, &m, true).unwrap();
    assert_eq!(back.stamina, 8);
    assert_eq!((back.grid_pos_x, back.grid_pos_y), (0, 1));
    assert_eq!(back.state, PlayerState::Standing(CardinalDirection::South));
}

#[test]
fn reverse_is_an_involution() {
    for d in [
        CardinalDirection::North,
        CardinalDirection::East,
        CardinalDirection::South,
        CardinalDirection::West,
    ] {
        assert_eq!(d.reverse().reverse(), d);
        assert_ne!(d.reverse(), d);
    }
}
