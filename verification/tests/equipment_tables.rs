use climber::direction::{Alignment, CardinalDirection};
use climber::equipment::{
    HorizontalLadderKey, RopeKey, RopeMap, VerticalLadderKey, VerticalLadderMap,
};
use climber::map::GridMap;

fn vkey(x: u8, y: u8, height: u8) -> VerticalLadderKey {
    VerticalLadderKey {
        x,
        y,
        height,
        direction: CardinalDirection::North,
    }
}

#[test]
fn placing_on_an_occupied_key_is_rejected() {
    let mut t = VerticalLadderMap::new();
    assert!(t.place(vkey(1, 2, 3), 10).is_ok());
    assert!(t.place(vkey(1, 2, 3), 11).is_err());
    // The first handle is still the stored one.
    assert_eq!(t.remove(&vkey(1, 2, 3)), Some(10));
}

#[test]
fn removing_from_a_vacant_key_is_rejected() {
    let mut t = VerticalLadderMap::new();
    assert_eq!(t.remove(&vkey(1, 2, 3)), None);
    assert!(t.place(vkey(1, 2, 3), 10).is_ok());
    assert_eq!(t.remove(&vkey(9, 9, 9)), None);
    assert_eq!(t.remove(&vkey(1, 2, 3)), Some(10));
    assert_eq!(t.remove(&vkey(1, 2, 3)), None);
}

#[test]
fn distinct_keys_hold_distinct_pieces() {
    let mut t = RopeMap::new();
    let a = RopeKey {
        x: 0,
        y: 0,
        direction: CardinalDirection::North,
    };
    let b = RopeKey {
        x: 0,
        y: 0,
        direction: CardinalDirection::South,
    };
    assert!(t.place(a, 1).is_ok());
    assert!(t.place(b, 2).is_ok());
    assert!(t.contains_key(&a));
    assert!(t.contains_key(&b));
    assert_eq!(t.remove(&a), Some(1));
    assert!(!t.contains_key(&a));
    assert!(t.contains_key(&b));
}

#[test]
fn reset_leaves_every_key_vacant() {
    let mut m = GridMap::new(
        vec![vec![3, 3], vec![1, 1]],
        vec![vec![false, false], vec![false, false]],
        (0, 1),
        (1, 1),
        None,
        None,
    );
    let vk = vkey(0, 0, 1);
    let hk = HorizontalLadderKey {
        x: 1,
        y: 1,
        height: 1,
        alignment: Alignment::Xaxis,
    };
    let rk = RopeKey {
        x: 0,
        y: 0,
        direction: CardinalDirection::South,
    };
    assert!(m.vertical_ladders.place(vk, 1).is_ok());
    assert!(m.horizontal_ladders.place(hk, 2).is_ok());
    assert!(m.ropes.place(rk, 3).is_ok());

    m.reset();
    assert!(!m.vertical_ladders.contains_key(&vk));
    assert!(!m.horizontal_ladders.contains_key(&hk));
    assert!(!m.ropes.contains_key(&rk));
    // Idempotent: resetting again changes nothing.
    m.reset();
    assert!(!m.vertical_ladders.contains_key(&vk));
}

#[test]
fn assist_oracle_sees_vertical_ladders_one_or_two_below() {
    let mut m = GridMap::new(
        vec![vec![3, 3], vec![1, 1]],
        vec![vec![false, false], vec![false, false]],
        (0, 1),
        (1, 1),
        None,
        None,
    );
    // A ladder with its foot at elevation 0 on the tile north of (0, 1).
    assert!(m.vertical_ladders.place(vkey(0, 0, 0), 7).is_ok());
    assert!(m.is_ladder_or_rope(0, 1, 1, CardinalDirection::North));
    assert!(m.is_ladder_or_rope(0, 1, 2, CardinalDirection::North));
    // At the ladder's own height, or too far above, it does not assist;
    // near-zero heights fail closed instead of wrapping.
    assert!(!m.is_ladder_or_rope(0, 1, 0, CardinalDirection::North));
    assert!(!m.is_ladder_or_rope(0, 1, 3, CardinalDirection::North));
}

#[test]
fn assist_oracle_sees_ropes_from_the_facing_tile() {
    let mut m = GridMap::new(
        vec![vec![3, 3], vec![1, 1]],
        vec![vec![false, false], vec![false, false]],
        (0, 1),
        (1, 1),
        None,
        None,
    );
    // A rope tied at (0, 0) hanging south, toward (0, 1).
    let rk = RopeKey {
        x: 0,
        y: 0,
        direction: CardinalDirection::South,
    };
    assert!(m.ropes.place(rk, 9).is_ok());
    // Queried from (0, 1) facing north at any height.
    assert!(m.is_ladder_or_rope(0, 1, 0, CardinalDirection::North));
    assert!(m.is_ladder_or_rope(0, 1, 3, CardinalDirection::North));
    // Facing a different way, no assistance.
    assert!(!m.is_ladder_or_rope(0, 1, 3, CardinalDirection::East));
}

#[test]
fn assist_oracle_fails_closed_off_grid() {
    let m = GridMap::new(
        vec![vec![3, 3], vec![1, 1]],
        vec![vec![false, false], vec![false, false]],
        (0, 1),
        (1, 1),
        None,
        None,
    );
    // Facing west from the west edge leaves the grid: no assistance.
    assert!(!m.is_ladder_or_rope(0, 1, 2, CardinalDirection::West));
}

#[test]
fn bounds_checked_lookups_fail_closed() {
    let m = GridMap::new(
        vec![vec![3, 2], vec![1, 1]],
        vec![vec![true, false], vec![false, false]],
        (0, 1),
        (1, 1),
        None,
        None,
    );
    assert_eq!(m.height(0, 0), Some(3));
    assert_eq!(m.height(1, 1), Some(1));
    assert_eq!(m.height(2, 0), None);
    assert_eq!(m.height(0, 2), None);
    assert_eq!(m.climbable(0, 0), Some(true));
    assert_eq!(m.climbable(5, 5), None);
}
