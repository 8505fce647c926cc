//! The actor: position, stance and stamina, and the movement rule engine
//! that decides the outcome of one requested step.

use vstd::pervasive::unreached;
use vstd::prelude::*;

use crate::direction::{Alignment, CardinalDirection};
use crate::equipment::HorizontalLadderKey;
use crate::map::GridMap;

verus! {

/// Stamina cost of a flat move, of stepping onto or off a horizontal
/// ladder, and of any assisted climb.
pub const MOVE_STAMINA: u16 = 1;

/// Stamina cost of climbing one unit up an unassisted wall.
pub const CLIMB_UP_STAMINA: u16 = 4;

/// Stamina cost of shuffling sideways along a wall.
pub const CLIMB_SIDEWAYS_STAMINA: u16 = 2;

/// Stamina cost of climbing one unit down an unassisted wall.
pub const CLIMB_DOWN_STAMINA: u16 = 2;

/// Clinging to a vertical wall face: the direction faced (toward the
/// wall) and the elevation of the handhold, i.e. the height the current
/// climb step leads to.
#[derive(Debug, Clone, Copy, PartialEq, Eq, Structural)]
pub struct ClimbingState {
    pub direction: CardinalDirection,
    pub elevation: u8,
}

/// Standing on a horizontal ladder bridging a drop: the direction
/// travelled when stepping on, the elevation of the ladder, and the axis
/// it lies along.
#[derive(Debug, Clone, Copy, PartialEq, Eq, Structural)]
pub struct LadderState {
    pub direction: CardinalDirection,
    pub elevation: u8,
    pub alignment: Alignment,
}

/// The actor's stance: a closed sum so that no invalid combination of
/// per-stance data can be represented.
#[derive(Debug, Clone, Copy, PartialEq, Eq, Structural)]
pub enum PlayerState {
    Standing(CardinalDirection),
    Climbing(ClimbingState),
    StandingOnLadder(LadderState),
}

/// The full actor state: grid position, stance and remaining stamina.
/// Every accepted move replaces the whole value; the previous value is
/// what the undo log stores.
#[derive(Debug, Clone, Copy, PartialEq, Eq, Structural)]
pub struct Player {
    pub stamina: u16,
    pub grid_pos_x: u8,
    pub grid_pos_y: u8,
    pub state: PlayerState,
}

impl Player {
    pub open spec fn pos_x(self) -> int {
        self.grid_pos_x as int
    }

    pub open spec fn pos_y(self) -> int {
        self.grid_pos_y as int
    }

    /// The actor sits on the grid, and a climbing actor faces an
    /// in-bounds wall tile whose top is at least at the handhold, from a
    /// tile strictly below the handhold. An actor on a horizontal ladder
    /// bridges a genuine drop.
    pub open spec fn wf(self, m: GridMap) -> bool {
        &&& m.in_bounds(self.pos_x(), self.pos_y())
        &&& match self.state {
            PlayerState::Standing(_) => true,
            PlayerState::Climbing(cs) => {
                let fx = self.pos_x() + cs.direction.dx();
                let fy = self.pos_y() + cs.direction.dy();
                &&& m.in_bounds(fx, fy)
                &&& m.height_at(self.pos_x(), self.pos_y()) < cs.elevation
                &&& cs.elevation <= m.height_at(fx, fy)
            },
            PlayerState::StandingOnLadder(ls) => m.height_at(self.pos_x(), self.pos_y())
                < ls.elevation,
        }
    }

    /// A move is a pure re-facing when both states are standing and only
    /// the facing differs; such moves cost nothing and are never recorded
    /// in the undo log on their own.
    pub open spec fn spec_is_reface(self, other: Player) -> bool {
        match (self.state, other.state) {
            (PlayerState::Standing(d1), PlayerState::Standing(d2)) => d1 != d2,
            _ => false,
        }
    }

    /// Exec mirror of [`Self::spec_is_reface`].
    pub fn has_direction_changed(&self, other: &Player) -> (r: bool)
        ensures
            r == self.spec_is_reface(*other),
    {
        match (&self.state, &other.state) {
            (PlayerState::Standing(d1), PlayerState::Standing(d2)) => d1 != d2,
            _ => false,
        }
    }

    /// What one requested step in `direction` does, as a mathematical
    /// function of the actor, the grid and the cave gate. `None` is a
    /// rejected move; `Some` carries the replacement actor state.
    pub open spec fn go_spec(
        self,
        direction: CardinalDirection,
        m: GridMap,
        can_enter_cave: bool,
    ) -> Option<Player> {
        // A standing actor first turns to face the direction of travel.
        if self.state matches PlayerState::Standing(facing) && facing != direction {
            Some(Player { state: PlayerState::Standing(direction), ..self })
        } else if (self.state matches PlayerState::Standing(_) || self.state
            matches PlayerState::StandingOnLadder(_)) && !m.in_bounds(
            self.pos_x() + direction.dx(),
            self.pos_y() + direction.dy(),
        ) {
            // Walking off the grid edge is illegal; a climber moves
            // relative to the clung wall and is checked per sub-case.
            None
        } else {
            match self.state {
                PlayerState::Standing(_) => self.standing_spec(direction, m, can_enter_cave),
                PlayerState::Climbing(cs) => self.climbing_spec(cs, direction, m),
                PlayerState::StandingOnLadder(ls) => self.on_ladder_spec(ls, direction, m),
            }
        }
    }

    /// Standing moves: cave teleport, flat travel, clinging to a rise,
    /// dropping onto a horizontal ladder, or descending a wall.
    pub open spec fn standing_spec(
        self,
        direction: CardinalDirection,
        m: GridMap,
        can_enter_cave: bool,
    ) -> Option<Player>
        recommends
            m.wf(),
            self.wf(m),
    {
        match m.cave_data {
            Some(c) => {
                if direction == CardinalDirection::North && c.first_pos == (
                    self.grid_pos_x,
                    self.grid_pos_y,
                ) {
                    // Entering the first cave teleports to the second.
                    if !can_enter_cave {
                        None
                    } else if self.stamina >= MOVE_STAMINA {
                        Some(
                            Player {
                                stamina: (self.stamina - MOVE_STAMINA) as u16,
                                grid_pos_x: c.second_pos.0,
                                grid_pos_y: c.second_pos.1,
                                state: PlayerState::Standing(direction),
                            },
                        )
                    } else {
                        None
                    }
                } else if direction == CardinalDirection::North && c.second_pos == (
                    self.grid_pos_x,
                    self.grid_pos_y,
                ) {
                    // Entering the second cave teleports to the first,
                    // facing back out of it.
                    if !can_enter_cave {
                        None
                    } else if self.stamina >= MOVE_STAMINA {
                        Some(
                            Player {
                                stamina: (self.stamina - MOVE_STAMINA) as u16,
                                grid_pos_x: c.first_pos.0,
                                grid_pos_y: c.first_pos.1,
                                state: PlayerState::Standing(CardinalDirection::South),
                            },
                        )
                    } else {
                        None
                    }
                } else {
                    self.standing_terrain_spec(direction, m)
                }
            },
            None => self.standing_terrain_spec(direction, m),
        }
    }

    /// Standing moves over ordinary terrain (no cave involved).
    pub open spec fn standing_terrain_spec(
        self,
        direction: CardinalDirection,
        m: GridMap,
    ) -> Option<Player>
        recommends
            m.wf(),
            self.wf(m),
    {
        let cur = m.height_at(self.pos_x(), self.pos_y());
        let nx = self.pos_x() + direction.dx();
        let ny = self.pos_y() + direction.dy();
        {
            let nh = m.height_at(nx, ny);
            if nh == cur {
                // Flat travel.
                if self.stamina >= MOVE_STAMINA {
                    Some(
                        Player {
                            stamina: (self.stamina - MOVE_STAMINA) as u16,
                            grid_pos_x: nx as u8,
                            grid_pos_y: ny as u8,
                            state: PlayerState::Standing(direction),
                        },
                    )
                } else {
                    None
                }
            } else if nh > cur {
                // A rise: cling to the wall if it is climbable or
                // assisted; the costly step is the climb that follows.
                if m.climbable_at(nx, ny) || m.spec_is_ladder_or_rope(
                    self.grid_pos_x,
                    self.grid_pos_y,
                    (cur + 1) as u8,
                    direction,
                ) {
                    Some(
                        Player {
                            state: PlayerState::Climbing(
                                ClimbingState { direction, elevation: (cur + 1) as u8 },
                            ),
                            ..self
                        },
                    )
                } else {
                    None
                }
            } else if m.horizontal_ladders@.dom().contains(
                HorizontalLadderKey {
                    x: nx as u8,
                    y: ny as u8,
                    height: cur,
                    alignment: Alignment::spec_of_direction(direction),
                },
            ) {
                // A drop bridged by a horizontal ladder at the current
                // elevation.
                if self.stamina >= MOVE_STAMINA {
                    Some(
                        Player {
                            stamina: (self.stamina - MOVE_STAMINA) as u16,
                            grid_pos_x: nx as u8,
                            grid_pos_y: ny as u8,
                            state: PlayerState::StandingOnLadder(
                                LadderState {
                                    direction,
                                    elevation: cur,
                                    alignment: Alignment::spec_of_direction(direction),
                                },
                            ),
                        },
                    )
                } else {
                    None
                }
            } else if m.climbable_at(self.pos_x(), self.pos_y()) || m.spec_is_ladder_or_rope(
                nx as u8,
                ny as u8,
                cur,
                direction.spec_reverse(),
            ) {
                // Climbing down over the edge of the current tile, facing
                // back the way we came.
                let cost = if m.spec_is_ladder_or_rope(
                    nx as u8,
                    ny as u8,
                    cur,
                    direction.spec_reverse(),
                ) {
                    MOVE_STAMINA
                } else {
                    CLIMB_DOWN_STAMINA
                };
                if self.stamina >= cost {
                    Some(
                        Player {
                            stamina: (self.stamina - cost) as u16,
                            grid_pos_x: nx as u8,
                            grid_pos_y: ny as u8,
                            state: PlayerState::Climbing(
                                ClimbingState {
                                    direction: direction.spec_reverse(),
                                    elevation: cur,
                                },
                            ),
                        },
                    )
                } else {
                    None
                }
            } else {
                None
            }
        }
    }

    /// Climbing moves: up toward the wall, down away from it, or
    /// sideways along it.
    pub open spec fn climbing_spec(
        self,
        cs: ClimbingState,
        direction: CardinalDirection,
        m: GridMap,
    ) -> Option<Player>
        recommends
            m.wf(),
            self.wf(m),
    {
        match direction {
            CardinalDirection::North => {
                // Climb up. The wall tile faced is in bounds by the
                // climbing invariant.
                let nx = self.pos_x() + cs.direction.dx();
                let ny = self.pos_y() + cs.direction.dy();
                let cost = if m.spec_is_ladder_or_rope(
                    self.grid_pos_x,
                    self.grid_pos_y,
                    cs.elevation,
                    cs.direction,
                ) {
                    MOVE_STAMINA
                } else {
                    CLIMB_UP_STAMINA
                };
                if cost == MOVE_STAMINA || m.climbable_at(nx, ny) {
                    if self.stamina < cost {
                        None
                    } else if m.height_at(nx, ny) == cs.elevation {
                        // Mount the top of the wall.
                        Some(
                            Player {
                                stamina: (self.stamina - cost) as u16,
                                grid_pos_x: nx as u8,
                                grid_pos_y: ny as u8,
                                state: PlayerState::Standing(cs.direction),
                            },
                        )
                    } else {
                        // One handhold higher.
                        Some(
                            Player {
                                stamina: (self.stamina - cost) as u16,
                                state: PlayerState::Climbing(
                                    ClimbingState {
                                        direction: cs.direction,
                                        elevation: (cs.elevation + 1) as u8,
                                    },
                                ),
                                ..self
                            },
                        )
                    }
                } else {
                    None
                }
            },
            CardinalDirection::East => self.climb_sideways_spec(
                cs,
                cs.direction.spec_clockwise(),
                m,
            ),
            CardinalDirection::South => {
                // Climb down, or dismount when already at the bottom.
                let cur = m.height_at(self.pos_x(), self.pos_y());
                if cur + 1 == cs.elevation {
                    Some(Player { state: PlayerState::Standing(cs.direction), ..self })
                } else {
                    let cost = if m.spec_is_ladder_or_rope(
                        self.grid_pos_x,
                        self.grid_pos_y,
                        cs.elevation,
                        cs.direction,
                    ) {
                        MOVE_STAMINA
                    } else {
                        CLIMB_DOWN_STAMINA
                    };
                    if self.stamina >= cost && cs.elevation >= 1 {
                        Some(
                            Player {
                                stamina: (self.stamina - cost) as u16,
                                state: PlayerState::Climbing(
                                    ClimbingState {
                                        direction: cs.direction,
                                        elevation: (cs.elevation - 1) as u8,
                                    },
                                ),
                                ..self
                            },
                        )
                    } else {
                        None
                    }
                }
            },
            CardinalDirection::West => self.climb_sideways_spec(
                cs,
                cs.direction.spec_counter_clockwise(),
                m,
            ),
        }
    }

    /// A sideways shuffle along the wall in lateral direction `lat`:
    /// legal when the tile moved onto and the wall tile newly clung to
    /// are both on the grid, the new wall is climbable, the new floor is
    /// below the handhold and the new wall reaches it.
    pub open spec fn climb_sideways_spec(
        self,
        cs: ClimbingState,
        lat: CardinalDirection,
        m: GridMap,
    ) -> Option<Player>
        recommends
            m.wf(),
            self.wf(m),
    {
        let nx = self.pos_x() + lat.dx();
        let ny = self.pos_y() + lat.dy();
        let wx = nx + cs.direction.dx();
        let wy = ny + cs.direction.dy();
        if !m.in_bounds(nx, ny) || !m.in_bounds(wx, wy) {
            None
        } else if !m.climbable_at(wx, wy) {
            None
        } else if m.height_at(nx, ny) >= cs.elevation || m.height_at(wx, wy) < cs.elevation {
            None
        } else if self.stamina >= CLIMB_SIDEWAYS_STAMINA {
            Some(
                Player {
                    stamina: (self.stamina - CLIMB_SIDEWAYS_STAMINA) as u16,
                    grid_pos_x: nx as u8,
                    grid_pos_y: ny as u8,
                    state: PlayerState::Climbing(cs),
                },
            )
        } else {
            None
        }
    }

    /// Moves from a horizontal ladder: step off onto level ground, or
    /// cling to a higher wall ahead.
    pub open spec fn on_ladder_spec(
        self,
        ls: LadderState,
        direction: CardinalDirection,
        m: GridMap,
    ) -> Option<Player>
        recommends
            m.wf(),
            self.wf(m),
    {
        let nx = self.pos_x() + direction.dx();
        let ny = self.pos_y() + direction.dy();
        let nh = m.height_at(nx, ny);
        if nh == ls.elevation {
            if self.stamina >= MOVE_STAMINA {
                Some(
                    Player {
                        stamina: (self.stamina - MOVE_STAMINA) as u16,
                        grid_pos_x: nx as u8,
                        grid_pos_y: ny as u8,
                        state: PlayerState::Standing(direction),
                    },
                )
            } else {
                None
            }
        } else if nh > ls.elevation {
            Some(
                Player {
                    state: PlayerState::Climbing(
                        ClimbingState { direction, elevation: (ls.elevation + 1) as u8 },
                    ),
                    ..self
                },
            )
        } else {
            None
        }
    }
}

impl Player {
    /// Attempt one move. `None` is a rejected move and changes nothing;
    /// `Some` is the replacement actor state with stamina already
    /// debited. Legal moves never increase stamina, preserve
    /// well-formedness, and a standing actor asked to travel somewhere it
    /// is not facing merely turns, at no cost.
    pub fn go(&self, direction: CardinalDirection, map: &GridMap, can_enter_cave: bool) -> (r:
        Option<Player>)
        requires
            map.wf(),
            self.wf(*map),
        ensures
            r == self.go_spec(direction, *map, can_enter_cave),
            r matches Some(p) ==> p.wf(*map),
            r matches Some(p) ==> p.stamina <= self.stamina,
            (self.state matches PlayerState::Standing(f) && f != direction) ==> r == Some(
                Player { state: PlayerState::Standing(direction), ..*self },
            ),
    {
        let x = self.grid_pos_x;
        let y = self.grid_pos_y;

        // A standing actor first turns to face the direction of travel.
        if let PlayerState::Standing(facing) = self.state {
            if facing != direction {
                return Some(
                    Player {
                        stamina: self.stamina,
                        grid_pos_x: x,
                        grid_pos_y: y,
                        state: PlayerState::Standing(direction),
                    },
                );
            }
        }

        // Walking off the grid edge is illegal while standing (on ground
        // or on a ladder).
        let on_ground = match self.state {
            PlayerState::Standing(_) => true,
            PlayerState::StandingOnLadder(_) => true,
            PlayerState::Climbing(_) => false,
        };
        let ahead = map.step(x, y, direction);
        if on_ground && ahead.is_none() {
            return None;
        }

        match self.state {
            PlayerState::Standing(_) => self.go_standing(direction, map, can_enter_cave),
            PlayerState::Climbing(cs) => self.go_climbing(cs, direction, map),
            PlayerState::StandingOnLadder(ls) => {
                let (nx, ny) = match ahead {
                    Some(t) => t,
                    None => unreached(),
                };
                let nh = map.grid_heights[ny as usize][nx as usize];
                if nh == ls.elevation {
                    if self.stamina >= MOVE_STAMINA {
                        Some(
                            Player {
                                stamina: self.stamina - MOVE_STAMINA,
                                grid_pos_x: nx,
                                grid_pos_y: ny,
                                state: PlayerState::Standing(direction),
                            },
                        )
                    } else {
                        None
                    }
                } else if nh > ls.elevation {
                    Some(
                        Player {
                            stamina: self.stamina,
                            grid_pos_x: x,
                            grid_pos_y: y,
                            state: PlayerState::Climbing(
                                ClimbingState { direction, elevation: ls.elevation + 1 },
                            ),
                        },
                    )
                } else {
                    None
                }
            },
        }
    }

    /// Standing moves, after the re-face and edge checks have passed.
    fn go_standing(&self, direction: CardinalDirection, map: &GridMap, can_enter_cave: bool) -> (r:
        Option<Player>)
        requires
            map.wf(),
            self.wf(*map),
            self.state matches PlayerState::Standing(f) && f == direction,
            map.in_bounds(self.pos_x() + direction.dx(), self.pos_y() + direction.dy()),
        ensures
            r == self.standing_spec(direction, *map, can_enter_cave),
            r matches Some(p) ==> p.wf(*map),
            r matches Some(p) ==> p.stamina <= self.stamina,
    {
        let x = self.grid_pos_x;
        let y = self.grid_pos_y;
        if let Some(cave) = &map.cave_data {
            if matches!(direction, CardinalDirection::North) && cave.first_pos.0 == x
                && cave.first_pos.1 == y {
                // Entering the first cave teleports to the second.
                if !can_enter_cave {
                    return None;
                }
                return if self.stamina >= MOVE_STAMINA {
                    Some(
                        Player {
                            stamina: self.stamina - MOVE_STAMINA,
                            grid_pos_x: cave.second_pos.0,
                            grid_pos_y: cave.second_pos.1,
                            state: PlayerState::Standing(direction),
                        },
                    )
                } else {
                    None
                };
            }
            if matches!(direction, CardinalDirection::North) && cave.second_pos.0 == x
                && cave.second_pos.1 == y {
                // Entering the second cave teleports to the first,
                // facing back out of it.
                if !can_enter_cave {
                    return None;
                }
                return if self.stamina >= MOVE_STAMINA {
                    Some(
                        Player {
                            stamina: self.stamina - MOVE_STAMINA,
                            grid_pos_x: cave.first_pos.0,
                            grid_pos_y: cave.first_pos.1,
                            state: PlayerState::Standing(CardinalDirection::South),
                        },
                    )
                } else {
                    None
                };
            }
        }
        let (nx, ny) = match map.step(x, y, direction) {
            Some(t) => t,
            None => unreached(),
        };
        let cur = map.grid_heights[y as usize][x as usize];
        let nh = map.grid_heights[ny as usize][nx as usize];
        if nh == cur {
            // Flat travel.
            if self.stamina >= MOVE_STAMINA {
                Some(
                    Player {
                        stamina: self.stamina - MOVE_STAMINA,
                        grid_pos_x: nx,
                        grid_pos_y: ny,
                        state: PlayerState::Standing(direction),
                    },
                )
            } else {
                None
            }
        } else if nh > cur {
            // A rise: cling to the wall if it is climbable or assisted.
            if map.grid_climbable[ny as usize][nx as usize] || map.is_ladder_or_rope(
                x,
                y,
                cur + 1,
                direction,
            ) {
                Some(
                    Player {
                        stamina: self.stamina,
                        grid_pos_x: x,
                        grid_pos_y: y,
                        state: PlayerState::Climbing(
                            ClimbingState { direction, elevation: cur + 1 },
                        ),
                    },
                )
            } else {
                None
            }
        } else if map.horizontal_ladders.contains_key(
            &HorizontalLadderKey { x: nx, y: ny, height: cur, alignment: direction.into() },
        ) {
            // A drop bridged by a horizontal ladder at the current
            // elevation.
            if self.stamina >= MOVE_STAMINA {
                Some(
                    Player {
                        stamina: self.stamina - MOVE_STAMINA,
                        grid_pos_x: nx,
                        grid_pos_y: ny,
                        state: PlayerState::StandingOnLadder(
                            LadderState { direction, elevation: cur, alignment: direction.into() },
                        ),
                    },
                )
            } else {
                None
            }
        } else if map.grid_climbable[y as usize][x as usize] || map.is_ladder_or_rope(
            nx,
            ny,
            cur,
            direction.reverse(),
        ) {
            // Climbing down over the edge of the current tile.
            let cost = if map.is_ladder_or_rope(nx, ny, cur, direction.reverse()) {
                MOVE_STAMINA
            } else {
                CLIMB_DOWN_STAMINA
            };
            if self.stamina >= cost {
                Some(
                    Player {
                        stamina: self.stamina - cost,
                        grid_pos_x: nx,
                        grid_pos_y: ny,
                        state: PlayerState::Climbing(
                            ClimbingState { direction: direction.reverse(), elevation: cur },
                        ),
                    },
                )
            } else {
                None
            }
        } else {
            None
        }
    }

    /// Climbing moves.
    fn go_climbing(&self, cs: ClimbingState, direction: CardinalDirection, map: &GridMap) -> (r:
        Option<Player>)
        requires
            map.wf(),
            self.wf(*map),
            self.state == PlayerState::Climbing(cs),
        ensures
            r == self.climbing_spec(cs, direction, *map),
            r matches Some(p) ==> p.wf(*map),
            r matches Some(p) ==> p.stamina <= self.stamina,
    {
        let x = self.grid_pos_x;
        let y = self.grid_pos_y;
        match direction {
            CardinalDirection::North => {
                // Climb up. The faced wall tile is in bounds by the
                // climbing invariant.
                let (nx, ny) = match map.step(x, y, cs.direction) {
                    Some(t) => t,
                    None => unreached(),
                };
                let cost = if map.is_ladder_or_rope(x, y, cs.elevation, cs.direction) {
                    MOVE_STAMINA
                } else {
                    CLIMB_UP_STAMINA
                };
                if cost == MOVE_STAMINA || map.grid_climbable[ny as usize][nx as usize] {
                    if self.stamina < cost {
                        None
                    } else if map.grid_heights[ny as usize][nx as usize] == cs.elevation {
                        // Mount the top of the wall.
                        Some(
                            Player {
                                stamina: self.stamina - cost,
                                grid_pos_x: nx,
                                grid_pos_y: ny,
                                state: PlayerState::Standing(cs.direction),
                            },
                        )
                    } else {
                        // One handhold higher.
                        Some(
                            Player {
                                stamina: self.stamina - cost,
                                grid_pos_x: x,
                                grid_pos_y: y,
                                state: PlayerState::Climbing(
                                    ClimbingState {
                                        direction: cs.direction,
                                        elevation: cs.elevation + 1,
                                    },
                                ),
                            },
                        )
                    }
                } else {
                    None
                }
            },
            CardinalDirection::East => self.go_climb_sideways(cs, cs.direction.clockwise(), map),
            CardinalDirection::South => {
                // Climb down, or dismount at the bottom.
                let cur = map.grid_heights[y as usize][x as usize];
                if cur + 1 == cs.elevation {
                    Some(
                        Player {
                            stamina: self.stamina,
                            grid_pos_x: x,
                            grid_pos_y: y,
                            state: PlayerState::Standing(cs.direction),
                        },
                    )
                } else {
                    let cost = if map.is_ladder_or_rope(x, y, cs.elevation, cs.direction) {
                        MOVE_STAMINA
                    } else {
                        CLIMB_DOWN_STAMINA
                    };
                    if self.stamina >= cost && cs.elevation >= 1 {
                        Some(
                            Player {
                                stamina: self.stamina - cost,
                                grid_pos_x: x,
                                grid_pos_y: y,
                                state: PlayerState::Climbing(
                                    ClimbingState {
                                        direction: cs.direction,
                                        elevation: cs.elevation - 1,
                                    },
                                ),
                            },
                        )
                    } else {
                        None
                    }
                }
            },
            CardinalDirection::West => self.go_climb_sideways(
                cs,
                cs.direction.counter_clockwise(),
                map,
            ),
        }
    }

    /// A sideways shuffle along the wall.
    fn go_climb_sideways(&self, cs: ClimbingState, lat: CardinalDirection, map: &GridMap) -> (r:
        Option<Player>)
        requires
            map.wf(),
            self.wf(*map),
            self.state == PlayerState::Climbing(cs),
        ensures
            r == self.climb_sideways_spec(cs, lat, *map),
            r matches Some(p) ==> p.wf(*map),
            r matches Some(p) ==> p.stamina <= self.stamina,
    {
        let x = self.grid_pos_x;
        let y = self.grid_pos_y;
        let (nx, ny) = match map.step(x, y, lat) {
            Some(t) => t,
            None => {
                return None;
            },
        };
        let (wx, wy) = match map.step(nx, ny, cs.direction) {
            Some(t) => t,
            None => {
                return None;
            },
        };
        if !map.grid_climbable[wy as usize][wx as usize] {
            None
        } else if map.grid_heights[ny as usize][nx as usize] >= cs.elevation
            || map.grid_heights[wy as usize][wx as usize] < cs.elevation {
            None
        } else if self.stamina >= CLIMB_SIDEWAYS_STAMINA {
            Some(
                Player {
                    stamina: self.stamina - CLIMB_SIDEWAYS_STAMINA,
                    grid_pos_x: nx,
                    grid_pos_y: ny,
                    state: PlayerState::Climbing(cs),
                },
            )
        } else {
            None
        }
    }
}

} // verus!
