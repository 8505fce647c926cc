//! The level grid: per-tile elevations, a climbability mask, the fixed
//! feature positions of the level, and the mutable equipment tables.

use vstd::prelude::*;

use crate::direction::{Alignment, CardinalDirection};
use crate::equipment::{
    HorizontalLadderKey, HorizontalLadderMap, RopeKey, RopeMap, VerticalLadderKey,
    VerticalLadderMap,
};

verus! {

/// A linked pair of cave tiles the player can teleport between, and the
/// tile of the gem that gates their use, if the level has one.
#[derive(Debug, Clone, Copy)]
pub struct CaveData {
    pub first_pos: (u8, u8),
    pub second_pos: (u8, u8),
    pub gem_pos: Option<(u8, u8)>,
}

/// A level's immutable terrain plus its mutable equipment tables.
///
/// `grid_heights[y][x]` is the elevation of the tile in column `x` of row
/// `y`; `grid_climbable` has the same dimensions and marks tiles whose
/// wall faces can be climbed unassisted. Every lookup is bounds-checked:
/// out-of-range requests fail closed rather than panic.
#[derive(Debug)]
pub struct GridMap {
    pub grid_heights: Vec<Vec<u8>>,
    pub grid_climbable: Vec<Vec<bool>>,
    pub player_start_pos: (u8, u8),
    pub flag_pos: (u8, u8),
    pub scale_pos: Option<(u8, u8)>,
    pub vertical_ladders: VerticalLadderMap,
    pub horizontal_ladders: HorizontalLadderMap,
    pub ropes: RopeMap,
    pub cave_data: Option<CaveData>,
}

/// The two grids form a non-empty rectangle of matching dimensions that
/// u8 coordinates can address.
pub open spec fn grids_wf(heights: Seq<Vec<u8>>, climbable: Seq<Vec<bool>>) -> bool {
    &&& 1 <= heights.len() <= 255
    &&& 1 <= heights[0]@.len() <= 255
    &&& forall|r: int| 0 <= r < heights.len() ==> (#[trigger] heights[r])@.len() == heights[0]@.len()
    &&& climbable.len() == heights.len()
    &&& forall|r: int|
        0 <= r < climbable.len() ==> (#[trigger] climbable[r])@.len() == heights[0]@.len()
}

impl GridMap {
    /// Number of rows.
    pub open spec fn rows(&self) -> int {
        self.grid_heights@.len() as int
    }

    /// Number of columns.
    pub open spec fn cols(&self) -> int {
        self.grid_heights@[0]@.len() as int
    }

    pub open spec fn in_bounds(&self, x: int, y: int) -> bool {
        0 <= x < self.cols() && 0 <= y < self.rows()
    }

    /// Elevation of the tile at `(x, y)`.
    pub open spec fn height_at(&self, x: int, y: int) -> u8
        recommends
            self.in_bounds(x, y),
    {
        self.grid_heights@[y]@[x]
    }

    /// Whether the wall faces of the tile at `(x, y)` can be climbed
    /// without assistance.
    pub open spec fn climbable_at(&self, x: int, y: int) -> bool
        recommends
            self.in_bounds(x, y),
    {
        self.grid_climbable@[y]@[x]
    }

    /// Terrain is well-formed, the level's fixed features sit on the
    /// grid, and the equipment tables are internally consistent.
    pub open spec fn wf(&self) -> bool {
        &&& grids_wf(self.grid_heights@, self.grid_climbable@)
        &&& self.in_bounds(self.player_start_pos.0 as int, self.player_start_pos.1 as int)
        &&& self.in_bounds(self.flag_pos.0 as int, self.flag_pos.1 as int)
        &&& match self.scale_pos {
            Some(p) => self.in_bounds(p.0 as int, p.1 as int),
            None => true,
        }
        &&& match self.cave_data {
            Some(c) => {
                &&& self.in_bounds(c.first_pos.0 as int, c.first_pos.1 as int)
                &&& self.in_bounds(c.second_pos.0 as int, c.second_pos.1 as int)
                &&& match c.gem_pos {
                    Some(g) => self.in_bounds(g.0 as int, g.1 as int),
                    None => true,
                }
            },
            None => true,
        }
        &&& self.vertical_ladders.wf()
        &&& self.horizontal_ladders.wf()
        &&& self.ropes.wf()
    }

    /// Whether climbing assistance is available when standing at `(x, y)`
    /// facing `direction` and negotiating a wall whose top sits at
    /// `height`: a vertical ladder one or two units below `height` on the
    /// faced tile, a horizontal ladder at `height` over `(x, y)`, or a
    /// rope hanging from the faced tile toward the player.
    pub open spec fn spec_is_ladder_or_rope(
        &self,
        x: u8,
        y: u8,
        height: u8,
        direction: CardinalDirection,
    ) -> bool {
        let fx = x + direction.dx();
        let fy = y + direction.dy();
        if fx < 0 || fx > 255 || fy < 0 || fy > 255 {
            false
        } else {
            ||| (height >= 2 && self.vertical_ladders@.dom().contains(
                VerticalLadderKey {
                    x: fx as u8,
                    y: fy as u8,
                    height: (height - 2) as u8,
                    direction,
                },
            ))
            ||| (height >= 1 && self.vertical_ladders@.dom().contains(
                VerticalLadderKey {
                    x: fx as u8,
                    y: fy as u8,
                    height: (height - 1) as u8,
                    direction,
                },
            ))
            ||| self.horizontal_ladders@.dom().contains(
                HorizontalLadderKey {
                    x,
                    y,
                    height,
                    alignment: Alignment::spec_of_direction(direction),
                },
            )
            ||| self.ropes@.dom().contains(
                RopeKey { x: fx as u8, y: fy as u8, direction: direction.spec_reverse() },
            )
        }
    }

    /// Build a level grid with empty equipment tables.
    pub fn new(
        grid_heights: Vec<Vec<u8>>,
        grid_climbable: Vec<Vec<bool>>,
        player_pos: (u8, u8),
        flag_pos: (u8, u8),
        scale_pos: Option<(u8, u8)>,
        cave_data: Option<CaveData>,
    ) -> (r: GridMap)
        requires
            grids_wf(grid_heights@, grid_climbable@),
            (player_pos.0 as int) < grid_heights@[0]@.len() && (player_pos.1 as int)
                < grid_heights@.len(),
            (flag_pos.0 as int) < grid_heights@[0]@.len() && (flag_pos.1 as int)
                < grid_heights@.len(),
            match scale_pos {
                Some(p) => (p.0 as int) < grid_heights@[0]@.len() && (p.1 as int)
                    < grid_heights@.len(),
                None => true,
            },
            match cave_data {
                Some(c) => {
                    &&& (c.first_pos.0 as int) < grid_heights@[0]@.len() && (c.first_pos.1 as int)
                        < grid_heights@.len()
                    &&& (c.second_pos.0 as int) < grid_heights@[0]@.len() && (c.second_pos.1 as int)
                        < grid_heights@.len()
                    &&& match c.gem_pos {
                        Some(g) => (g.0 as int) < grid_heights@[0]@.len() && (g.1 as int)
                            < grid_heights@.len(),
                        None => true,
                    }
                },
                None => true,
            },
        ensures
            r.wf(),
            r.grid_heights == grid_heights,
            r.grid_climbable == grid_climbable,
            r.player_start_pos == player_pos,
            r.flag_pos == flag_pos,
            r.scale_pos == scale_pos,
            r.cave_data == cave_data,
            r.vertical_ladders@ == Map::<VerticalLadderKey, u64>::empty(),
            r.horizontal_ladders@ == Map::<HorizontalLadderKey, u64>::empty(),
            r.ropes@ == Map::<RopeKey, u64>::empty(),
    {
        GridMap {
            grid_heights,
            grid_climbable,
            player_start_pos: player_pos,
            flag_pos,
            scale_pos,
            vertical_ladders: VerticalLadderMap::new(),
            horizontal_ladders: HorizontalLadderMap::new(),
            ropes: RopeMap::new(),
            cave_data,
        }
    }

    /// Elevation lookup with a bounds check.
    pub fn height(&self, x: u8, y: u8) -> (r: Option<u8>)
        requires
            self.wf(),
        ensures
            self.in_bounds(x as int, y as int) ==> r == Some(self.height_at(x as int, y as int)),
            !self.in_bounds(x as int, y as int) ==> r is None,
    {
        let x = x as usize;
        let y = y as usize;
        if y < self.grid_heights.len() && x < self.grid_heights[y].len() {
            Some(self.grid_heights[y][x])
        } else {
            None
        }
    }

    /// Climbability lookup with a bounds check.
    pub fn climbable(&self, x: u8, y: u8) -> (r: Option<bool>)
        requires
            self.wf(),
        ensures
            self.in_bounds(x as int, y as int) ==> r == Some(
                self.climbable_at(x as int, y as int),
            ),
            !self.in_bounds(x as int, y as int) ==> r is None,
    {
        let x = x as usize;
        let y = y as usize;
        if y < self.grid_climbable.len() && x < self.grid_climbable[y].len() {
            Some(self.grid_climbable[y][x])
        } else {
            None
        }
    }

    /// The tile one step from `(x, y)` in `direction`, or `None` when the
    /// step leaves the grid.
    pub fn step(&self, x: u8, y: u8, direction: CardinalDirection) -> (r: Option<(u8, u8)>)
        requires
            self.wf(),
        ensures
            self.in_bounds(x + direction.dx(), y + direction.dy()) ==> r == Some(
                ((x + direction.dx()) as u8, (y + direction.dy()) as u8),
            ),
            !self.in_bounds(x + direction.dx(), y + direction.dy()) ==> r is None,
    {
        let nx = x as i16 + match direction {
            CardinalDirection::North => 0i16,
            CardinalDirection::East => 1i16,
            CardinalDirection::South => 0i16,
            CardinalDirection::West => -1i16,
        };
        let ny = y as i16 + match direction {
            CardinalDirection::North => -1i16,
            CardinalDirection::East => 0i16,
            CardinalDirection::South => 1i16,
            CardinalDirection::West => 0i16,
        };
        if nx >= 0 && ny >= 0 && (nx as usize) < self.grid_heights[0].len() && (ny as usize)
            < self.grid_heights.len() {
            Some((nx as u8, ny as u8))
        } else {
            None
        }
    }

    /// The single "is there climbing assistance here" oracle consulted by
    /// the movement rules.
    pub fn is_ladder_or_rope(
        &self,
        x: u8,
        y: u8,
        height: u8,
        direction: CardinalDirection,
    ) -> (r: bool)
        ensures
            r == self.spec_is_ladder_or_rope(x, y, height, direction),
    {
        let fx_wide = x as i16 + match direction {
            CardinalDirection::North => 0i16,
            CardinalDirection::East => 1i16,
            CardinalDirection::South => 0i16,
            CardinalDirection::West => -1i16,
        };
        let fy_wide = y as i16 + match direction {
            CardinalDirection::North => -1i16,
            CardinalDirection::East => 0i16,
            CardinalDirection::South => 1i16,
            CardinalDirection::West => 0i16,
        };
        if fx_wide < 0 || fx_wide > 255 || fy_wide < 0 || fy_wide > 255 {
            return false;
        }
        let fx = fx_wide as u8;
        let fy = fy_wide as u8;
        (height >= 2 && self.vertical_ladders.contains_key(
            &VerticalLadderKey { x: fx, y: fy, height: height - 2, direction },
        )) || (height >= 1 && self.vertical_ladders.contains_key(
            &VerticalLadderKey { x: fx, y: fy, height: height - 1, direction },
        )) || self.horizontal_ladders.contains_key(
            &HorizontalLadderKey { x, y, height, alignment: direction.into() },
        ) || self.ropes.contains_key(&RopeKey { x: fx, y: fy, direction: direction.reverse() })
    }

    /// Clear all three equipment tables, as on level reload. Afterwards
    /// every key of every table is vacant; terrain and feature positions
    /// are untouched. Idempotent.
    pub fn reset(&mut self)
        ensures
            final(self).vertical_ladders@ == Map::<VerticalLadderKey, u64>::empty(),
            final(self).horizontal_ladders@ == Map::<HorizontalLadderKey, u64>::empty(),
            final(self).ropes@ == Map::<RopeKey, u64>::empty(),
            forall|k: VerticalLadderKey| !final(self).vertical_ladders@.dom().contains(k),
            forall|k: HorizontalLadderKey| !final(self).horizontal_ladders@.dom().contains(k),
            forall|k: RopeKey| !final(self).ropes@.dom().contains(k),
            final(self).vertical_ladders.wf(),
            final(self).horizontal_ladders.wf(),
            final(self).ropes.wf(),
            final(self).grid_heights == old(self).grid_heights,
            final(self).grid_climbable == old(self).grid_climbable,
            final(self).player_start_pos == old(self).player_start_pos,
            final(self).flag_pos == old(self).flag_pos,
            final(self).scale_pos == old(self).scale_pos,
            final(self).cave_data == old(self).cave_data,
            old(self).wf() ==> final(self).wf(),
    {
        self.vertical_ladders.clear();
        self.horizontal_ladders.clear();
        self.ropes.clear();
    }
}

} // verus!
