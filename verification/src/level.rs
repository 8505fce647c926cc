//! A level definition as handed over by the level provider: the grid
//! plus the run's budgets and which equipment the picking screen offers.

use vstd::prelude::*;

use crate::map::GridMap;

verus! {

/// Everything the simulation needs to start one level.
#[derive(Debug)]
pub struct Level {
    pub map: GridMap,
    pub stamina_budget: u16,
    pub weight_budget: u8,
    pub ladder_unlocked: bool,
    pub rope_unlocked: bool,
    pub potion_unlocked: bool,
    pub rewind_unlocked: bool,
}

impl Level {
    pub open spec fn wf(&self) -> bool {
        self.map.wf()
    }
}

} // verus!
