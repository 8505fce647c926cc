//! The per-run equipment inventory and the weight each piece costs to
//! pack.

use vstd::prelude::*;

verus! {

/// Carrying weight of one ladder.
pub const LADDER_WEIGHT: u8 = 2;

/// Carrying weight of one rope.
pub const ROPE_WEIGHT: u8 = 1;

/// Carrying weight of one stamina potion.
pub const POTION_WEIGHT: u8 = 2;

/// Carrying weight of one rewind rune.
pub const REWIND_WEIGHT: u8 = 1;

/// Stamina granted by packing one potion.
pub const POTION_STAMINA: u16 = 2;

/// A kind of packable equipment.
#[derive(Debug, Clone, Copy, PartialEq, Eq, Structural, Hash)]
pub enum Equipment {
    Ladder,
    Rope,
    Potion,
    Rewind,
}

impl Equipment {
    /// Weight of one piece of this kind.
    pub open spec fn spec_weight(self) -> u8 {
        match self {
            Equipment::Ladder => LADDER_WEIGHT,
            Equipment::Rope => ROPE_WEIGHT,
            Equipment::Potion => POTION_WEIGHT,
            Equipment::Rewind => REWIND_WEIGHT,
        }
    }

    pub fn weight(&self) -> (r: u8)
        ensures
            r == self.spec_weight(),
    {
        match self {
            Equipment::Ladder => LADDER_WEIGHT,
            Equipment::Rope => ROPE_WEIGHT,
            Equipment::Potion => POTION_WEIGHT,
            Equipment::Rewind => REWIND_WEIGHT,
        }
    }
}

/// Counters of carried equipment and their total packed weight.
#[derive(Debug, Clone, Copy, PartialEq, Eq, Structural)]
pub struct Inventory {
    pub ladder_count: u8,
    pub rope_count: u8,
    pub potion_count: u8,
    pub rewind_count: u8,
    pub weight: u8,
}

impl Inventory {
    /// Start a run with nothing packed.
    pub fn empty() -> (r: Inventory)
        ensures
            r == Inventory::spec_empty(),
    {
        Inventory { ladder_count: 0, rope_count: 0, potion_count: 0, rewind_count: 0, weight: 0 }
    }

    pub open spec fn spec_empty() -> Inventory {
        Inventory { ladder_count: 0, rope_count: 0, potion_count: 0, rewind_count: 0, weight: 0 }
    }

    /// Counter for one equipment kind.
    pub open spec fn spec_count(self, eq: Equipment) -> u8 {
        match eq {
            Equipment::Ladder => self.ladder_count,
            Equipment::Rope => self.rope_count,
            Equipment::Potion => self.potion_count,
            Equipment::Rewind => self.rewind_count,
        }
    }

    pub fn count(&self, eq: Equipment) -> (r: u8)
        ensures
            r == self.spec_count(eq),
    {
        match eq {
            Equipment::Ladder => self.ladder_count,
            Equipment::Rope => self.rope_count,
            Equipment::Potion => self.potion_count,
            Equipment::Rewind => self.rewind_count,
        }
    }

    /// The inventory with the counter for `eq` set to `n`.
    pub open spec fn spec_with_count(self, eq: Equipment, n: u8) -> Inventory {
        match eq {
            Equipment::Ladder => Inventory { ladder_count: n, ..self },
            Equipment::Rope => Inventory { rope_count: n, ..self },
            Equipment::Potion => Inventory { potion_count: n, ..self },
            Equipment::Rewind => Inventory { rewind_count: n, ..self },
        }
    }
}

impl Default for Inventory {
    /// An inventory with nothing packed.
    fn default() -> (r: Self)
        ensures
            r == Inventory::spec_empty(),
    {
        Inventory::empty()
    }
}

} // verus!
