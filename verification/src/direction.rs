//! Cardinal directions on the grid and the axis a direction travels along.

use vstd::prelude::*;

verus! {

/// One of the four directions a player can face or travel in.
///
/// `North` decreases the row index `y`, `South` increases it,
/// `East` increases the column index `x`, `West` decreases it.
#[derive(Debug, Clone, Copy, PartialEq, Eq, Structural, Hash)]
pub enum CardinalDirection {
    North,
    East,
    South,
    West,
}

impl CardinalDirection {
    /// The opposite direction.
    pub open spec fn spec_reverse(self) -> CardinalDirection {
        match self {
            CardinalDirection::North => CardinalDirection::South,
            CardinalDirection::East => CardinalDirection::West,
            CardinalDirection::South => CardinalDirection::North,
            CardinalDirection::West => CardinalDirection::East,
        }
    }

    pub fn reverse(&self) -> (r: Self)
        ensures
            r == self.spec_reverse(),
    {
        match self {
            CardinalDirection::North => CardinalDirection::South,
            CardinalDirection::East => CardinalDirection::West,
            CardinalDirection::South => CardinalDirection::North,
            CardinalDirection::West => CardinalDirection::East,
        }
    }

    /// The direction ninety degrees clockwise (as seen from above,
    /// with north pointing away from the viewer).
    pub open spec fn spec_clockwise(self) -> CardinalDirection {
        match self {
            CardinalDirection::North => CardinalDirection::East,
            CardinalDirection::East => CardinalDirection::South,
            CardinalDirection::South => CardinalDirection::West,
            CardinalDirection::West => CardinalDirection::North,
        }
    }

    pub fn clockwise(&self) -> (r: Self)
        ensures
            r == self.spec_clockwise(),
    {
        match self {
            CardinalDirection::North => CardinalDirection::East,
            CardinalDirection::East => CardinalDirection::South,
            CardinalDirection::South => CardinalDirection::West,
            CardinalDirection::West => CardinalDirection::North,
        }
    }

    /// The direction ninety degrees counter-clockwise.
    pub open spec fn spec_counter_clockwise(self) -> CardinalDirection {
        self.spec_clockwise().spec_reverse()
    }

    pub fn counter_clockwise(&self) -> (r: Self)
        ensures
            r == self.spec_counter_clockwise(),
    {
        self.clockwise().reverse()
    }

    /// Column offset of one step in this direction.
    pub open spec fn dx(self) -> int {
        match self {
            CardinalDirection::North => 0,
            CardinalDirection::East => 1,
            CardinalDirection::South => 0,
            CardinalDirection::West => -1,
        }
    }

    /// Row offset of one step in this direction.
    pub open spec fn dy(self) -> int {
        match self {
            CardinalDirection::North => -1,
            CardinalDirection::East => 0,
            CardinalDirection::South => 1,
            CardinalDirection::West => 0,
        }
    }
}

/// Reversing twice gives the direction back.
pub proof fn lemma_reverse_involutive(d: CardinalDirection)
    ensures
        d.spec_reverse().spec_reverse() == d,
{
}

/// The grid axis a direction travels along: `Xaxis` for east/west,
/// `Yaxis` for north/south.
#[derive(Debug, Clone, Copy, PartialEq, Eq, Structural, Hash)]
pub enum Alignment {
    Xaxis,
    Yaxis,
}

impl Alignment {
    /// The axis of travel of a direction.
    pub open spec fn spec_of_direction(d: CardinalDirection) -> Alignment {
        match d {
            CardinalDirection::North => Alignment::Yaxis,
            CardinalDirection::East => Alignment::Xaxis,
            CardinalDirection::South => Alignment::Yaxis,
            CardinalDirection::West => Alignment::Xaxis,
        }
    }
}

impl From<CardinalDirection> for Alignment {
    fn from(value: CardinalDirection) -> (r: Alignment) {
        match value {
            CardinalDirection::North => Alignment::Yaxis,
            CardinalDirection::East => Alignment::Xaxis,
            CardinalDirection::South => Alignment::Yaxis,
            CardinalDirection::West => Alignment::Xaxis,
        }
    }
}

impl vstd::std_specs::convert::FromSpecImpl<CardinalDirection> for Alignment {
    open spec fn obeys_from_spec() -> bool {
        true
    }

    open spec fn from_spec(d: CardinalDirection) -> Alignment {
        Alignment::spec_of_direction(d)
    }
}

} // verus!
