//! The classification of a single cell of a rendered board.

use vstd::prelude::*;

verus! {

/// What a cell of a rendered board shows: a mine, or the number of mines
/// among the cell's neighbours.
#[derive(Debug, Clone, Copy, PartialEq, Eq, Structural)]
pub enum Tile {
    Mine,
    Empty,
    One,
    Two,
    Three,
    Four,
    Five,
    Six,
    Seven,
    Eight,
}

impl Tile {
    /// The tile that shows `count` neighbouring mines. A cell has at most
    /// eight neighbours; a larger count shows as an empty tile.
    pub open spec fn of_count(count: nat) -> Tile {
        if count == 1 {
            Tile::One
        } else if count == 2 {
            Tile::Two
        } else if count == 3 {
            Tile::Three
        } else if count == 4 {
            Tile::Four
        } else if count == 5 {
            Tile::Five
        } else if count == 6 {
            Tile::Six
        } else if count == 7 {
            Tile::Seven
        } else if count == 8 {
            Tile::Eight
        } else {
            Tile::Empty
        }
    }

    /// The number of neighbouring mines that the tile shows, or `None` for a
    /// mine, which carries no count.
    pub open spec fn count(self) -> Option<nat> {
        match self {
            Tile::Mine => None,
            Tile::Empty => Some(0),
            Tile::One => Some(1),
            Tile::Two => Some(2),
            Tile::Three => Some(3),
            Tile::Four => Some(4),
            Tile::Five => Some(5),
            Tile::Six => Some(6),
            Tile::Seven => Some(7),
            Tile::Eight => Some(8),
        }
    }

    /// Whether the tile is a mine.
    pub fn is_mine(&self) -> (mine: bool)
        ensures
            mine == (*self == Tile::Mine),
            mine == (self.count() is None),
    {
        match self {
            Tile::Mine => true,
            _ => false,
        }
    }

    /// The number of neighbouring mines that the tile shows, or `None` for a
    /// mine.
    pub fn neighbor_count(&self) -> (count: Option<u8>)
        ensures
            count is Some == self.count() is Some,
            count is Some ==> count->0 as nat == self.count()->0,
    {
        match self {
            Tile::Mine => None,
            Tile::Empty => Some(0),
            Tile::One => Some(1),
            Tile::Two => Some(2),
            Tile::Three => Some(3),
            Tile::Four => Some(4),
            Tile::Five => Some(5),
            Tile::Six => Some(6),
            Tile::Seven => Some(7),
            Tile::Eight => Some(8),
        }
    }
}

impl From<usize> for Tile {
    fn from(val: usize) -> (tile: Tile) {
        match val {
            0 => Tile::Empty,
            1 => Tile::One,
            2 => Tile::Two,
            3 => Tile::Three,
            4 => Tile::Four,
            5 => Tile::Five,
            6 => Tile::Six,
            7 => Tile::Seven,
            8 => Tile::Eight,
            _ => Tile::Empty,
        }
    }
}

impl vstd::std_specs::convert::FromSpecImpl<usize> for Tile {
    open spec fn obeys_from_spec() -> bool {
        true
    }

    open spec fn from_spec(val: usize) -> Tile {
        Tile::of_count(val as nat)
    }
}

/// A count of at most eight and the tile that shows it determine each other,
/// and no count shows as a mine.
pub proof fn lemma_count_round_trip(count: nat)
    requires
        count <= 8,
    ensures
        Tile::of_count(count).count() == Some(count),
        Tile::of_count(count) != Tile::Mine,
{
}

} // verus!
