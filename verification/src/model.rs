//! The mathematical model of a mine field: its dimensions, the cells that
//! hold a mine, and the board that follows from them.

use crate::tile::Tile;
use vstd::prelude::*;

verus! {

/// A grid of `width` by `height` cells and the linear indices of the cells
/// that hold a mine, in the order in which the mines were placed. The cell in
/// column `x` of row `y` has the index `y * width + x`.
pub struct Field {
    pub width: nat,
    pub height: nat,
    pub mines: Seq<usize>,
}

impl Field {
    /// The number of cells of the grid.
    pub open spec fn cells(self) -> nat {
        self.width * self.height
    }

    /// The grid has a cell, every mine lies on the grid, no cell holds two
    /// mines, and at least one cell is safe.
    pub open spec fn wf(self) -> bool {
        &&& self.width >= 1
        &&& self.height >= 1
        &&& self.mines.no_duplicates()
        &&& forall|i: int| 0 <= i < self.mines.len() ==> #[trigger] self.mines[i] < self.cells()
        &&& self.mines.len() + 1 <= self.cells()
    }

    /// Whether the cell with the linear index `index` holds a mine.
    pub open spec fn has_mine(self, index: int) -> bool {
        exists|i: int| 0 <= i < self.mines.len() && #[trigger] self.mines[i] == index
    }

    /// The linear indices of the cells that hold a mine, as a set.
    pub open spec fn mine_set(self) -> Set<int> {
        Set::new(|index: int| self.has_mine(index))
    }

    /// Whether column `x` of row `y` is a cell of the grid that holds a mine.
    pub open spec fn is_mine(self, x: int, y: int) -> bool {
        &&& 0 <= x < self.width
        &&& 0 <= y < self.height
        &&& self.has_mine(y * self.width + x)
    }

    /// One if column `x` of row `y` is a mine, zero if it is safe or lies
    /// outside the grid.
    pub open spec fn mine_at(self, x: int, y: int) -> nat {
        if self.is_mine(x, y) {
            1
        } else {
            0
        }
    }

    /// The number of mines among the eight neighbours of column `x` of row
    /// `y`. Neighbours outside the grid count as safe.
    pub open spec fn mines_around(self, x: int, y: int) -> nat {
        self.mine_at(x - 1, y - 1) + self.mine_at(x, y - 1) + self.mine_at(x + 1, y - 1)
            + self.mine_at(x - 1, y) + self.mine_at(x + 1, y) + self.mine_at(x - 1, y + 1)
            + self.mine_at(x, y + 1) + self.mine_at(x + 1, y + 1)
    }

    /// What column `x` of row `y` shows on the board.
    pub open spec fn tile_at(self, x: int, y: int) -> Tile {
        if self.is_mine(x, y) {
            Tile::Mine
        } else {
            Tile::of_count(self.mines_around(x, y))
        }
    }

    /// The board of the field: `height` rows of `width` tiles.
    pub open spec fn board(self) -> Seq<Seq<Tile>> {
        Seq::new(self.height, |y: int| Seq::new(self.width, |x: int| self.tile_at(x, y)))
    }
}

} // verus!
