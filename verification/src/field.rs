//! The mine field: a grid and the cells of it that hold a mine.

use crate::board::{Board, Row};
use crate::model::Field;
use crate::tile::{lemma_count_round_trip, Tile};
use crate::window::{
    block_mines, lemma_block_window, lemma_row_bounds, row_mines, window_first, window_last,
};
use vstd::prelude::*;

verus! {

/// A grid of cells, some of which hold a mine. At least one cell is safe.
#[derive(Debug)]
pub struct Minesweeper {
    mines: Vec<usize>,
    width: usize,
    height: usize,
}

impl View for Minesweeper {
    type V = Field;

    closed spec fn view(&self) -> Field {
        Field { width: self.width as nat, height: self.height as nat, mines: self.mines@ }
    }
}

impl Minesweeper {
    /// The field is well formed and its cells can be numbered by a `usize`.
    /// Every constructor establishes this and every method keeps it.
    pub open spec fn wf(&self) -> bool {
        self@.wf() && self@.cells() <= usize::MAX
    }

    /// A field of `width` by `height` cells without a mine.
    pub fn empty(width: usize, height: usize) -> (field: Minesweeper)
        requires
            width >= 1,
            height >= 1,
            width * height <= usize::MAX,
        ensures
            field@ == (Field { width: width as nat, height: height as nat, mines: Seq::empty() }),
            field.wf(),
    {
        assert(width * height >= 1) by (nonlinear_arith)
            requires
                width >= 1,
                height >= 1,
        ;
        Minesweeper { mines: Vec::new(), width, height }
    }

    /// The number of columns.
    pub fn width(&self) -> (width: usize)
        ensures
            width == self@.width,
    {
        self.width
    }

    /// The number of rows.
    pub fn height(&self) -> (height: usize)
        ensures
            height == self@.height,
    {
        self.height
    }

    /// The number of cells.
    pub fn cells(&self) -> (cells: usize)
        requires
            self.wf(),
        ensures
            cells == self@.cells(),
    {
        self.width * self.height
    }

    /// The linear indices of the cells that hold a mine, in the order in
    /// which the mines were placed.
    pub fn mines(&self) -> (mines: &[usize])
        ensures
            mines@ == self@.mines,
    {
        self.mines.as_slice()
    }

    /// The number of mines.
    pub fn mine_count(&self) -> (count: usize)
        ensures
            count == self@.mines.len(),
    {
        self.mines.len()
    }

    /// Whether the cell with the linear index `index` holds a mine.
    pub fn has_mine(&self, index: usize) -> (found: bool)
        ensures
            found == self@.has_mine(index as int),
            found == self@.mines.contains(index),
    {
        let mut i: usize = 0;
        while i < self.mines.len()
            invariant
                i <= self.mines.len(),
                forall|k: int| 0 <= k < i ==> self.mines@[k] != index,
            decreases self.mines.len() - i,
        {
            if self.mines[i] == index {
                assert(self@.mines[i as int] == index);
                return true;
            }
            i += 1;
        }
        false
    }

    /// Puts a mine on the cell `index` if that cell lies on the grid, holds
    /// no mine yet, and is not the last safe cell. Tells whether it did.
    pub fn place(&mut self, index: usize) -> (placed: bool)
        requires
            old(self).wf(),
        ensures
            placed == (index < old(self)@.cells() && !old(self)@.mines.contains(index)
                && old(self)@.mines.len() + 2 <= old(self)@.cells()),
            final(self)@.width == old(self)@.width,
            final(self)@.height == old(self)@.height,
            final(self)@.mines == if placed {
                old(self)@.mines.push(index)
            } else {
                old(self)@.mines
            },
            final(self).wf(),
    {
        let total = self.width * self.height;
        if index >= total || total - self.mines.len() < 2 || self.has_mine(index) {
            return false;
        }
        self.mines.push(index);
        true
    }

    /// The number of mines in the three by three window around column `x` of
    /// row `y`, clipped to the grid: the mines among the cell's neighbours,
    /// and one more if the cell itself is a mine.
    pub fn check_neigbors(&self, x: usize, y: usize) -> (count: usize)
        requires
            self.wf(),
        ensures
            count == self@.mines_around(x as int, y as int) + self@.mine_at(x as int, y as int),
            count <= 9,
    {
        let x_first = if x == 0 { 0 } else { x - 1 };
        let x_last = if x >= self.width - 1 { self.width - 1 } else { x + 1 };
        let y_first = if y == 0 { 0 } else { y - 1 };
        let y_last = if y >= self.height - 1 { self.height - 1 } else { y + 1 };
        let ghost field = self@;
        let mut count: usize = 0;
        let mut row = y_first;
        while row <= y_last
            invariant
                self.wf(),
                field == self@,
                x_first == window_first(x as int),
                x_last == window_last(x as int, self.width as int),
                y_first == window_first(y as int),
                y_last == window_last(y as int, self.height as int),
                y_first <= row,
                row <= y_last + 1 || (y_first > y_last && row == y_first),
                row <= y_first + 3,
                count == block_mines(field, x_first as int, x_last + 1, y_first as int, row as int),
                count <= 3 * (row - y_first),
            decreases y_last + 1 - row,
        {
            let ghost above = count;
            let mut column = x_first;
            while column <= x_last
                invariant
                    self.wf(),
                    field == self@,
                    x_last < self.width,
                    row < self.height,
                    x_first <= column,
                    column <= x_last + 1 || (x_first > x_last && column == x_first),
                    x_last <= x_first + 2,
                    count == above + row_mines(field, x_first as int, column as int, row as int),
                    above <= 3 * (row - y_first),
                    y_first <= row <= y_first + 2,
                    count <= above + (column - x_first),
                decreases x_last + 1 - column,
            {
                proof {
                    lemma_cell_index(self@, column as int, row as int);
                }
                if self.has_mine(row * self.width + column) {
                    count += 1;
                }
                column += 1;
            }
            proof {
                lemma_row_bounds(field, x_first as int, x_last + 1, row as int);
            }
            row += 1;
        }
        proof {
            lemma_block_window(field, x as int, y as int);
        }
        count
    }

    /// The board of the field: for every cell a mine, or the number of mines
    /// among the cell's neighbours.
    pub fn get_board(&self) -> (board: Board)
        requires
            self.wf(),
        ensures
            board@ == self@.board(),
            board@.len() == self@.height,
            forall|y: int| 0 <= y < self@.height ==> (#[trigger] board@[y]).len() == self@.width,
            forall|x: int, y: int|
                0 <= x < self@.width && 0 <= y < self@.height ==> (#[trigger] board@[y][x].count()
                    is None) == self@.is_mine(x, y),
            forall|x: int, y: int|
                0 <= x < self@.width && 0 <= y < self@.height && !self@.is_mine(x, y)
                    ==> #[trigger] board@[y][x].count() == Some(self@.mines_around(x, y)),
    {
        let ghost field = self@;
        let mut rows: Vec<Row> = Vec::new();
        let mut y: usize = 0;
        while y < self.height
            invariant
                self.wf(),
                field == self@,
                y <= self.height,
                rows@.len() == y,
                forall|r: int| 0 <= r < y ==> (#[trigger] rows@[r])@ == field.board()[r],
            decreases self.height - y,
        {
            let mut tiles: Vec<Tile> = Vec::new();
            let mut x: usize = 0;
            while x < self.width
                invariant
                    self.wf(),
                    field == self@,
                    y < self.height,
                    x <= self.width,
                    tiles@.len() == x,
                    forall|c: int| 0 <= c < x ==> #[trigger] tiles@[c] == field.tile_at(c, y as int),
                decreases self.width - x,
            {
                proof {
                    lemma_cell_index(self@, x as int, y as int);
                }
                if self.has_mine(y * self.width + x) {
                    tiles.push(Tile::Mine);
                } else {
                    let count = self.check_neigbors(x, y);
                    tiles.push(Tile::from(count));
                }
                x += 1;
            }
            assert(tiles@ == field.board()[y as int]);
            rows.push(Row::new(tiles));
            y += 1;
        }
        let board = Board::new(rows);
        assert(board@ == field.board());
        proof {
            lemma_board_tiles(field);
        }
        board
    }
}

/// The linear index of a cell of the grid is the index of one of its cells.
pub proof fn lemma_cell_index(field: Field, x: int, y: int)
    requires
        0 <= x < field.width,
        0 <= y < field.height,
    ensures
        0 <= y * field.width + x < field.cells(),
        0 <= y * field.width,
{
    assert(0 <= y * field.width && y * field.width + field.width <= field.width * field.height)
        by (nonlinear_arith)
        requires
            0 <= y < field.height,
            0 <= field.width,
    ;
}

/// On the board of a field every mine shows as a mine, without a count, and
/// every safe cell shows the number of mines among its neighbours.
pub proof fn lemma_board_tiles(field: Field)
    ensures
        field.board().len() == field.height,
        forall|y: int| 0 <= y < field.height ==> (#[trigger] field.board()[y]).len() == field.width,
        forall|x: int, y: int|
            0 <= x < field.width && 0 <= y < field.height ==> (#[trigger] field.board()[y][x].count()
                is None) == field.is_mine(x, y),
        forall|x: int, y: int|
            0 <= x < field.width && 0 <= y < field.height && !field.is_mine(x, y)
                ==> #[trigger] field.board()[y][x].count() == Some(field.mines_around(x, y)),
{
    assert forall|x: int, y: int| 0 <= x < field.width && 0 <= y < field.height implies (
    #[trigger] field.board()[y][x].count() is None) == field.is_mine(x, y) && (!field.is_mine(x, y)
        ==> field.board()[y][x].count() == Some(field.mines_around(x, y))) by {
        assert(field.board()[y][x] == field.tile_at(x, y));
        assert(field.mines_around(x, y) <= 8);
        lemma_count_round_trip(field.mines_around(x, y));
    }
}

} // verus!
