//! A rendered board: rows of tiles, top to bottom and left to right.

use crate::tile::Tile;
use vstd::prelude::*;

verus! {

/// One row of a board, from left to right.
#[derive(Debug, PartialEq, Eq)]
pub struct Row {
    tiles: Vec<Tile>,
}

impl View for Row {
    type V = Seq<Tile>;

    closed spec fn view(&self) -> Seq<Tile> {
        self.tiles@
    }
}

impl Row {
    /// The row that shows `tiles`, from left to right.
    pub fn new(tiles: Vec<Tile>) -> (row: Row)
        ensures
            row@ == tiles@,
    {
        Row { tiles }
    }

    /// The tiles of the row, from left to right.
    pub fn get_tiles(&self) -> (tiles: &[Tile])
        ensures
            tiles@ == self@,
    {
        self.tiles.as_slice()
    }
}

/// A fully revealed board, from the top row to the bottom row.
#[derive(Debug, PartialEq, Eq)]
pub struct Board {
    rows: Vec<Row>,
}

impl View for Board {
    type V = Seq<Seq<Tile>>;

    closed spec fn view(&self) -> Seq<Seq<Tile>> {
        Seq::new(self.rows@.len(), |y: int| self.rows@[y]@)
    }
}

impl Board {
    /// The board that is made of `rows`, from top to bottom.
    pub fn new(rows: Vec<Row>) -> (board: Board)
        ensures
            board@.len() == rows@.len(),
            forall|y: int| 0 <= y < rows@.len() ==> #[trigger] board@[y] == rows@[y]@,
    {
        Board { rows }
    }

    /// The rows of the board, from top to bottom.
    pub fn get_rows(&self) -> (rows: &[Row])
        ensures
            rows@.len() == self@.len(),
            forall|y: int| 0 <= y < rows@.len() ==> (#[trigger] rows@[y])@ == self@[y],
    {
        self.rows.as_slice()
    }
}

} // verus!
