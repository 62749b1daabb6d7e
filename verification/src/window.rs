//! Counting the mines of a rectangular window of the grid, row by row, and
//! how the count of the clipped window around a cell relates to the cell's
//! eight neighbours.

use crate::model::Field;
use vstd::prelude::*;

verus! {

/// The number of mines in row `y` in the columns from `from` up to, and
/// without, `to`.
pub open spec fn row_mines(field: Field, from: int, to: int, y: int) -> nat
    decreases to - from,
{
    if from >= to {
        0
    } else {
        row_mines(field, from, to - 1, y) + field.mine_at(to - 1, y)
    }
}

/// The number of mines in the columns from `x_from` up to, and without,
/// `x_to`, of the rows from `y_from` up to, and without, `y_to`.
pub open spec fn block_mines(field: Field, x_from: int, x_to: int, y_from: int, y_to: int) -> nat
    decreases y_to - y_from,
{
    if y_from >= y_to {
        0
    } else {
        block_mines(field, x_from, x_to, y_from, y_to - 1) + row_mines(
            field,
            x_from,
            x_to,
            y_to - 1,
        )
    }
}

/// The first coordinate of the window around `at`: one before it, but not
/// before the grid's first.
pub open spec fn window_first(at: int) -> int {
    if at <= 0 {
        0
    } else {
        at - 1
    }
}

/// The last coordinate of the window around `at`: one after it, but not after
/// the last of a grid with `size` of them.
pub open spec fn window_last(at: int, size: int) -> int {
    if at + 1 >= size {
        size - 1
    } else {
        at + 1
    }
}

/// In any row, the clipped window around column `x` holds as many mines as
/// the three columns around `x` do.
pub proof fn lemma_row_window(field: Field, x: int, y: int)
    requires
        field.width >= 1,
        0 <= x,
    ensures
        row_mines(field, window_first(x), window_last(x, field.width as int) + 1, y)
            == field.mine_at(x - 1, y) + field.mine_at(x, y) + field.mine_at(x + 1, y),
{
    reveal_with_fuel(row_mines, 4);
}

/// A stretch of a row holds at most as many mines as it has columns, and none
/// where the row lies outside the grid.
pub proof fn lemma_row_bounds(field: Field, from: int, to: int, y: int)
    ensures
        !(0 <= y < field.height) ==> row_mines(field, from, to, y) == 0,
        row_mines(field, from, to, y) <= if from <= to { to - from } else { 0 },
    decreases to - from,
{
    if from < to {
        lemma_row_bounds(field, from, to - 1, y);
    }
}

/// The clipped window around a cell holds as many mines as the cell and its
/// eight neighbours do.
pub proof fn lemma_block_window(field: Field, x: int, y: int)
    requires
        field.width >= 1,
        field.height >= 1,
        0 <= x,
        0 <= y,
    ensures
        block_mines(
            field,
            window_first(x),
            window_last(x, field.width as int) + 1,
            window_first(y),
            window_last(y, field.height as int) + 1,
        ) == field.mines_around(x, y) + field.mine_at(x, y),
{
    let x_from = window_first(x);
    let x_to = window_last(x, field.width as int) + 1;
    lemma_row_window(field, x, y - 1);
    lemma_row_window(field, x, y);
    lemma_row_window(field, x, y + 1);
    lemma_row_bounds(field, x_from, x_to, y - 1);
    lemma_row_bounds(field, x_from, x_to, y);
    lemma_row_bounds(field, x_from, x_to, y + 1);
    reveal_with_fuel(block_mines, 4);
}

} // verus!
