//! Building a field with mines: at random, or from a seed.

use crate::error::FieldError;
use crate::field::Minesweeper;
use crate::model::Field;
use crate::placement::{
    effective_mines, filled_from, lemma_covered, lemma_sampled_settles, sampled, topped_up,
    valid_dimensions, with_draw, DRAW_LIMIT,
};
use crate::source::{next_index, random_index, seeded_generator, seeded_index, upcoming_index};
use vstd::prelude::*;

verus! {

/// The endless sequence of cells that a generator seeded from `seed` draws
/// on a grid of `total` cells.
pub open spec fn seeded_draws(seed: Seq<char>, total: nat) -> spec_fn(nat) -> usize {
    |ahead: nat| seeded_index(seed, total as u64, ahead) as usize
}

/// The mines of the field that a seed gives: the cells that the seeded
/// generator draws are taken until enough mines stand.
pub open spec fn seeded_mines(width: nat, height: nat, requested: nat, seed: Seq<char>) -> Seq<
    usize,
> {
    let total = width * height;
    let target = effective_mines(width, height, requested);
    topped_up(sampled(seeded_draws(seed, total), target, DRAW_LIMIT as nat), target, total)
}

/// The field that a seed gives.
pub open spec fn seeded_field(width: nat, height: nat, requested: nat, seed: Seq<char>) -> Field {
    Field { width, height, mines: seeded_mines(width, height, requested, seed) }
}

/// The number of cells of a grid, if the grid can hold a mine and a safe cell.
pub fn cell_count(width: usize, height: usize) -> (total: Option<usize>)
    ensures
        total is Some <==> valid_dimensions(width as nat, height as nat),
        total is Some ==> total->0 == width * height,
{
    match width.checked_mul(height) {
        Some(total) => if total >= 2 {
            Some(total)
        } else {
            None
        },
        None => None,
    }
}

impl Minesweeper {
    /// The number of mines that is placed on a grid of `width` by `height`
    /// cells when `requested` are asked for.
    pub fn effective_mines(width: usize, height: usize, requested: usize) -> (result: Result<
        usize,
        FieldError,
    >)
        ensures
            result is Ok <==> valid_dimensions(width as nat, height as nat),
            result is Ok ==> result->Ok_0 == effective_mines(
                width as nat,
                height as nat,
                requested as nat,
            ),
            result is Err ==> result->Err_0 == FieldError::InvalidDimensions,
    {
        match cell_count(width, height) {
            Some(total) => if requested < 1 {
                Ok(1)
            } else if requested > total - 1 {
                Ok(total - 1)
            } else {
                Ok(requested)
            },
            None => Err(FieldError::InvalidDimensions),
        }
    }

    /// Brings the field up to `target` mines, or to as many as leave one cell
    /// safe, by putting mines on the free cells with the lowest indices. A
    /// field that holds that many already stays as it is.
    pub fn top_up(&mut self, target: usize)
        requires
            old(self).wf(),
        ensures
            final(self).wf(),
            final(self)@.width == old(self)@.width,
            final(self)@.height == old(self)@.height,
            final(self)@.mines == topped_up(
                old(self)@.mines,
                vstd::math::min(target as int, old(self)@.cells() - 1) as nat,
                old(self)@.cells(),
            ),
            final(self)@.mines.len() == vstd::math::max(
                old(self)@.mines.len() as int,
                vstd::math::min(target as int, old(self)@.cells() - 1),
            ),
    {
        let total = self.cells();
        let target = if target > total - 1 {
            total - 1
        } else {
            target
        };
        let mut cell: usize = 0;
        while cell < total && self.mine_count() < target
            invariant
                self.wf(),
                self@.width == old(self)@.width,
                self@.height == old(self)@.height,
                total == self@.cells(),
                target + 1 <= total,
                cell <= total,
                filled_from(self@.mines, target as nat, cell as nat, total as nat) == topped_up(
                    old(self)@.mines,
                    target as nat,
                    total as nat,
                ),
                forall|c: int| 0 <= c < cell ==> #[trigger] self@.has_mine(c),
                self@.mines.len() <= vstd::math::max(old(self)@.mines.len() as int, target as int),
                self@.mines.len() >= old(self)@.mines.len(),
            decreases total - cell,
        {
            let ghost before = self@;
            let placed = self.place(cell);
            proof {
                assert(self@.mines == with_draw(before.mines, cell));
                assert(self@.has_mine(cell as int)) by {
                    if placed {
                        assert(self@.mines[before.mines.len() as int] == cell);
                    } else {
                        let at = choose|i: int|
                            0 <= i < before.mines.len() && before.mines[i] == cell;
                        assert(self@.mines[at] == cell);
                    }
                }
                assert forall|c: int| 0 <= c < cell implies #[trigger] self@.has_mine(c) by {
                    assert(before.has_mine(c));
                    let at = choose|i: int| 0 <= i < before.mines.len() && before.mines[i] == c;
                    assert(self@.mines[at] == c);
                }
            }
            cell += 1;
        }
        proof {
            if self@.mines.len() < target {
                lemma_covered(self@, total as nat);
            }
        }
    }

    /// A field of `width` by `height` cells with mines on cells drawn at
    /// random. The number of mines is `mines`, raised to one or lowered to
    /// the number of cells less one where it lies outside that range. Cells
    /// are drawn until that many hold a mine; a cell that is drawn again is
    /// passed over. Should `DRAW_LIMIT` draws not suffice, the free cells
    /// with the lowest indices make up the number.
    pub fn random(width: usize, height: usize, mines: usize) -> (result: Result<
        Minesweeper,
        FieldError,
    >)
        ensures
            result is Ok <==> valid_dimensions(width as nat, height as nat),
            result is Err ==> result->Err_0 == FieldError::InvalidDimensions,
            result matches Ok(field) ==> {
                &&& field.wf()
                &&& field@.width == width
                &&& field@.height == height
                &&& field@.mines.len() == effective_mines(
                    width as nat,
                    height as nat,
                    mines as nat,
                )
            },
    {
        let total = match cell_count(width, height) {
            Some(total) => total,
            None => { return Err(FieldError::InvalidDimensions); },
        };
        let target = if mines < 1 {
            1
        } else if mines > total - 1 {
            total - 1
        } else {
            mines
        };
        assert(width >= 1 && height >= 1) by (nonlinear_arith)
            requires
                width * height >= 2,
        ;
        let mut field = Minesweeper::empty(width, height);
        let mut draws: u64 = 0;
        while field.mine_count() < target && draws < DRAW_LIMIT
            invariant
                field.wf(),
                field@.width == width,
                field@.height == height,
                total == width * height,
                1 <= target <= total - 1,
                field@.mines.len() <= target,
            decreases DRAW_LIMIT - draws,
        {
            let index = random_index(total);
            field.place(index);
            draws += 1;
        }
        field.top_up(target);
        Ok(field)
    }

    /// The field of `width` by `height` cells that `seed` gives: the same
    /// seed, dimensions and number of mines always give the same field. The
    /// number of mines is `mines`, raised to one or lowered to the number of
    /// cells less one where it lies outside that range. The cells are drawn
    /// as in `random`, by a `pcg64` generator that is seeded from a SipHash
    /// of the seed's bytes.
    pub fn random_seed(width: usize, height: usize, mines: usize, seed: &str) -> (result: Result<
        Minesweeper,
        FieldError,
    >)
        ensures
            result is Ok <==> valid_dimensions(width as nat, height as nat),
            result is Err ==> result->Err_0 == FieldError::InvalidDimensions,
            result matches Ok(field) ==> {
                &&& field.wf()
                &&& field@ == seeded_field(width as nat, height as nat, mines as nat, seed@)
                &&& field@.mines.len() == effective_mines(
                    width as nat,
                    height as nat,
                    mines as nat,
                )
            },
    {
        let total = match cell_count(width, height) {
            Some(total) => total,
            None => { return Err(FieldError::InvalidDimensions); },
        };
        let target = if mines < 1 {
            1
        } else if mines > total - 1 {
            total - 1
        } else {
            mines
        };
        assert(width >= 1 && height >= 1) by (nonlinear_arith)
            requires
                width * height >= 2,
        ;
        let ghost stream = seeded_draws(seed@, total as nat);
        let mut rng = seeded_generator(seed);
        let mut field = Minesweeper::empty(width, height);
        let mut draws: u64 = 0;
        assert(field@.mines == sampled(stream, target as nat, 0));
        while field.mine_count() < target && draws < DRAW_LIMIT
            invariant
                field.wf(),
                field@.width == width,
                field@.height == height,
                total == width * height,
                1 <= target <= total - 1,
                stream == seeded_draws(seed@, total as nat),
                field@.mines == sampled(stream, target as nat, draws as nat),
                field@.mines.len() <= target,
                forall|ahead: nat| #[trigger]
                    upcoming_index(rng, total as u64, ahead) == seeded_index(
                        seed@,
                        total as u64,
                        (draws + ahead) as nat,
                    ),
            decreases DRAW_LIMIT - draws,
        {
            let index = next_index(&mut rng, total as u64) as usize;
            assert(index == stream(draws as nat));
            field.place(index);
            draws += 1;
        }
        proof {
            if field@.mines.len() >= target {
                lemma_sampled_settles(stream, target as nat, draws as nat, DRAW_LIMIT as nat);
            }
        }
        field.top_up(target);
        Ok(field)
    }
}

/// Determinism: two fields that the same seed gives for the same dimensions
/// and the same number of mines hold the same mines, in the same order, and
/// show the same board.
pub proof fn lemma_seed_determines_field(
    first: Field,
    second: Field,
    width: nat,
    height: nat,
    requested: nat,
    seed: Seq<char>,
)
    requires
        first == seeded_field(width, height, requested, seed),
        second == seeded_field(width, height, requested, seed),
    ensures
        first.mines == second.mines,
        first.mine_set() == second.mine_set(),
        first.board() == second.board(),
{
}

} // verus!
