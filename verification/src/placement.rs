//! The rules by which mines are placed: how many, and which cells they take
//! when cells are drawn one after another.

use crate::model::Field;
use vstd::prelude::*;

verus! {

/// The most draws that are made for one field. Cells that are still missing
/// after so many draws are taken from the free cells in order.
pub const DRAW_LIMIT: u64 = 0xffff_ffff_ffff_ffff;

/// The number of mines that is placed when `requested` are asked for: at
/// least one, and at most so many that one cell stays safe.
pub open spec fn effective_mines(width: nat, height: nat, requested: nat) -> nat {
    let most = (width * height - 1) as nat;
    if requested < 1 {
        1
    } else if requested > most {
        most
    } else {
        requested
    }
}

/// Whether a grid of `width` by `height` cells can hold a mine and a safe
/// cell, and its cells can be numbered by a `usize`.
pub open spec fn valid_dimensions(width: nat, height: nat) -> bool {
    2 <= width * height <= usize::MAX
}

/// The mines that `mines` becomes when the cell `index` is drawn: a free cell
/// gets a mine, a cell that holds one already is passed over.
pub open spec fn with_draw(mines: Seq<usize>, index: usize) -> Seq<usize> {
    if mines.contains(index) {
        mines
    } else {
        mines.push(index)
    }
}

/// The mines that stand after the first `count` draws of the endless sequence
/// `draws`, when drawing places mines until `target` of them stand.
pub open spec fn sampled(draws: spec_fn(nat) -> usize, target: nat, count: nat) -> Seq<usize>
    decreases count,
{
    if count == 0 {
        Seq::empty()
    } else {
        let before = sampled(draws, target, (count - 1) as nat);
        if before.len() < target {
            with_draw(before, draws((count - 1) as nat))
        } else {
            before
        }
    }
}

/// The mines that `mines` becomes when the cells from `cell` up to `total` are
/// visited in order and every free one gets a mine until `target` mines stand.
pub open spec fn filled_from(mines: Seq<usize>, target: nat, cell: nat, total: nat) -> Seq<usize>
    decreases total - cell,
{
    if cell >= total || cell > usize::MAX || mines.len() >= target {
        mines
    } else {
        filled_from(with_draw(mines, cell as usize), target, cell + 1, total)
    }
}

/// The mines that `mines` becomes when it is brought up to `target` mines by
/// the free cells with the lowest indices.
pub open spec fn topped_up(mines: Seq<usize>, target: nat, total: nat) -> Seq<usize> {
    filled_from(mines, target, 0, total)
}

/// A field in which each of the first `count` cells holds a mine has at least
/// `count` mines.
pub proof fn lemma_covered(field: Field, count: nat)
    requires
        forall|c: int| 0 <= c < count ==> #[trigger] field.has_mine(c),
    ensures
        field.mines.len() >= count,
    decreases count,
{
    if count > 0 {
        let last = count - 1;
        assert(field.has_mine(last));
        let at = choose|i: int| 0 <= i < field.mines.len() && field.mines[i] == last;
        let rest = Field { mines: field.mines.remove(at), ..field };
        assert forall|c: int| 0 <= c < count - 1 implies #[trigger] rest.has_mine(c) by {
            assert(field.has_mine(c));
            let k = choose|i: int| 0 <= i < field.mines.len() && field.mines[i] == c;
            if k < at {
                assert(rest.mines[k] == c);
            } else {
                assert(rest.mines[k - 1] == c);
            }
        }
        lemma_covered(rest, (count - 1) as nat);
    }
}

/// Once the target is reached, further draws change nothing.
pub proof fn lemma_sampled_settles(draws: spec_fn(nat) -> usize, target: nat, count: nat, later: nat)
    requires
        count <= later,
        sampled(draws, target, count).len() >= target,
    ensures
        sampled(draws, target, later) == sampled(draws, target, count),
    decreases later,
{
    if count < later {
        lemma_sampled_settles(draws, target, count, (later - 1) as nat);
    }
}

/// The number of mines that is placed lies between one and the number of
/// cells less one.
pub proof fn lemma_effective_mines_bounds(width: nat, height: nat, requested: nat)
    requires
        width * height >= 2,
    ensures
        1 <= effective_mines(width, height, requested) <= width * height - 1,
        1 <= requested <= width * height - 1 ==> effective_mines(width, height, requested)
            == requested,
{
}

} // verus!
