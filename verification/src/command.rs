//! The request for a board as a chat command carries it, and the text of the
//! reply: every tile as a spoiler, a line for every row.

use crate::board::Board;
use crate::tile::Tile;
use vstd::prelude::*;
use vstd::string::StringExecFns;

verus! {

pub const MIN_WIDTH: i64 = 3;

pub const MAX_WIDTH: i64 = 11;

pub const MIN_HEIGHT: i64 = 3;

pub const MAX_HEIGHT: i64 = 9;

pub const MIN_MOSQUITOS: i64 = 1;

pub const MAX_MOSQUITOS: i64 = 99;

/// What a command asks for. Options that the command leaves out keep their
/// defaults.
#[derive(Debug)]
pub struct BoardRequest {
    pub width: i64,
    pub height: i64,
    pub mosquitos: i64,
    pub private: bool,
    pub seed: Option<String>,
}

/// `value`, raised to `low` or lowered to `high` where it lies outside them.
pub open spec fn clamped(value: int, low: int, high: int) -> int {
    if value < low {
        low
    } else if value > high {
        high
    } else {
        value
    }
}

/// Calls `str::eq`, which compares two strings character by character.
#[verifier::external_body]
fn same_text(left: &str, right: &str) -> (same: bool)
    ensures
        same == (left@ == right@),
{
    left == right
}

impl BoardRequest {
    /// The request of a command without options: the largest board, ten
    /// mosquitos, a private reply and no seed.
    pub fn new() -> (request: BoardRequest)
        ensures
            request.width == 11,
            request.height == 9,
            request.mosquitos == 10,
            request.private,
            request.seed is None,
    {
        BoardRequest { width: 11, height: 9, mosquitos: 10, private: true, seed: None }
    }

    /// Takes over the integer option `name`. Only `width`, `height` and
    /// `mosquitos` are integer options; another name changes nothing.
    pub fn set_integer(&mut self, name: &str, value: i64)
        ensures
            final(self).width == if name@ == "width"@ {
                value
            } else {
                old(self).width
            },
            final(self).height == if name@ == "height"@ {
                value
            } else {
                old(self).height
            },
            final(self).mosquitos == if name@ == "mosquitos"@ {
                value
            } else {
                old(self).mosquitos
            },
            final(self).private == old(self).private,
            final(self).seed == old(self).seed,
    {
        proof {
            reveal_strlit("width");
            reveal_strlit("height");
            reveal_strlit("mosquitos");
            assert("width"@.len() == 5 && "height"@.len() == 6 && "mosquitos"@.len() == 9);
        }
        if same_text(name, "width") {
            self.width = value;
        } else if same_text(name, "height") {
            self.height = value;
        } else if same_text(name, "mosquitos") {
            self.mosquitos = value;
        }
    }

    /// Takes over the boolean option `name`. Only `private` is a boolean
    /// option; another name changes nothing.
    pub fn set_boolean(&mut self, name: &str, value: bool)
        ensures
            final(self).private == if name@ == "private"@ {
                value
            } else {
                old(self).private
            },
            final(self).width == old(self).width,
            final(self).height == old(self).height,
            final(self).mosquitos == old(self).mosquitos,
            final(self).seed == old(self).seed,
    {
        if same_text(name, "private") {
            self.private = value;
        }
    }

    /// Takes over the string option `name`. Only `seed` is a string option;
    /// another name changes nothing.
    pub fn set_string(&mut self, name: &str, value: &str)
        ensures
            name@ == "seed"@ ==> final(self).seed is Some && final(self).seed->0@ == value@,
            name@ != "seed"@ ==> final(self).seed == old(self).seed,
            final(self).width == old(self).width,
            final(self).height == old(self).height,
            final(self).mosquitos == old(self).mosquitos,
            final(self).private == old(self).private,
    {
        if same_text(name, "seed") {
            self.seed = Some(value.to_string());
        }
    }

    /// The width of the board that is built: the requested one, kept between
    /// three and eleven.
    pub fn board_width(&self) -> (width: usize)
        ensures
            width == clamped(self.width as int, 3, 11),
    {
        if self.width < MIN_WIDTH {
            3
        } else if self.width > MAX_WIDTH {
            11
        } else {
            self.width as usize
        }
    }

    /// The height of the board that is built: the requested one, kept
    /// between three and nine.
    pub fn board_height(&self) -> (height: usize)
        ensures
            height == clamped(self.height as int, 3, 9),
    {
        if self.height < MIN_HEIGHT {
            3
        } else if self.height > MAX_HEIGHT {
            9
        } else {
            self.height as usize
        }
    }

    /// The number of mosquitos that is asked of the field: the requested
    /// one, kept between one and the number of cells of the board less one.
    pub fn board_mosquitos(&self) -> (mosquitos: usize)
        ensures
            mosquitos == clamped(
                self.mosquitos as int,
                1,
                clamped(self.width as int, 3, 11) * clamped(self.height as int, 3, 9) - 1,
            ),
    {
        let width = self.board_width();
        let height = self.board_height();
        assert(9 <= width * height <= 99) by (nonlinear_arith)
            requires
                3 <= width <= 11,
                3 <= height <= 9,
        ;
        let most = width * height - 1;
        if self.mosquitos < MIN_MOSQUITOS {
            1
        } else if self.mosquitos > MAX_MOSQUITOS {
            most
        } else if self.mosquitos as usize > most {
            most
        } else {
            self.mosquitos as usize
        }
    }

    /// The seed of the board: the requested one, or `fallback` where the
    /// command gave none.
    pub fn seed_or(&self, fallback: String) -> (seed: String)
        ensures
            seed@ == match self.seed {
                Some(requested) => requested@,
                None => fallback@,
            },
    {
        match &self.seed {
            Some(requested) => requested.clone(),
            None => fallback,
        }
    }
}

/// The emoji that stands for a tile.
pub open spec fn glyph(tile: Tile) -> Seq<char> {
    match tile {
        Tile::Mine => ":mosquito:"@,
        Tile::Empty => ":zero:"@,
        Tile::One => ":one:"@,
        Tile::Two => ":two:"@,
        Tile::Three => ":three:"@,
        Tile::Four => ":four:"@,
        Tile::Five => ":five:"@,
        Tile::Six => ":six:"@,
        Tile::Seven => ":seven:"@,
        Tile::Eight => ":eight:"@,
    }
}

/// The text of a row: every tile's emoji between spoiler marks.
pub open spec fn row_text(tiles: Seq<Tile>) -> Seq<char>
    decreases tiles.len(),
{
    if tiles.len() == 0 {
        Seq::empty()
    } else {
        row_text(tiles.drop_last()) + "||"@ + glyph(tiles.last()) + "||"@
    }
}

/// The text of a board: the text of every row, each followed by a line
/// break.
pub open spec fn board_text(rows: Seq<Seq<Tile>>) -> Seq<char>
    decreases rows.len(),
{
    if rows.len() == 0 {
        Seq::empty()
    } else {
        board_text(rows.drop_last()) + row_text(rows.last()) + "\n"@
    }
}

/// The emoji that stands for a tile.
pub fn from_tile(tile: &Tile) -> (text: String)
    ensures
        text@ == glyph(*tile),
{
    match tile {
        Tile::Mine => String::from_str(":mosquito:"),
        Tile::One => String::from_str(":one:"),
        Tile::Two => String::from_str(":two:"),
        Tile::Three => String::from_str(":three:"),
        Tile::Four => String::from_str(":four:"),
        Tile::Five => String::from_str(":five:"),
        Tile::Six => String::from_str(":six:"),
        Tile::Seven => String::from_str(":seven:"),
        Tile::Eight => String::from_str(":eight:"),
        Tile::Empty => String::from_str(":zero:"),
    }
}

/// The text of a board: every tile's emoji between spoiler marks, and a line
/// break after every row.
pub fn render(board: &Board) -> (text: String)
    ensures
        text@ == board_text(board@),
{
    let rows = board.get_rows();
    let mut text = String::new();
    let mut y: usize = 0;
    while y < rows.len()
        invariant
            y <= rows@.len(),
            rows@.len() == board@.len(),
            forall|r: int| 0 <= r < rows@.len() ==> (#[trigger] rows@[r])@ == board@[r],
            text@ == board_text(board@.take(y as int)),
        decreases rows.len() - y,
    {
        let tiles = rows[y].get_tiles();
        let ghost above = text@;
        let mut x: usize = 0;
        while x < tiles.len()
            invariant
                x <= tiles@.len(),
                text@ == above + row_text(tiles@.take(x as int)),
            decreases tiles.len() - x,
        {
            let emoji = from_tile(&tiles[x]);
            text.append("||");
            text.append(emoji.as_str());
            text.append("||");
            proof {
                assert(tiles@.take(x + 1).drop_last() == tiles@.take(x as int));
                assert(tiles@.take(x + 1).last() == tiles@[x as int]);
            }
            x += 1;
        }
        text.append("\n");
        proof {
            assert(tiles@.take(x as int) == tiles@);
            assert(board@.take(y + 1).drop_last() == board@.take(y as int));
            assert(board@.take(y + 1).last() == tiles@);
        }
        y += 1;
    }
    assert(board@.take(y as int) == board@);
    text
}

/// The reply to a command: the seed on a line of its own, then the board.
pub fn reply(seed: &str, board: &Board) -> (text: String)
    ensures
        text@ == seed@ + "\n"@ + board_text(board@),
{
    let mut text = String::from_str(seed);
    text.append("\n");
    let rendered = render(board);
    text.append(rendered.as_str());
    text
}

} // verus!
