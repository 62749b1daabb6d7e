//! Generation of Minesweeper boards: a rectangular field with mines placed at
//! random or from a seed, rendered as a grid of tiles in which every safe cell
//! shows how many of its neighbours hold a mine.

pub mod board;
pub mod command;
pub mod error;
pub mod field;
pub mod generate;
pub mod model;
pub mod placement;
pub mod quote;
pub mod source;
pub mod tile;
pub mod window;

pub use board::{Board, Row};
pub use error::FieldError;
pub use field::Minesweeper;
pub use model::Field;
pub use quote::Quote;
pub use tile::Tile;
