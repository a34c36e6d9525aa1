//! A colour guessing game: the rules, with the terminal left to the caller.
//!
//! A round has one target [`Color`]. Each guess is a line of text in the
//! form `rrggbb` or `#rrggbb`; it is scored by how far its channels lie from
//! the target's, and the round is won once the score passes a threshold.

pub mod accuracy;
pub mod color;
pub mod decimal;
pub mod game;
pub mod hex;
pub mod render;

pub use color::Color;
pub use game::{Action, Event, Game, Phase, WIN_THRESHOLD};
pub use hex::ParseError;
pub use render::erase_last_line;
