//! A chess rules engine: a board, the legal moves of every piece under the
//! full rules of chess, and a minimax search with alpha-beta pruning, all of
//! it verified.
//!
//! - [`position`] holds the coordinates of the board and their geometry.
//! - [`piece`] holds the pieces: what they are worth and how they move.
//! - [`board`] holds the board: check, castling, en passant and promotion,
//!   playing a move, and the search for the best one. Its contracts speak
//!   of [`BoardView`], the board as a mathematical value, and its laws say
//!   what holds of every board.
//! - [`game`] plays a game on a board, with a clock, a history and the draw
//!   by repetition.
//! - [`notation`] reads a move from text.
//!
//! No function of the library panics: what a function asks of its arguments
//! stands in its `requires`. A board is asked to be valid, which every board
//! is that the library has made; [`Board::is_valid`] tests it.
//!
//! Scores are whole numbers of half points.

use vstd::prelude::*;
use vstd::string::StringExecFns;

pub mod board;
pub mod game;
pub mod notation;
pub mod piece;
pub mod position;
pub mod sequences;
mod square;
pub mod text;

pub use board::builder::BoardBuilder;
pub use board::castling_rights::CastlingRights;
pub use board::search::RatedMove;
pub use board::types::{MoveOutcome, MoveResult, Promotion};
pub use board::view::BoardView;
pub use board::Board;
pub use game::{Game, GameResult};
pub use piece::Piece;
pub use position::Position;
pub use square::Square;

verus! {

/// The color of a piece, and of the player who owns it.
#[derive(Clone, Copy, Debug, PartialEq, Eq, PartialOrd, Ord, Structural)]
pub enum Color {
    White,
    Black,
}

pub const WHITE: Color = Color::White;

pub const BLACK: Color = Color::Black;

impl Color {
    /// The other color.
    pub open spec fn spec_opposite(self) -> Color {
        match self {
            Color::White => Color::Black,
            Color::Black => Color::White,
        }
    }

    /// The other color.
    #[verifier::when_used_as_spec(spec_opposite)]
    pub fn opposite(self) -> (other: Color)
        ensures
            other == self.spec_opposite(),
    {
        match self {
            Color::White => Color::Black,
            Color::Black => Color::White,
        }
    }
}

impl Color {
    /// The English name of the color.
    pub open spec fn spec_to_string(self) -> Seq<char> {
        match self {
            Color::White => "White"@,
            Color::Black => "Black"@,
        }
    }

    /// The English name of the color: `White` or `Black`.
    pub fn to_string(&self) -> (text: String)
        ensures
            text@ == self.spec_to_string(),
    {
        match self {
            Color::White => String::from_str("White"),
            Color::Black => String::from_str("Black"),
        }
    }
}

impl core::ops::Not for Color {
    type Output = Color;

    fn not(self) -> (other: Color) {
        self.opposite()
    }
}

impl vstd::std_specs::ops::NotSpecImpl for Color {
    open spec fn obeys_not_spec() -> bool {
        true
    }

    open spec fn not_req(self) -> bool {
        true
    }

    open spec fn not_spec(self) -> Color {
        self.spec_opposite()
    }
}

/// A move that a player may ask the board to play.
///
/// The board applies it for the player whose turn it is.
#[derive(Clone, Copy, Debug, PartialEq, Eq, PartialOrd, Ord, Structural)]
pub enum Move {
    /// The king castles with the rook of the `a` file.
    QueenSideCastle,
    /// The king castles with the rook of the `h` file.
    KingSideCastle,
    /// The piece on the first square moves to the second, capturing what
    /// stands there. A pawn that moves onto the en passant square captures
    /// the pawn that has just passed it.
    Piece(Position, Position),
    /// The player gives the game up.
    Resign,
}

impl Move {
    /// The move as text: the two squares with ` to ` between them for the
    /// move of a piece, `O-O` and `O-O-O` for the castling moves, and
    /// `Resign`.
    pub open spec fn spec_to_string(self) -> Seq<char> {
        match self {
            Move::Piece(from, to) => from.spec_to_string() + " to "@ + to.spec_to_string(),
            Move::KingSideCastle => "O-O"@,
            Move::QueenSideCastle => "O-O-O"@,
            Move::Resign => "Resign"@,
        }
    }

    /// The move as text, as `e2 to e4`.
    pub fn to_string(&self) -> (text: String)
        ensures
            text@ == self.spec_to_string(),
    {
        match self {
            Move::Piece(from, to) => {
                let mut text = from.to_string();
                text.append(" to ");
                let target = to.to_string();
                text.append(target.as_str());
                text
            },
            Move::KingSideCastle => String::from_str("O-O"),
            Move::QueenSideCastle => String::from_str("O-O-O"),
            Move::Resign => String::from_str("Resign"),
        }
    }
}

} // verus!
