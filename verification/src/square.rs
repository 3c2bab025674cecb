//! One square of the board.

use vstd::prelude::*;
use crate::Piece;

verus! {

/// A square: empty, or holding one piece.
#[derive(Clone, Copy, Debug, PartialEq, Eq, PartialOrd, Ord, Structural)]
pub struct Square {
    pub piece: Option<Piece>,
}

impl From<Piece> for Square {
    fn from(piece: Piece) -> (square: Square) {
        Square { piece: Some(piece) }
    }
}

impl vstd::std_specs::convert::FromSpecImpl<Piece> for Square {
    open spec fn obeys_from_spec() -> bool {
        true
    }

    open spec fn from_spec(piece: Piece) -> Square {
        Square { piece: Some(piece) }
    }
}

impl Square {
    /// The square with no piece on it.
    pub fn empty() -> (square: Square)
        ensures
            square.piece is None,
    {
        Square { piece: None }
    }

    /// Whether no piece stands on the square.
    pub fn is_empty(&self) -> (empty: bool)
        ensures
            empty == (self.piece is None),
    {
        self.piece.is_none()
    }

    /// The piece on the square, if there is one.
    pub fn get_piece(&self) -> (piece: Option<Piece>)
        ensures
            piece == self.piece,
    {
        self.piece
    }
}

} // verus!
