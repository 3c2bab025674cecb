//! What a move on a board may lead to.

use vstd::prelude::*;
use crate::board::view::BoardView;
use crate::board::Board;
use crate::{Color, Move, Position};

verus! {

/// The kind of piece a pawn becomes on its last rank.
#[derive(Clone, Copy, Debug, PartialEq, Eq, Structural)]
pub enum Promotion {
    Queen,
    Knight,
    Bishop,
    Rook,
}

/// What came of a move that a player asked the board to play.
#[derive(Clone, Copy, Debug, PartialEq, Eq, PartialOrd, Ord)]
pub enum MoveResult {
    /// The move was played and the game goes on with this board, on which
    /// the other player is to move.
    Continuing(Board),
    /// The move was played and put a pawn on its last rank, on this square.
    /// On this board the same player is still to move: the pawn has to be
    /// promoted before the game goes on.
    Promote(Board, Position),
    /// The game is over and this player has won it: by checkmate, or
    /// because the other resigned.
    Victory(Color),
    /// The game is drawn: the player to move has no legal move and is not in
    /// check, or neither player has the material to mate.
    Stalemate,
    /// The move is not legal; nothing was played.
    IllegalMove(Move),
}

/// A [`MoveResult`] as a mathematical value.
pub enum MoveOutcome {
    Continuing(BoardView),
    Promote(BoardView, Position),
    Victory(Color),
    Stalemate,
    IllegalMove(Move),
}

impl View for MoveResult {
    type V = MoveOutcome;

    open spec fn view(&self) -> MoveOutcome {
        match *self {
            MoveResult::Continuing(board) => MoveOutcome::Continuing(board@),
            MoveResult::Promote(board, pos) => MoveOutcome::Promote(board@, pos),
            MoveResult::Victory(color) => MoveOutcome::Victory(color),
            MoveResult::Stalemate => MoveOutcome::Stalemate,
            MoveResult::IllegalMove(m) => MoveOutcome::IllegalMove(m),
        }
    }
}

} // verus!
