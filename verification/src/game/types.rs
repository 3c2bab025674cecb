//! The entries of the history of a game.

use vstd::prelude::*;
use crate::game::clock::TimeSpan;
use crate::{Color, Move, Piece, Promotion};

verus! {

/// A move as the history of a game keeps it: with who played it, when, how
/// long it took, and what it captured or promoted to.
#[derive(Debug, Clone, Copy, Eq, PartialEq, Structural)]
pub struct GameMove {
    /// The move.
    pub itself: Move,
    /// The number of the turn, from 1 on.
    pub turn: u16,
    /// The player who made the move.
    pub player: Color,
    /// The time the player took.
    pub time: TimeSpan,
    /// The piece that the move captured.
    pub piece_taken: Option<Piece>,
    /// The kind of piece that a pawn was promoted to in that turn.
    pub promotion: Option<Promotion>,
}

impl GameMove {
    /// An entry of the history.
    pub fn new(
        m: Move,
        player: Color,
        turn: u16,
        time: TimeSpan,
        piece_taken: Option<Piece>,
        promotion: Option<Promotion>,
    ) -> (entry: GameMove)
        ensures
            entry == (GameMove { itself: m, turn, player, time, piece_taken, promotion }),
    {
        GameMove { itself: m, player, turn, time, piece_taken, promotion }
    }
}

} // verus!
