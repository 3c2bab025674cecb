//! The starting positions of chess and of two of its variants.

use vstd::prelude::*;
use crate::board::builder::BoardBuilder;
use crate::board::view::{square_position, BoardView};
use crate::board::Board;
use crate::{CastlingRights, Color, Piece, Position};

verus! {

/// The piece of `color` that starts on `pos` of its back rank: rook,
/// knight, bishop, queen, king, bishop, knight, rook from file `a` on.
pub open spec fn back_rank_piece(color: Color, pos: Position) -> Piece {
    if pos.col == 0 || pos.col == 7 {
        Piece::Rook(color, pos)
    } else if pos.col == 1 || pos.col == 6 {
        Piece::Knight(color, pos)
    } else if pos.col == 2 || pos.col == 5 {
        Piece::Bishop(color, pos)
    } else if pos.col == 3 {
        Piece::Queen(color, pos)
    } else {
        Piece::King(color, pos)
    }
}

/// What stands on `pos` when a game of chess starts.
pub open spec fn standard_piece_at(pos: Position) -> Option<Piece> {
    if pos.row == 7 {
        Some(back_rank_piece(Color::Black, pos))
    } else if pos.row == 6 {
        Some(Piece::Pawn(Color::Black, pos))
    } else if pos.row == 1 {
        Some(Piece::Pawn(Color::White, pos))
    } else if pos.row == 0 {
        Some(back_rank_piece(Color::White, pos))
    } else {
        None
    }
}

/// What stands on `pos` when a game of Dunsany's chess starts: Black as in
/// chess, and white pawns on the ranks 1 to 4.
pub open spec fn dunsany_piece_at(pos: Position) -> Option<Piece> {
    if pos.row >= 6 {
        standard_piece_at(pos)
    } else if pos.row <= 3 {
        Some(Piece::Pawn(Color::White, pos))
    } else {
        None
    }
}

/// What stands on `pos` when a game of Horde chess starts: as in Dunsany's
/// chess, and white pawns on b5, c5, f5 and g5.
pub open spec fn horde_piece_at(pos: Position) -> Option<Piece> {
    if pos.row == 4 && (pos.col == 1 || pos.col == 2 || pos.col == 5 || pos.col == 6) {
        Some(Piece::Pawn(Color::White, pos))
    } else {
        dunsany_piece_at(pos)
    }
}

impl BoardView {
    /// The board on which `setup` says what stands on each square, with all
    /// castling rights held and `turn` to move.
    pub open spec fn starting(setup: spec_fn(Position) -> Option<Piece>, turn: Color) -> BoardView {
        BoardView {
            squares: Seq::new(64, |i: int| setup(square_position(i))),
            en_passant: None,
            taken_piece: None,
            promotion: None,
            white_castling_rights: CastlingRights { kingside: true, queenside: true },
            black_castling_rights: CastlingRights { kingside: true, queenside: true },
            turn,
        }
    }

    /// The starting position of chess.
    pub open spec fn standard() -> BoardView {
        Self::starting(|pos: Position| standard_piece_at(pos), Color::White)
    }

    /// The starting position of Horde chess.
    pub open spec fn horde() -> BoardView {
        Self::starting(|pos: Position| horde_piece_at(pos), Color::White)
    }

    /// The starting position of Dunsany's chess, in which Black moves first.
    pub open spec fn dunsany() -> BoardView {
        Self::starting(|pos: Position| dunsany_piece_at(pos), Color::Black)
    }
}

impl Default for Board {
    /// The starting position of chess.
    fn default() -> (board: Board)
        ensures
            board.wf(),
            board@ == BoardView::standard(),
    {
        let board = BoardBuilder::default().piece(
            Piece::Rook(Color::Black, Position::new(7, 0)),
        ).piece(Piece::Knight(Color::Black, Position::new(7, 1))).piece(
            Piece::Bishop(Color::Black, Position::new(7, 2)),
        ).piece(Piece::Queen(Color::Black, Position::new(7, 3))).piece(
            Piece::King(Color::Black, Position::new(7, 4)),
        ).piece(Piece::Bishop(Color::Black, Position::new(7, 5))).piece(
            Piece::Knight(Color::Black, Position::new(7, 6)),
        ).piece(Piece::Rook(Color::Black, Position::new(7, 7))).row(
            Piece::Pawn(Color::Black, Position::new(6, 0)),
        ).row(Piece::Pawn(Color::White, Position::new(1, 0))).piece(
            Piece::Rook(Color::White, Position::new(0, 0)),
        ).piece(Piece::Knight(Color::White, Position::new(0, 1))).piece(
            Piece::Bishop(Color::White, Position::new(0, 2)),
        ).piece(Piece::Queen(Color::White, Position::new(0, 3))).piece(
            Piece::King(Color::White, Position::new(0, 4)),
        ).piece(Piece::Bishop(Color::White, Position::new(0, 5))).piece(
            Piece::Knight(Color::White, Position::new(0, 6)),
        ).piece(Piece::Rook(Color::White, Position::new(0, 7))).enable_castling().build();
        assert(board@.squares =~= BoardView::standard().squares);
        board
    }
}

impl Board {
    /// The starting position of Horde chess: Black as in chess, against
    /// white pawns on the ranks 1 to 4 and on b5, c5, f5 and g5.
    pub fn horde() -> (board: Board)
        ensures
            board.wf(),
            board@ == BoardView::horde(),
    {
        let board = BoardBuilder::from(Board::default()).row(
            Piece::Pawn(Color::White, Position::new(0, 0)),
        ).row(Piece::Pawn(Color::White, Position::new(1, 0))).row(
            Piece::Pawn(Color::White, Position::new(2, 0)),
        ).row(Piece::Pawn(Color::White, Position::new(3, 0))).piece(
            Piece::Pawn(Color::White, Position::new(4, 5)),
        ).piece(Piece::Pawn(Color::White, Position::new(4, 6))).piece(
            Piece::Pawn(Color::White, Position::new(4, 1)),
        ).piece(Piece::Pawn(Color::White, Position::new(4, 2))).build();
        assert(board@.squares =~= BoardView::horde().squares);
        board
    }

    /// The starting position of Dunsany's chess: Black as in chess and
    /// moving first, against white pawns on the ranks 1 to 4.
    pub fn dunsany() -> (board: Board)
        ensures
            board.wf(),
            board@ == BoardView::dunsany(),
    {
        let board = BoardBuilder::from(Board::default()).row(
            Piece::Pawn(Color::White, Position::new(0, 0)),
        ).row(Piece::Pawn(Color::White, Position::new(1, 0))).row(
            Piece::Pawn(Color::White, Position::new(2, 0)),
        ).row(Piece::Pawn(Color::White, Position::new(3, 0))).build().change_turn();
        assert(board@.squares =~= BoardView::dunsany().squares);
        board
    }
}

} // verus!
