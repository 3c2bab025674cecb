//! Setting up a board piece by piece.

use vstd::prelude::*;
use crate::board::view::{square_position, BoardView};
use crate::board::Board;
use crate::{CastlingRights, Color, Piece, Position};

verus! {

/// Builds a board: start from an empty or a given one, put pieces on it, set
/// the castling rights and the player to move, and take the board out.
pub struct BoardBuilder {
    pub board: Board,
}

impl From<Board> for BoardBuilder {
    /// A builder that starts from `board`.
    fn from(board: Board) -> (builder: BoardBuilder) {
        BoardBuilder { board }
    }
}

impl vstd::std_specs::convert::FromSpecImpl<Board> for BoardBuilder {
    open spec fn obeys_from_spec() -> bool {
        true
    }

    open spec fn from_spec(board: Board) -> BoardBuilder {
        BoardBuilder { board }
    }
}

impl Default for BoardBuilder {
    /// A builder that starts from the empty board with no castling rights
    /// and White to move.
    fn default() -> (builder: BoardBuilder)
        ensures
            builder.wf(),
            builder.board@ == BoardView::bare(),
    {
        let mut board = Board::empty();
        board.white_castling_rights.disable_all();
        board.black_castling_rights.disable_all();
        assert(board@.squares =~= BoardView::bare().squares);
        BoardBuilder { board }
    }
}

impl BoardView {
    /// The empty board with no castling rights and White to move.
    pub open spec fn bare() -> BoardView {
        BoardView {
            squares: Seq::new(64, |i: int| None),
            en_passant: None,
            taken_piece: None,
            promotion: None,
            white_castling_rights: CastlingRights { kingside: false, queenside: false },
            black_castling_rights: CastlingRights { kingside: false, queenside: false },
            turn: Color::White,
        }
    }

    /// The board with the row of `piece` filled with copies of it, each on
    /// its own square.
    pub open spec fn with_row(self, piece: Piece) -> BoardView {
        BoardView {
            squares: Seq::new(
                64,
                |i: int|
                    if square_position(i).row == piece.spec_get_pos().row {
                        Some(piece.spec_move_to(square_position(i)))
                    } else {
                        self.squares[i]
                    },
            ),
            ..self
        }
    }

    /// The board with the column of `piece` filled with copies of it, each
    /// on its own square.
    pub open spec fn with_column(self, piece: Piece) -> BoardView {
        BoardView {
            squares: Seq::new(
                64,
                |i: int|
                    if square_position(i).col == piece.spec_get_pos().col {
                        Some(piece.spec_move_to(square_position(i)))
                    } else {
                        self.squares[i]
                    },
            ),
            ..self
        }
    }
}

impl BoardBuilder {
    /// Whether the board in the making is valid.
    pub open spec fn wf(&self) -> bool {
        self.board.wf()
    }

    /// Fills the row of `piece` with copies of it. The piece has to name a
    /// row of the board, and no column left of the board.
    pub fn row(self, piece: Piece) -> (builder: BoardBuilder)
        requires
            self.wf(),
            0 <= piece.spec_get_pos().row <= 7,
            0 <= piece.spec_get_pos().col,
        ensures
            builder.wf(),
            builder.board@ == self.board@.with_row(piece),
    {
        let mut builder = self;
        let mut pos = piece.get_pos();
        while pos.get_col() > 0
            invariant
                pos.row == piece.spec_get_pos().row,
                0 <= pos.col,
            decreases pos.col,
        {
            pos = pos.next_left()
        }
        let mut col: usize = 0;
        while col < 8
            invariant
                0 <= col <= 8,
                pos == (Position { row: piece.spec_get_pos().row, col: col as i32 }),
                0 <= pos.row <= 7,
                builder.board.wf(),
                builder.board@.en_passant == self.board@.en_passant,
                builder.board@.taken_piece == self.board@.taken_piece,
                builder.board@.promotion == self.board@.promotion,
                builder.board@.white_castling_rights == self.board@.white_castling_rights,
                builder.board@.black_castling_rights == self.board@.black_castling_rights,
                builder.board@.turn == self.board@.turn,
                forall|i: int|
                    0 <= i < 64 ==> #[trigger] builder.board@.squares[i] == (if square_position(
                        i,
                    ).row == pos.row && square_position(i).col < col {
                        Some(piece.spec_move_to(square_position(i)))
                    } else {
                        self.board@.squares[i]
                    }),
            decreases 8 - col,
        {
            builder.board.add_piece(piece.move_to(pos));
            pos = pos.next_right();
            col += 1;
        }
        assert(builder.board@.squares =~= self.board@.with_row(piece).squares);
        builder
    }

    /// Fills the column of `piece` with copies of it. The piece has to name
    /// a column of the board, and no row below the board.
    pub fn column(self, piece: Piece) -> (builder: BoardBuilder)
        requires
            self.wf(),
            0 <= piece.spec_get_pos().col <= 7,
            0 <= piece.spec_get_pos().row,
        ensures
            builder.wf(),
            builder.board@ == self.board@.with_column(piece),
    {
        let mut builder = self;
        let mut pos = piece.get_pos();
        while pos.get_row() > 0
            invariant
                pos.col == piece.spec_get_pos().col,
                0 <= pos.row,
            decreases pos.row,
        {
            pos = pos.next_below()
        }
        let mut row: usize = 0;
        while row < 8
            invariant
                0 <= row <= 8,
                pos == (Position { row: row as i32, col: piece.spec_get_pos().col }),
                0 <= pos.col <= 7,
                builder.board.wf(),
                builder.board@.en_passant == self.board@.en_passant,
                builder.board@.taken_piece == self.board@.taken_piece,
                builder.board@.promotion == self.board@.promotion,
                builder.board@.white_castling_rights == self.board@.white_castling_rights,
                builder.board@.black_castling_rights == self.board@.black_castling_rights,
                builder.board@.turn == self.board@.turn,
                forall|i: int|
                    0 <= i < 64 ==> #[trigger] builder.board@.squares[i] == (if square_position(
                        i,
                    ).col == pos.col && square_position(i).row < row {
                        Some(piece.spec_move_to(square_position(i)))
                    } else {
                        self.board@.squares[i]
                    }),
            decreases 8 - row,
        {
            builder.board.add_piece(piece.move_to(pos));
            pos = pos.next_above();
            row += 1;
        }
        assert(builder.board@.squares =~= self.board@.with_column(piece).squares);
        builder
    }

    /// Puts `piece` on the square it names as its own, which has to be a
    /// square of the board.
    pub fn piece(self, piece: Piece) -> (builder: BoardBuilder)
        requires
            self.wf(),
            piece.spec_get_pos().spec_is_on_board(),
        ensures
            builder.wf(),
            builder.board@ == self.board@.with_square(piece.spec_get_pos(), Some(piece)),
    {
        let mut builder = self;
        builder.board.add_piece(piece);
        builder
    }

    /// Grants both players both castling rights.
    pub fn enable_castling(self) -> (builder: BoardBuilder)
        ensures
            self.wf() ==> builder.wf(),
            builder.board@ == (BoardView {
                white_castling_rights: CastlingRights { kingside: true, queenside: true },
                black_castling_rights: CastlingRights { kingside: true, queenside: true },
                ..self.board@
            }),
    {
        let mut builder = self;
        builder.board.black_castling_rights.enable_all();
        builder.board.white_castling_rights.enable_all();
        builder
    }

    /// Takes all castling rights from both players.
    pub fn disable_castling(self) -> (builder: BoardBuilder)
        ensures
            self.wf() ==> builder.wf(),
            builder.board@ == (BoardView {
                white_castling_rights: CastlingRights { kingside: false, queenside: false },
                black_castling_rights: CastlingRights { kingside: false, queenside: false },
                ..self.board@
            }),
    {
        let mut builder = self;
        builder.board.black_castling_rights.disable_all();
        builder.board.white_castling_rights.disable_all();
        builder
    }

    /// Grants `color` the right to castle queenside.
    pub fn enable_queenside_castle(self, color: Color) -> (builder: BoardBuilder)
        ensures
            self.wf() ==> builder.wf(),
            builder.board@ == self.board@.with_castling_rights(
                color,
                CastlingRights { queenside: true, ..self.board@.castling_rights(color) },
            ),
    {
        let mut builder = self;
        match color {
            Color::White => builder.board.white_castling_rights.enable_queenside(),
            Color::Black => builder.board.black_castling_rights.enable_queenside(),
        }
        builder
    }

    /// Takes from `color` the right to castle queenside.
    pub fn disable_queenside_castle(self, color: Color) -> (builder: BoardBuilder)
        ensures
            self.wf() ==> builder.wf(),
            builder.board@ == self.board@.with_castling_rights(
                color,
                CastlingRights { queenside: false, ..self.board@.castling_rights(color) },
            ),
    {
        let mut builder = self;
        match color {
            Color::White => builder.board.white_castling_rights.disable_queenside(),
            Color::Black => builder.board.black_castling_rights.disable_queenside(),
        }
        builder
    }

    /// Grants `color` the right to castle kingside.
    pub fn enable_kingside_castle(self, color: Color) -> (builder: BoardBuilder)
        ensures
            self.wf() ==> builder.wf(),
            builder.board@ == self.board@.with_castling_rights(
                color,
                CastlingRights { kingside: true, ..self.board@.castling_rights(color) },
            ),
    {
        let mut builder = self;
        match color {
            Color::White => builder.board.white_castling_rights.enable_kingside(),
            Color::Black => builder.board.black_castling_rights.enable_kingside(),
        }
        builder
    }

    /// Takes from `color` the right to castle kingside.
    pub fn disable_kingside_castle(self, color: Color) -> (builder: BoardBuilder)
        ensures
            self.wf() ==> builder.wf(),
            builder.board@ == self.board@.with_castling_rights(
                color,
                CastlingRights { kingside: false, ..self.board@.castling_rights(color) },
            ),
    {
        let mut builder = self;
        match color {
            Color::White => builder.board.white_castling_rights.disable_kingside(),
            Color::Black => builder.board.black_castling_rights.disable_kingside(),
        }
        builder
    }

    /// Sets the player who moves first.
    pub fn player_moving(self, color: Color) -> (builder: BoardBuilder)
        ensures
            self.wf() ==> builder.wf(),
            builder.board@ == self.board@.set_turn(color),
    {
        let mut builder = self;
        builder.board = builder.board.set_turn(color);
        builder
    }

    /// The board as it has been set up.
    pub fn build(self) -> (board: Board)
        ensures
            board == self.board,
    {
        self.board
    }
}

} // verus!
