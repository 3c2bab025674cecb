//! The move generator and the rule of legality agree.

use vstd::prelude::*;
use crate::board::laws::lemma_pawn_candidate_index;
use crate::board::view::{square_index, square_position, BoardView};
use crate::piece::{
    all_squares, diagonal_square, free_square, king_steps, knight_jumps, legal_for, line_square,
    moves_to, rook_lines,
};
use crate::sequences::{lemma_add_contains, lemma_filter_contains};
use crate::{Color, Move, Piece, Position};

verus! {

/// The moves to a list of targets are the moves from `pos` to the targets
/// that pass, and no others.
proof fn lemma_moves_to_contains(
    pos: Position,
    targets: Seq<Position>,
    accepts: spec_fn(Position) -> bool,
    m: Move,
)
    ensures
        moves_to(pos, targets, accepts).contains(m) == (m matches Move::Piece(from, to) && from
            == pos && targets.contains(to) && accepts(to)),
{
    let kept = targets.filter(accepts);
    let moves = moves_to(pos, targets, accepts);
    if moves.contains(m) {
        let i = choose|i: int| 0 <= i < moves.len() && moves[i] == m;
        assert(m == Move::Piece(pos, kept[i]));
        assert(kept.contains(kept[i]));
        lemma_filter_contains(targets, accepts, kept[i]);
    }
    if let Move::Piece(from, to) = m {
        if from == pos && targets.contains(to) && accepts(to) {
            lemma_filter_contains(targets, accepts, to);
            let i = choose|i: int| 0 <= i < kept.len() && kept[i] == to;
            assert(moves[i] == m);
        }
    }
}

impl Piece {
    /// Every candidate move of a piece is a move of that piece: it starts on
    /// the square of the piece, or it is a castling move and the piece a
    /// king. To resign is no candidate.
    pub proof fn lemma_candidates_are_own_moves(&self, board: BoardView, m: Move)
        requires
            self.candidate_moves(board).contains(m),
        ensures
            m matches Move::Piece(from, _) ==> from == self.spec_get_pos(),
            m is KingSideCastle ==> *self is King && board.can_kingside_castle(
                self.spec_get_color(),
            ),
            m is QueenSideCastle ==> *self is King && board.can_queenside_castle(
                self.spec_get_color(),
            ),
            !(m is Resign),
    {
        let color = self.spec_get_color();
        let pos = self.spec_get_pos();
        match *self {
            Piece::Pawn(_, _) => {
                let candidates = Self::pawn_candidates(color, pos, board);
                let i = choose|i: int| 0 <= i < candidates.len() && candidates[i] == m;
                assert(candidates[i] matches Move::Piece(from, _) && from == pos);
            },
            Piece::King(_, _) => {
                let steps = moves_to(pos, king_steps(pos), free_square(board, color));
                let kingside: Seq<Move> = if board.can_kingside_castle(color) {
                    seq![Move::KingSideCastle]
                } else {
                    Seq::empty()
                };
                let queenside: Seq<Move> = if board.can_queenside_castle(color) {
                    seq![Move::QueenSideCastle]
                } else {
                    Seq::empty()
                };
                lemma_add_contains(steps + kingside, queenside, m);
                lemma_add_contains(steps, kingside, m);
                lemma_moves_to_contains(pos, king_steps(pos), free_square(board, color), m);
                if kingside.contains(m) {
                    let i = choose|i: int| 0 <= i < kingside.len() && kingside[i] == m;
                }
                if queenside.contains(m) {
                    let i = choose|i: int| 0 <= i < queenside.len() && queenside[i] == m;
                }
            },
            Piece::Queen(_, _) => {
                lemma_add_contains(
                    Self::bishop_candidates(color, pos, board),
                    Self::rook_candidates(color, pos, board),
                    m,
                );
                lemma_moves_to_contains(pos, all_squares(), diagonal_square(board, color, pos), m);
                lemma_moves_to_contains(pos, rook_lines(pos), line_square(board, color, pos), m);
            },
            Piece::Rook(_, _) => {
                lemma_moves_to_contains(pos, rook_lines(pos), line_square(board, color, pos), m);
            },
            Piece::Bishop(_, _) => {
                lemma_moves_to_contains(pos, all_squares(), diagonal_square(board, color, pos), m);
            },
            Piece::Knight(_, _) => {
                lemma_moves_to_contains(pos, knight_jumps(pos), free_square(board, color), m);
            },
        }
    }

    /// The generator misses no move: where a piece that stands on the board
    /// may go by its own way of moving, pawns counted with their en passant
    /// capture, there its candidate moves lead.
    pub proof fn lemma_candidates_are_complete(&self, board: BoardView, to: Position)
        requires
            board.wf(),
            self.spec_get_pos().spec_is_on_board(),
            board.get_piece(self.spec_get_pos()) == Some(*self),
            self.spec_is_legal_move(to, board) || (*self is Pawn && board.is_en_passant_capture(
                self.spec_get_color(),
                self.spec_get_pos(),
                to,
            )),
        ensures
            to.spec_is_on_board(),
            self.candidate_moves(board).contains(Move::Piece(self.spec_get_pos(), to)),
    {
        let color = self.spec_get_color();
        let pos = self.spec_get_pos();
        let m = Move::Piece(pos, to);
        match *self {
            Piece::Pawn(_, _) => {
                let up = pos.spec_pawn_up(color);
                if board.is_en_passant_capture(color, pos, to) {
                    lemma_pawn_candidate_index(board, color, pos, 0);
                } else if to == up.spec_pawn_up(color) {
                    lemma_pawn_candidate_index(board, color, pos, 1);
                } else if to == up {
                    lemma_pawn_candidate_index(board, color, pos, 2);
                } else if to == up.spec_next_left() {
                    lemma_pawn_candidate_index(board, color, pos, 3);
                } else {
                    lemma_pawn_candidate_index(board, color, pos, 4);
                }
            },
            Piece::King(_, _) => {
                let steps = king_steps(pos);
                assert(steps.contains(to)) by {
                    if to.row == pos.row && to.col == pos.col - 1 {
                        assert(steps[0] == to);
                    } else if to.row == pos.row && to.col == pos.col + 1 {
                        assert(steps[1] == to);
                    } else if to.row == pos.row + 1 && to.col == pos.col {
                        assert(steps[2] == to);
                    } else if to.row == pos.row - 1 && to.col == pos.col {
                        assert(steps[3] == to);
                    } else if to.row == pos.row + 1 && to.col == pos.col - 1 {
                        assert(steps[4] == to);
                    } else if to.row == pos.row - 1 && to.col == pos.col - 1 {
                        assert(steps[5] == to);
                    } else if to.row == pos.row + 1 && to.col == pos.col + 1 {
                        assert(steps[6] == to);
                    } else {
                        assert(steps[7] == to);
                    }
                }
                lemma_moves_to_contains(pos, steps, free_square(board, color), m);
                let moves = moves_to(pos, steps, free_square(board, color));
                let kingside: Seq<Move> = if board.can_kingside_castle(color) {
                    seq![Move::KingSideCastle]
                } else {
                    Seq::empty()
                };
                let queenside: Seq<Move> = if board.can_queenside_castle(color) {
                    seq![Move::QueenSideCastle]
                } else {
                    Seq::empty()
                };
                lemma_add_contains(moves, kingside, m);
                lemma_add_contains(moves + kingside, queenside, m);
            },
            Piece::Knight(_, _) => {
                let jumps = knight_jumps(pos);
                assert(jumps.contains(to)) by {
                    if to.row == pos.row + 1 && to.col == pos.col - 2 {
                        assert(jumps[0] == to);
                    } else if to.row == pos.row + 2 && to.col == pos.col - 1 {
                        assert(jumps[1] == to);
                    } else if to.row == pos.row - 1 && to.col == pos.col - 2 {
                        assert(jumps[2] == to);
                    } else if to.row == pos.row - 2 && to.col == pos.col - 1 {
                        assert(jumps[3] == to);
                    } else if to.row == pos.row + 1 && to.col == pos.col + 2 {
                        assert(jumps[4] == to);
                    } else if to.row == pos.row + 2 && to.col == pos.col + 1 {
                        assert(jumps[5] == to);
                    } else if to.row == pos.row - 1 && to.col == pos.col + 2 {
                        assert(jumps[6] == to);
                    } else {
                        assert(jumps[7] == to);
                    }
                }
                lemma_moves_to_contains(pos, jumps, free_square(board, color), m);
            },
            Piece::Rook(_, _) => {
                Self::lemma_rook_candidates_are_complete(color, pos, board, to);
            },
            Piece::Bishop(_, _) => {
                Self::lemma_bishop_candidates_are_complete(color, pos, board, to);
            },
            Piece::Queen(_, _) => {
                if Self::spec_is_legal_rook_move(pos, to, board) {
                    Self::lemma_rook_candidates_are_complete(color, pos, board, to);
                } else {
                    Self::lemma_bishop_candidates_are_complete(color, pos, board, to);
                }
                lemma_add_contains(
                    Self::bishop_candidates(color, pos, board),
                    Self::rook_candidates(color, pos, board),
                    m,
                );
            },
        }
    }

    /// The candidate moves of a rook lead to every other square of its row
    /// and of its column that holds no piece of its color.
    proof fn lemma_rook_candidates_are_complete(
        color: Color,
        pos: Position,
        board: BoardView,
        to: Position,
    )
        requires
            pos.spec_is_on_board(),
            to.spec_is_on_board(),
            to != pos,
            !board.has_ally_piece(to, color),
            pos.spec_is_orthogonal_to(to),
        ensures
            Self::rook_candidates(color, pos, board).contains(Move::Piece(pos, to)),
    {
        let lines = rook_lines(pos);
        if to.col == pos.col {
            assert(lines[to.row as int] == to);
        } else {
            assert(lines[8 + to.col] == to);
        }
        lemma_moves_to_contains(pos, lines, line_square(board, color, pos), Move::Piece(pos, to));
    }

    /// The candidate moves of a bishop lead to every other square of its
    /// diagonals that holds no piece of its color.
    proof fn lemma_bishop_candidates_are_complete(
        color: Color,
        pos: Position,
        board: BoardView,
        to: Position,
    )
        requires
            pos.spec_is_on_board(),
            to.spec_is_on_board(),
            to != pos,
            !board.has_ally_piece(to, color),
            pos.spec_is_diagonal_to(to),
        ensures
            Self::bishop_candidates(color, pos, board).contains(Move::Piece(pos, to)),
    {
        let squares = all_squares();
        assert(squares[to.row * 8 + to.col] == to);
        lemma_moves_to_contains(
            pos,
            squares,
            diagonal_square(board, color, pos),
            Move::Piece(pos, to),
        );
    }
}

impl BoardView {
    /// The legal moves of the pieces on the first `n` squares are those of
    /// each of these pieces.
    proof fn lemma_legal_moves_among(self, color: Color, n: int, m: Move)
        requires
            0 <= n <= 64,
        ensures
            self.legal_moves_among(color, n).contains(m) == exists|i: int|
                0 <= i < n && #[trigger] self.legal_moves_at(color, i).contains(m),
        decreases n,
    {
        if n > 0 {
            self.lemma_legal_moves_among(color, n - 1, m);
            lemma_add_contains(
                self.legal_moves_among(color, n - 1),
                self.legal_moves_at(color, n - 1),
                m,
            );
            if self.legal_moves_among(color, n).contains(m) {
                if self.legal_moves_at(color, n - 1).contains(m) {
                    assert(0 <= n - 1 < n && self.legal_moves_at(color, n - 1).contains(m));
                } else {
                    let i = choose|i: int|
                        0 <= i < n - 1 && #[trigger] self.legal_moves_at(color, i).contains(m);
                    assert(0 <= i < n && self.legal_moves_at(color, i).contains(m));
                }
            }
        } else {
            assert(!self.legal_moves_among(color, n).contains(m)) by {
                assert(self.legal_moves_among(color, n).len() == 0);
            }
        }
    }

    /// The legal moves of the piece on a square are its candidate moves that
    /// stay on the board and are legal.
    proof fn lemma_legal_moves_at(self, color: Color, index: int, m: Move)
        requires
            0 <= index < 64,
        ensures
            self.legal_moves_at(color, index).contains(m) == (self.squares[index] matches Some(
                piece,
            ) && piece.spec_get_color() == color && piece.candidate_moves(self).contains(m)
                && self.keeps_move(m, color)),
    {
        match self.squares[index] {
            Some(piece) => {
                if piece.spec_get_color() == color {
                    lemma_filter_contains(piece.candidate_moves(self), legal_for(self, color), m);
                } else {
                    assert(self.legal_moves_at(color, index).len() == 0);
                }
            },
            None => {
                assert(self.legal_moves_at(color, index).len() == 0);
            },
        }
    }

    /// What a legal move of a piece consists of: both squares are on the
    /// board, a piece of the mover stands on the first, and it may go to the
    /// second by its own way of moving, a pawn also by capturing en passant.
    proof fn lemma_legal_move_of_a_piece(self, color: Color, from: Position, to: Position)
        requires
            self.wf(),
            self.is_legal_move(Move::Piece(from, to), color),
        ensures
            from.spec_is_on_board(),
            to.spec_is_on_board(),
            self.squares[square_index(from)] matches Some(piece) && piece.spec_get_color() == color
                && piece.spec_get_pos() == from && (piece.spec_is_legal_move(to, self) || (
            piece is Pawn && self.is_en_passant_capture(color, from, to))),
    {
        let piece = self.get_piece(from)->0;
        assert(self.squares[square_index(from)] == Some(piece));
        assert(square_position(square_index(from)) == from);
    }

    /// The move generator and the rule of legality agree on the moves of
    /// pieces: the legal moves of `color` hold the move from one square to
    /// another exactly if that move is legal for `color`.
    pub proof fn lemma_generated_moves_are_the_legal_moves(
        self,
        color: Color,
        from: Position,
        to: Position,
    )
        requires
            self.wf(),
        ensures
            self.get_legal_moves(color).contains(Move::Piece(from, to)) == self.is_legal_move(
                Move::Piece(from, to),
                color,
            ),
    {
        let m = Move::Piece(from, to);
        self.lemma_legal_moves_among(color, 64, m);
        if self.legal_moves_among(color, 64).contains(m) {
            let i = choose|i: int|
                0 <= i < 64 && #[trigger] self.legal_moves_at(color, i).contains(m);
            self.lemma_legal_moves_at(color, i, m);
            assert(self.keeps_move(m, color));
        }
        if self.is_legal_move(m, color) {
            self.lemma_legal_move_of_a_piece(color, from, to);
            let i = square_index(from);
            let piece = self.squares[i]->0;
            piece.lemma_candidates_are_complete(self, to);
            self.lemma_legal_moves_at(color, i, m);
            assert(self.keeps_move(m, color));
            assert(self.legal_moves_at(color, i).contains(m));
        }
    }

    /// Whether a king of `color` stands on the board.
    pub open spec fn has_king(self, color: Color) -> bool {
        exists|i: int|
            0 <= i < 64 && (#[trigger] self.squares[i] matches Some(Piece::King(c, _)) && c
                == color)
    }

    /// The move generator and the rule of legality agree on castling as far
    /// as there is a king to castle: the legal moves of `color` hold a
    /// castling move exactly if it is legal for `color` and a king of
    /// `color` stands on the board. To resign is legal and never among the
    /// moves.
    pub proof fn lemma_generated_castling_is_legal_castling(self, color: Color, m: Move)
        requires
            self.wf(),
            !(m is Piece),
        ensures
            self.get_legal_moves(color).contains(m) == (!(m is Resign) && self.is_legal_move(
                m,
                color,
            ) && self.has_king(color)),
    {
        self.lemma_legal_moves_among(color, 64, m);
        if self.legal_moves_among(color, 64).contains(m) {
            let i = choose|i: int|
                0 <= i < 64 && #[trigger] self.legal_moves_at(color, i).contains(m);
            self.lemma_legal_moves_at(color, i, m);
            let piece = self.squares[i]->0;
            piece.lemma_candidates_are_own_moves(self, m);
            assert(self.squares[i] matches Some(Piece::King(c, _)) && c == color);
        }
        if !(m is Resign) && self.is_legal_move(m, color) && self.has_king(color) {
            let i = choose|i: int|
                0 <= i < 64 && (#[trigger] self.squares[i] matches Some(Piece::King(c, _)) && c
                    == color);
            let king = self.squares[i]->0;
            let pos = king.spec_get_pos();
            let steps = moves_to(pos, king_steps(pos), free_square(self, color));
            let kingside: Seq<Move> = if self.can_kingside_castle(color) {
                seq![Move::KingSideCastle]
            } else {
                Seq::empty()
            };
            let queenside: Seq<Move> = if self.can_queenside_castle(color) {
                seq![Move::QueenSideCastle]
            } else {
                Seq::empty()
            };
            lemma_add_contains(steps + kingside, queenside, m);
            lemma_add_contains(steps, kingside, m);
            if m is KingSideCastle {
                assert(kingside[0] == m);
            } else {
                assert(queenside[0] == m);
            }
            assert(king.candidate_moves(self).contains(m));
            self.lemma_legal_moves_at(color, i, m);
            assert(self.legal_moves_at(color, i).contains(m));
        }
    }

    /// The legal moves of a player are the moves that are legal for it, but
    /// for resigning, and for castling where the player has no king: the
    /// move generator lists the move of a piece exactly if the rule of
    /// legality approves it, and a castling exactly if the rule approves it
    /// and a king of the player stands on the board.
    pub proof fn lemma_generated_moves_are_legal(self, color: Color, m: Move)
        requires
            self.wf(),
        ensures
            self.get_legal_moves(color).contains(m) == (!(m is Resign) && self.is_legal_move(
                m,
                color,
            ) && (m is Piece || self.has_king(color))),
    {
        match m {
            Move::Piece(from, to) => {
                self.lemma_generated_moves_are_the_legal_moves(color, from, to);
            },
            _ => {
                self.lemma_generated_castling_is_legal_castling(color, m);
            },
        }
    }

    /// What holds of every move among the legal moves of `color`: it is
    /// legal for `color` and is not to resign; if it moves a piece, it moves
    /// a piece of `color` from a square of the board to a square of the
    /// board and does not leave the king of `color` in check; and if `color`
    /// is the player to move and its king stands on its starting square, no
    /// move among them leaves its king in check, castling included.
    pub proof fn lemma_listed_move(self, color: Color, m: Move)
        requires
            self.wf(),
            self.get_legal_moves(color).contains(m),
        ensures
            self.is_legal_move(m, color),
            !(m is Resign),
            m matches Move::Piece(from, to) ==> from.spec_is_on_board() && to.spec_is_on_board()
                && self.has_ally_piece(from, color),
            m is Piece || (color == self.turn && self.king_at_start(color))
                ==> !self.apply_move(m).is_in_check(color),
    {
        self.lemma_generated_moves_are_legal(color, m);
        if let Move::Piece(from, to) = m {
            self.lemma_legal_move_of_a_piece(color, from, to);
        } else if color == self.turn && self.king_at_start(color) {
            self.lemma_legal_move_is_safe(m);
        }
    }
}

} // verus!
