//! The mathematical model of a board, and the rules of chess stated on it.
//!
//! Every contract of [`Board`](super::Board) speaks of this model: the 64
//! squares as a sequence, rank 8 first, and the rest of the state as plain
//! values.

use vstd::prelude::*;
use vstd::math::abs;
use crate::board::types::{MoveOutcome, Promotion};
use crate::{CastlingRights, Color, Move, Piece, Position};

verus! {

/// The index of an on-board position in the sequence of squares: rank 8
/// comes first, and within a rank file `a`.
pub open spec fn square_index(pos: Position) -> int {
    (7 - pos.row) * 8 + pos.col
}

/// The position of the square at `index`.
pub open spec fn square_position(index: int) -> Position {
    Position { row: (7 - index / 8) as i32, col: (index % 8) as i32 }
}

/// A board as a mathematical value.
pub struct BoardView {
    /// What stands on each of the 64 squares.
    pub squares: Seq<Option<Piece>>,
    /// The square onto which a pawn may capture en passant, if the move
    /// before was a double push.
    pub en_passant: Option<Position>,
    /// The piece that the move before captured.
    pub taken_piece: Option<Piece>,
    /// The square of a pawn that has to be promoted before play goes on.
    pub promotion: Option<Position>,
    pub white_castling_rights: CastlingRights,
    pub black_castling_rights: CastlingRights,
    /// The player to move.
    pub turn: Color,
}

impl BoardView {
    /// What makes a board valid: it has 64 squares, each piece knows the
    /// square it stands on, and the en passant and promotion squares, where
    /// there are any, are squares of the board.
    pub open spec fn wf(self) -> bool {
        &&& self.squares.len() == 64
        &&& forall|i: int|
            0 <= i < 64 ==> (#[trigger] self.squares[i] matches Some(piece)
                ==> piece.spec_get_pos() == square_position(i))
        &&& self.en_passant matches Some(pos) ==> pos.spec_is_on_board()
        &&& self.promotion matches Some(pos) ==> pos.spec_is_on_board()
    }

    /// The piece at `pos`; none off the board.
    pub open spec fn get_piece(self, pos: Position) -> Option<Piece> {
        if pos.spec_is_off_board() {
            None
        } else {
            self.squares[square_index(pos)]
        }
    }

    /// Whether a piece of `ally_color` stands at `pos`.
    pub open spec fn has_ally_piece(self, pos: Position, ally_color: Color) -> bool {
        self.get_piece(pos) matches Some(piece) && piece.spec_get_color() == ally_color
    }

    /// Whether a piece of the other color than `ally_color` stands at `pos`.
    pub open spec fn has_enemy_piece(self, pos: Position, ally_color: Color) -> bool {
        self.get_piece(pos) matches Some(piece) && piece.spec_get_color()
            == ally_color.spec_opposite()
    }

    /// Whether any piece stands at `pos`.
    pub open spec fn has_piece(self, pos: Position) -> bool {
        self.get_piece(pos) is Some
    }

    /// Whether no piece stands at `pos`, which holds off the board.
    pub open spec fn has_no_piece(self, pos: Position) -> bool {
        self.get_piece(pos) is None
    }

    /// The castling rights of `color`.
    pub open spec fn castling_rights(self, color: Color) -> CastlingRights {
        match color {
            Color::White => self.white_castling_rights,
            Color::Black => self.black_castling_rights,
        }
    }

    /// The square of the king of `color` that comes last among the first
    /// `n` squares.
    pub open spec fn king_pos_among(self, color: Color, n: int) -> Option<Position>
        decreases n,
    {
        if n <= 0 {
            None
        } else {
            match self.squares[n - 1] {
                Some(Piece::King(c, pos)) if c == color => Some(pos),
                _ => self.king_pos_among(color, n - 1),
            }
        }
    }

    /// The square of the king of `color`. Where a board holds several, it is
    /// the one that comes last in the sequence of squares.
    pub open spec fn get_king_pos(self, color: Color) -> Option<Position> {
        self.king_pos_among(color, 64)
    }

    /// What the square at `index` adds to the material balance of `color`:
    /// the material value of its piece, negative for the other color.
    pub open spec fn material_at(self, color: Color, index: int) -> int {
        match self.squares[index] {
            Some(piece) => if piece.spec_get_color() == color {
                piece.spec_get_material_value() as int
            } else {
                -(piece.spec_get_material_value() as int)
            },
            None => 0,
        }
    }

    /// The material balance of `color` over the first `n` squares.
    pub open spec fn material_among(self, color: Color, n: int) -> int
        decreases n,
    {
        if n <= 0 {
            0
        } else {
            self.material_among(color, n - 1) + self.material_at(color, n - 1)
        }
    }

    /// The material of `color` minus that of the other color, in points.
    pub open spec fn get_material_advantage(self, color: Color) -> int {
        self.material_among(color, 64)
    }

    /// What the square at `index` adds to the weighted balance of `color`.
    pub open spec fn value_at(self, color: Color, index: int) -> int {
        match self.squares[index] {
            Some(piece) => if piece.spec_get_color() == color {
                piece.spec_get_weighted_value()
            } else {
                -piece.spec_get_weighted_value()
            },
            None => 0,
        }
    }

    /// The weighted balance of `color` over the first `n` squares.
    pub open spec fn value_among(self, color: Color, n: int) -> int
        decreases n,
    {
        if n <= 0 {
            0
        } else {
            self.value_among(color, n - 1) + self.value_at(color, n - 1)
        }
    }

    /// The weighted values of the pieces of `color` minus those of the other
    /// color, in half points.
    pub open spec fn get_player_value(self, color: Color) -> int {
        self.value_among(color, 64)
    }

    /// The pieces of `color`, in the order of their squares.
    pub open spec fn get_player_pieces(self, color: Color) -> Seq<Piece> {
        self.squares.filter(
            |square: Option<Piece>| square matches Some(piece) && piece.spec_get_color() == color,
        ).map_values(|square: Option<Piece>| square->0)
    }
}

impl BoardView {
    /// Whether the piece on the square at `index` is of the other color than
    /// `ally_color` and attacks `pos`.
    pub open spec fn attacks_from(self, index: int, pos: Position, ally_color: Color) -> bool {
        self.squares[index] matches Some(piece) && piece.spec_get_color() != ally_color
            && piece.spec_is_legal_attack(pos, self)
    }

    /// Whether a piece of the other color than `ally_color` attacks `pos`.
    pub open spec fn is_threatened(self, pos: Position, ally_color: Color) -> bool {
        exists|index: int| 0 <= index < 64 && #[trigger] self.attacks_from(index, pos, ally_color)
    }

    /// Whether the king of `color` stands on a threatened square. A player
    /// without a king is never in check.
    pub open spec fn is_in_check(self, color: Color) -> bool {
        self.get_king_pos(color) matches Some(king_pos) && self.is_threatened(king_pos, color)
    }

    /// The back rank of `color`: row 0 for White, row 7 for Black.
    pub open spec fn back_row(color: Color) -> i32 {
        match color {
            Color::White => 0,
            Color::Black => 7,
        }
    }

    /// Whether the king of `color` stands where it starts: the king that the
    /// board finds for `color` stands on the `e` file of its back rank.
    pub open spec fn king_at_start(self, color: Color) -> bool {
        self.get_king_pos(color) == Some(Position::spec_king_pos(color))
    }

    /// Whether `color` may castle kingside: the squares of the `f` and the
    /// `g` file of its back rank are free, its rook stands on the square of
    /// the `h` file, the right is held, the king is not in check, and
    /// neither of the two free squares is threatened: the one that a king
    /// from its starting square passes, and the one on which it lands.
    /// Where the king stands is not asked.
    pub open spec fn can_kingside_castle(self, color: Color) -> bool {
        let row = Self::back_row(color);
        &&& self.has_no_piece(Position { row, col: 5 })
        &&& self.has_no_piece(Position { row, col: 6 })
        &&& self.get_piece(Position { row, col: 7 }) == Some(
            Piece::Rook(color, Position { row, col: 7 }),
        )
        &&& self.castling_rights(color).kingside
        &&& !self.is_in_check(color)
        &&& !self.is_threatened(Position { row, col: 5 }, color)
        &&& !self.is_threatened(Position { row, col: 6 }, color)
    }

    /// Whether `color` may castle queenside: the squares of the `b`, the `c`
    /// and the `d` file of its back rank are free, its rook stands on the
    /// square of the `a` file, the right is held, the king is not in check,
    /// and neither the square of the `d` file, which a king from its
    /// starting square passes, nor that of the `c` file, on which it lands,
    /// is threatened. Where the king stands is not asked.
    pub open spec fn can_queenside_castle(self, color: Color) -> bool {
        let row = Self::back_row(color);
        &&& self.has_no_piece(Position { row, col: 1 })
        &&& self.has_no_piece(Position { row, col: 2 })
        &&& self.has_no_piece(Position { row, col: 3 })
        &&& self.get_piece(Position { row, col: 0 }) == Some(
            Piece::Rook(color, Position { row, col: 0 }),
        )
        &&& self.castling_rights(color).queenside
        &&& !self.is_in_check(color)
        &&& !self.is_threatened(Position { row, col: 3 }, color)
        &&& !self.is_threatened(Position { row, col: 2 }, color)
    }

    /// The board with `piece` (or nothing) on the square at `pos`.
    pub open spec fn with_square(self, pos: Position, piece: Option<Piece>) -> BoardView {
        BoardView { squares: self.squares.update(square_index(pos), piece), ..self }
    }

    /// The board with the castling rights of `color` replaced.
    pub open spec fn with_castling_rights(self, color: Color, rights: CastlingRights) -> BoardView {
        match color {
            Color::White => BoardView { white_castling_rights: rights, ..self },
            Color::Black => BoardView { black_castling_rights: rights, ..self },
        }
    }

    /// The castling rights that are left of `rights` once `piece` has moved:
    /// none after a king, not that of its side after a rook that stood on
    /// its starting square.
    pub open spec fn rights_after(rights: CastlingRights, piece: Piece) -> CastlingRights {
        if piece is King {
            CastlingRights { kingside: false, queenside: false }
        } else if piece.spec_is_queenside_rook() {
            CastlingRights { queenside: false, ..rights }
        } else if piece.spec_is_kingside_rook() {
            CastlingRights { kingside: false, ..rights }
        } else {
            rights
        }
    }

    /// The board after the piece at `from` has been put on `to`, whatever
    /// the rules say of such a move.
    ///
    /// The en passant square and the captured piece of the move before are
    /// forgotten. If a position is off the board or `from` is empty, nothing
    /// else changes. Otherwise the piece leaves `from` and replaces whatever
    /// stood on `to`. A pawn that leaves its starting rank by two rows
    /// leaves the square behind it as the en passant square. A piece on `to`
    /// of the color that is not to move is recorded as captured. A king that
    /// moves gives up the castling rights of its color, a rook that leaves
    /// its starting square the right of its side.
    pub open spec fn move_piece(self, from: Position, to: Position) -> BoardView {
        let cleared = BoardView { en_passant: None, taken_piece: None, ..self };
        if from.spec_is_off_board() || to.spec_is_off_board() {
            cleared
        } else {
            match self.get_piece(from) {
                None => cleared,
                Some(piece) => {
                    let lifted = cleared.with_square(from, None);
                    let color = piece.spec_get_color();
                    BoardView {
                        en_passant: if piece.spec_is_starting_pawn() && abs(from.row - to.row)
                            == 2 {
                            Some(to.spec_pawn_back(color))
                        } else {
                            None
                        },
                        taken_piece: if lifted.has_enemy_piece(to, self.turn) {
                            lifted.get_piece(to)
                        } else {
                            None
                        },
                        ..lifted.with_square(to, Some(piece.spec_move_to(to))).with_castling_rights(
                            color,
                            Self::rights_after(self.castling_rights(color), piece),
                        )
                    }
                },
            }
        }
    }

    /// Whether a pawn of `color` on `from` would capture en passant by
    /// moving to `to`: `to` is the en passant square and lies diagonally
    /// forward of `from`.
    pub open spec fn is_en_passant_capture(
        self,
        color: Color,
        from: Position,
        to: Position,
    ) -> bool {
        self.en_passant matches Some(en_passant) && (en_passant == from.spec_pawn_up(
            color,
        ).spec_next_left() || en_passant == from.spec_pawn_up(color).spec_next_right())
            && en_passant == to
    }

    /// The board after the piece at `from` has moved to `to`. A pawn that
    /// captures en passant also removes the pawn that passed it, which
    /// stands beside `from`, behind `to`.
    pub open spec fn apply_piece_move(self, from: Position, to: Position) -> BoardView {
        let moved = self.move_piece(from, to);
        match self.get_piece(from) {
            Some(Piece::Pawn(color, _)) if self.is_en_passant_capture(color, from, to) =>
                moved.with_square(to.spec_pawn_back(color), None),
            _ => moved,
        }
    }

    /// The board after the player to move has castled kingside: the king
    /// goes to the `g` file of the back rank, what stands on the `h` file
    /// of the back rank to the square on the right of where the king stood.
    /// Where castling is legal that is the rook, which lands on the `f`
    /// file if the king stood on its starting square. Without a king
    /// nothing changes.
    pub open spec fn apply_kingside_castle(self) -> BoardView {
        match self.get_king_pos(self.turn) {
            Some(king_pos) => {
                let rook_pos = Position { row: Self::back_row(self.turn), col: 7 };
                self.move_piece(king_pos, rook_pos.spec_next_left()).move_piece(
                    rook_pos,
                    king_pos.spec_next_right(),
                )
            },
            None => self,
        }
    }

    /// The board after the player to move has castled queenside: the king
    /// goes two squares to the left, what stands on the `a` file of the
    /// back rank to the square on the left of where the king stood. Where
    /// castling is legal and the king stood on its starting square, the
    /// king lands on the `c` file and the rook on the `d` file. Without a
    /// king nothing changes.
    pub open spec fn apply_queenside_castle(self) -> BoardView {
        match self.get_king_pos(self.turn) {
            Some(king_pos) => {
                let rook_pos = Position { row: Self::back_row(self.turn), col: 0 };
                self.move_piece(king_pos, king_pos.spec_next_left().spec_next_left()).move_piece(
                    rook_pos,
                    king_pos.spec_next_left(),
                )
            },
            None => self,
        }
    }

    /// The board after `m`, which is not asked to be legal. To resign
    /// changes nothing.
    pub open spec fn apply_move(self, m: Move) -> BoardView {
        match m {
            Move::KingSideCastle => self.apply_kingside_castle(),
            Move::QueenSideCastle => self.apply_queenside_castle(),
            Move::Piece(from, to) => self.apply_piece_move(from, to),
            Move::Resign => self,
        }
    }

    /// Whether `player_color` may play `m`.
    ///
    /// To resign is always legal. To castle is legal where the conditions of
    /// castling hold for `player_color`. A piece may move where it has a
    /// piece of
    /// `player_color` on `from`, the move is one that its kind allows on
    /// this board (for a pawn, an en passant capture counts), and the king
    /// of `player_color` is not in check on the board after the move.
    pub open spec fn is_legal_move(self, m: Move, player_color: Color) -> bool {
        match m {
            Move::KingSideCastle => self.can_kingside_castle(player_color),
            Move::QueenSideCastle => self.can_queenside_castle(player_color),
            Move::Piece(from, to) => match self.get_piece(from) {
                Some(piece) => {
                    &&& piece.spec_get_color() == player_color
                    &&& piece.spec_is_legal_move(to, self) || (piece is Pawn
                        && self.is_en_passant_capture(player_color, from, to))
                    &&& !self.apply_move(m).is_in_check(player_color)
                },
                None => false,
            },
            Move::Resign => true,
        }
    }

    /// Whether a candidate move of a piece of `color` counts among its legal
    /// moves: it is legal, and if it moves a piece, from a square of the
    /// board to a square of the board.
    pub open spec fn keeps_move(self, m: Move, color: Color) -> bool {
        match m {
            Move::Piece(from, to) => from.spec_is_on_board() && to.spec_is_on_board()
                && self.is_legal_move(m, color),
            _ => self.is_legal_move(m, color),
        }
    }

    /// The legal moves of the piece on the square at `index`, if it is of
    /// `color`.
    pub open spec fn legal_moves_at(self, color: Color, index: int) -> Seq<Move> {
        match self.squares[index] {
            Some(piece) if piece.spec_get_color() == color => piece.spec_get_legal_moves(self),
            _ => Seq::empty(),
        }
    }

    /// The legal moves of the pieces of `color` on the first `n` squares.
    pub open spec fn legal_moves_among(self, color: Color, n: int) -> Seq<Move>
        decreases n,
    {
        if n <= 0 {
            Seq::empty()
        } else {
            self.legal_moves_among(color, n - 1) + self.legal_moves_at(color, n - 1)
        }
    }

    /// The legal moves of `color`: those of each of its pieces, the pieces
    /// taken in the order of their squares.
    pub open spec fn get_legal_moves(self, color: Color) -> Seq<Move> {
        self.legal_moves_among(color, 64)
    }

    /// The legal moves of the piece at `pos`; none where no piece stands.
    pub open spec fn get_piece_legal_moves(self, pos: Position) -> Seq<Move> {
        match self.get_piece(pos) {
            Some(piece) => piece.spec_get_legal_moves(self),
            None => Seq::empty(),
        }
    }
}

impl BoardView {
    /// On a valid board the king's square that `king_pos_among` finds is a
    /// square of the board, among the first `n`, and holds a king of
    /// `color`; and where it finds none, none of the first `n` squares holds
    /// such a king.
    pub proof fn lemma_king_pos_among(self, color: Color, n: int)
        requires
            self.wf(),
            0 <= n <= 64,
        ensures
            self.king_pos_among(color, n) matches Some(pos) ==> pos.spec_is_on_board()
                && 0 <= square_index(pos) < n && self.squares[square_index(pos)] == Some(
                Piece::King(color, pos),
            ) && forall|j: int|
                square_index(pos) < j < n ==> !(#[trigger] self.squares[j] matches Some(
                    Piece::King(c, _),
                ) && c == color),
            self.king_pos_among(color, n) is None ==> forall|j: int|
                0 <= j < n ==> !(#[trigger] self.squares[j] matches Some(Piece::King(c, _)) && c
                    == color),
        decreases n,
    {
        if n > 0 {
            self.lemma_king_pos_among(color, n - 1);
            match self.squares[n - 1] {
                Some(Piece::King(c, pos)) if c == color => {
                    assert(pos == square_position(n - 1));
                },
                _ => {},
            }
        }
    }
}

/// Whether a piece is a king.
pub open spec fn king_kind() -> spec_fn(Piece) -> bool {
    |piece: Piece| piece is King
}

/// Whether a piece is a knight.
pub open spec fn knight_kind() -> spec_fn(Piece) -> bool {
    |piece: Piece| piece is Knight
}

/// Whether a piece is a bishop.
pub open spec fn bishop_kind() -> spec_fn(Piece) -> bool {
    |piece: Piece| piece is Bishop
}

/// Whether a piece is one that can mate with its king alone: a queen, a
/// rook, or a pawn, which may become one.
pub open spec fn mating_kind() -> spec_fn(Piece) -> bool {
    |piece: Piece| piece is Queen || piece is Rook || piece is Pawn
}

impl BoardView {
    /// How many pieces of `color` that pass `kind` stand on the first `n`
    /// squares.
    pub open spec fn count_among(self, color: Color, kind: spec_fn(Piece) -> bool, n: int) -> nat
        decreases n,
    {
        if n <= 0 {
            0
        } else {
            self.count_among(color, kind, n - 1) + (if self.squares[n - 1] matches Some(piece)
                && piece.spec_get_color() == color && kind(piece) {
                1nat
            } else {
                0nat
            })
        }
    }

    /// How many pieces of `color` that pass `kind` stand on the board.
    pub open spec fn count(self, color: Color, kind: spec_fn(Piece) -> bool) -> nat {
        self.count_among(color, kind, 64)
    }

    /// Whether `color` has the material to mate. It has not with exactly one
    /// of these: a king alone; a king and a knight; a king and a bishop; a
    /// king and two knights; a king and two bishops. With anything else it
    /// has.
    pub open spec fn has_sufficient_material(self, color: Color) -> bool {
        !self.has_insufficient_material(color)
    }

    /// Whether `color` lacks the material to mate: it has one king, no
    /// queen, rook or pawn, and beside the king at most two knights and no
    /// bishop, or at most two bishops and no knight.
    pub open spec fn has_insufficient_material(self, color: Color) -> bool {
        &&& self.count(color, king_kind()) == 1
        &&& self.count(color, mating_kind()) == 0
        &&& (self.count(color, bishop_kind()) == 0 && self.count(color, knight_kind()) <= 2)
            || (self.count(color, knight_kind()) == 0 && self.count(color, bishop_kind()) <= 2)
    }

    /// Whether the player to move is stalemated: without a legal move and
    /// not in check; or neither player has the material to mate.
    pub open spec fn is_stalemate(self) -> bool {
        (self.get_legal_moves(self.turn).len() == 0 && !self.is_in_check(self.turn)) || (
        self.has_insufficient_material(self.turn) && self.has_insufficient_material(
            self.turn.spec_opposite(),
        ))
    }

    /// Whether the player to move is checkmated: in check and without a
    /// legal move.
    pub open spec fn is_checkmate(self) -> bool {
        self.is_in_check(self.turn) && self.get_legal_moves(self.turn).len() == 0
    }

    /// The board with `color` to move.
    pub open spec fn set_turn(self, color: Color) -> BoardView {
        BoardView { turn: color, ..self }
    }

    /// The board with the other player to move.
    pub open spec fn change_turn(self) -> BoardView {
        BoardView { turn: self.turn.spec_opposite(), ..self }
    }

    /// The board without the pieces of `color`.
    pub open spec fn remove_all(self, color: Color) -> BoardView {
        BoardView {
            squares: Seq::new(
                64,
                |i: int|
                    if self.squares[i] matches Some(piece) && piece.spec_get_color() == color {
                        None
                    } else {
                        self.squares[i]
                    },
            ),
            ..self
        }
    }

    /// The board with each piece of `color` but the king turned into a queen.
    pub open spec fn queen_all(self, color: Color) -> BoardView {
        BoardView {
            squares: Seq::new(
                64,
                |i: int|
                    if self.squares[i] matches Some(piece) && !(piece is King)
                        && piece.spec_get_color() == color {
                        Some(Piece::Queen(color, self.squares[i]->0.spec_get_pos()))
                    } else {
                        self.squares[i]
                    },
            ),
            ..self
        }
    }

    /// The square of the pawn of the player to move that stands on its last
    /// rank and comes last among the first `n` squares.
    pub open spec fn promoting_pawn_among(self, n: int) -> Option<Position>
        decreases n,
    {
        if n <= 0 {
            None
        } else {
            match self.squares[n - 1] {
                Some(piece) if piece.spec_is_promoting_pawn() && piece.spec_get_color()
                    == self.turn => Some(piece.spec_get_pos()),
                _ => self.promoting_pawn_among(n - 1),
            }
        }
    }

    /// The board with its promotion square set to where a pawn of the player
    /// to move stands on its last rank, and to none where no pawn does.
    pub open spec fn check_available_pawn_promotion(self) -> BoardView {
        BoardView { promotion: self.promoting_pawn_among(64), ..self }
    }

    /// What comes of the player to move playing `m` on a board without a
    /// pending promotion.
    ///
    /// To resign gives the other player the victory. An illegal move is
    /// handed back. A legal move is played; then, on the board after it with
    /// the other player to move: checkmate gives the mover the victory, and
    /// stalemate a draw. Else, if the move has put a pawn of the mover on
    /// its last rank, the board is handed back with the mover still to move
    /// and the pawn's square; else with the other player to move.
    pub open spec fn play_move(self, m: Move) -> MoveOutcome {
        if m == Move::Resign {
            MoveOutcome::Victory(self.turn.spec_opposite())
        } else if self.is_legal_move(m, self.turn) {
            let next = self.apply_move(m);
            if next.change_turn().is_checkmate() {
                MoveOutcome::Victory(self.turn)
            } else if next.change_turn().is_stalemate() {
                MoveOutcome::Stalemate
            } else {
                let checked = next.check_available_pawn_promotion();
                match checked.promotion {
                    Some(pos) => MoveOutcome::Promote(checked, pos),
                    None => MoveOutcome::Continuing(checked.change_turn()),
                }
            }
        } else {
            MoveOutcome::IllegalMove(m)
        }
    }

    /// The piece of `color` on `pos` that a promotion to `promotion` makes.
    pub open spec fn promoted_piece(promotion: Promotion, color: Color, pos: Position) -> Piece {
        match promotion {
            Promotion::Bishop => Piece::Bishop(color, pos),
            Promotion::Knight => Piece::Knight(color, pos),
            Promotion::Queen => Piece::Queen(color, pos),
            Promotion::Rook => Piece::Rook(color, pos),
        }
    }

    /// The board after the pending promotion: the chosen piece of the player
    /// to move stands on the promotion square, no promotion is pending and
    /// the other player is to move.
    pub open spec fn promote(self, promotion: Promotion) -> BoardView {
        let pos = self.promotion->0;
        BoardView { promotion: None, ..self }.with_square(
            pos,
            Some(Self::promoted_piece(promotion, self.turn, pos)),
        ).change_turn()
    }
}

} // verus!
