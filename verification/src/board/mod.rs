//! The board and the rules of play on it.

pub mod builder;
pub mod castling_rights;
pub mod check_laws;
pub mod generator_laws;
pub mod laws;
pub mod search;
pub mod search_laws;
pub mod types;
pub mod variants;
pub mod view;

use vstd::prelude::*;
use crate::{Color, Move, Piece, Position, Square};
use crate::sequences::{lemma_filter_take_next, lemma_take_all};
use castling_rights::CastlingRights;
use types::{MoveResult, Promotion};
use view::{
    bishop_kind, king_kind, knight_kind, mating_kind, square_index, square_position, BoardView,
};

verus! {

/// A chess board with everything a position consists of.
///
/// A board is a plain value: what changes it returns a new board.
#[derive(Clone, Copy, Debug, PartialEq, Eq, PartialOrd, Ord)]
pub struct Board {
    /// The 64 squares, rank 8 first and within a rank file `a` first.
    pub squares: [Square; 64],
    /// The square onto which a pawn may capture en passant.
    pub en_passant: Option<Position>,
    /// The piece that the last move captured.
    pub taken_piece: Option<Piece>,
    /// The square of a pawn that is due a promotion.
    pub promotion: Option<Position>,
    pub white_castling_rights: CastlingRights,
    pub black_castling_rights: CastlingRights,
    /// The player to move.
    pub turn: Color,
}

impl View for Board {
    type V = BoardView;

    open spec fn view(&self) -> BoardView {
        BoardView {
            squares: self.squares@.map_values(|square: Square| square.piece),
            en_passant: self.en_passant,
            taken_piece: self.taken_piece,
            promotion: self.promotion,
            white_castling_rights: self.white_castling_rights,
            black_castling_rights: self.black_castling_rights,
            turn: self.turn,
        }
    }
}

/// The place of an on-board position in the array of squares.
fn index_of(pos: Position) -> (index: usize)
    requires
        pos.spec_is_on_board(),
    ensures
        index == square_index(pos),
        index < 64,
        square_position(index as int) == pos,
{
    ((7 - pos.get_row()) * 8 + pos.get_col()) as usize
}

/// The position of the square at `index`.
fn position_of(index: usize) -> (pos: Position)
    requires
        index < 64,
    ensures
        pos == square_position(index as int),
        pos.spec_is_on_board(),
        square_index(pos) == index,
{
    Position::new(7 - (index / 8) as i32, (index % 8) as i32)
}

impl Board {
    /// Whether the board is valid: each piece knows the square it stands on,
    /// and the en passant and promotion squares are squares of the board.
    pub open spec fn wf(&self) -> bool {
        self@.wf()
    }

    /// Whether the board is valid: each piece knows the square it stands on,
    /// and the en passant and promotion squares are squares of the board. A
    /// board that the functions of this library have made is.
    pub fn is_valid(&self) -> (valid: bool)
        ensures
            valid == self.wf(),
    {
        if let Some(pos) = self.en_passant {
            if pos.is_off_board() {
                return false;
            }
        }
        if let Some(pos) = self.promotion {
            if pos.is_off_board() {
                return false;
            }
        }
        let mut i: usize = 0;
        while i < 64
            invariant
                0 <= i <= 64,
                forall|j: int|
                    0 <= j < i ==> (#[trigger] self@.squares[j] matches Some(piece)
                        ==> piece.spec_get_pos() == square_position(j)),
            decreases 64 - i,
        {
            if let Some(piece) = self.squares[i].get_piece() {
                assert(self@.squares[i as int] == Some(piece));
                if piece.get_pos() != position_of(i) {
                    return false;
                }
            }
            i += 1;
        }
        true
    }

    /// The board with no piece on it, all castling rights held and White to
    /// move.
    pub fn empty() -> (board: Board)
        ensures
            board.wf(),
            forall|i: int| 0 <= i < 64 ==> board@.squares[i] is None,
            board.en_passant is None,
            board.taken_piece is None,
            board.promotion is None,
            board.white_castling_rights == (CastlingRights { kingside: true, queenside: true }),
            board.black_castling_rights == (CastlingRights { kingside: true, queenside: true }),
            board.turn == Color::White,
    {
        broadcast use vstd::array::group_array_axioms;

        let empty = Square::empty();
        let squares: [Square; 64] = [empty;64];
        assert(squares == vstd::array::spec_array_fill_for_copy_type::<Square, 64>(empty));
        assert(forall|i: int| 0 <= i < 64 ==> (#[trigger] squares@[i]).piece is None);
        Board {
            squares,
            en_passant: None,
            taken_piece: None,
            promotion: None,
            white_castling_rights: CastlingRights::default(),
            black_castling_rights: CastlingRights::default(),
            turn: Color::White,
        }
    }

    /// The player to move.
    pub fn get_turn(&self) -> (turn: Color)
        ensures
            turn == self@.turn,
    {
        self.turn
    }

    /// The square onto which a pawn may capture en passant, if the last
    /// move was a double push.
    pub fn get_en_passant(&self) -> (en_passant: Option<Position>)
        ensures
            en_passant == self@.en_passant,
    {
        self.en_passant
    }

    /// The piece that the last move captured, if it captured one.
    pub fn get_taken_piece(&self) -> (taken: Option<Piece>)
        ensures
            taken == self@.taken_piece,
    {
        self.taken_piece
    }

    /// The square of the pawn that is due a promotion, if there is one.
    pub fn get_promoting_pawn(&self) -> (promotion: Option<Position>)
        ensures
            promotion == self@.promotion,
    {
        self.promotion
    }

    /// The material of `color` minus that of the other color, in points.
    pub fn get_material_advantage(&self, color: Color) -> (advantage: i32)
        ensures
            advantage == self@.get_material_advantage(color),
    {
        let mut total: i32 = 0;
        let mut i: usize = 0;
        while i < 64
            invariant
                0 <= i <= 64,
                total == self@.material_among(color, i as int),
                -99999 * i <= total <= 99999 * i,
            decreases 64 - i,
        {
            match self.squares[i].get_piece() {
                Some(piece) => {
                    if piece.get_color() == color {
                        total = total + piece.get_material_value();
                    } else {
                        total = total - piece.get_material_value();
                    }
                },
                None => {},
            }
            i += 1;
        }
        total
    }

    /// The piece at `pos`; none off the board.
    pub fn get_piece(&self, pos: Position) -> (piece: Option<Piece>)
        ensures
            piece == self@.get_piece(pos),
    {
        if pos.is_off_board() {
            return None;
        }
        self.squares[index_of(pos)].get_piece()
    }

    /// The square of the king of `color`, if it has one.
    pub fn get_king_pos(&self, color: Color) -> (king_pos: Option<Position>)
        ensures
            king_pos == self@.get_king_pos(color),
    {
        let mut king_pos = None;
        let mut i: usize = 0;
        while i < 64
            invariant
                0 <= i <= 64,
                king_pos == self@.king_pos_among(color, i as int),
            decreases 64 - i,
        {
            if let Some(Piece::King(c, pos)) = self.squares[i].get_piece() {
                if c == color {
                    king_pos = Some(pos);
                }
            }
            i += 1;
        }
        king_pos
    }

    /// Whether a piece of `ally_color` stands at `pos`.
    pub fn has_ally_piece(&self, pos: Position, ally_color: Color) -> (ally: bool)
        ensures
            ally == self@.has_ally_piece(pos, ally_color),
    {
        if let Some(piece) = self.get_piece(pos) {
            piece.get_color() == ally_color
        } else {
            false
        }
    }

    /// Whether a piece of the other color than `ally_color` stands at `pos`.
    pub fn has_enemy_piece(&self, pos: Position, ally_color: Color) -> (enemy: bool)
        ensures
            enemy == self@.has_enemy_piece(pos, ally_color),
    {
        if let Some(piece) = self.get_piece(pos) {
            piece.get_color() == ally_color.opposite()
        } else {
            false
        }
    }

    /// Whether any piece stands at `pos`.
    pub fn has_piece(&self, pos: Position) -> (occupied: bool)
        ensures
            occupied == self@.has_piece(pos),
    {
        self.get_piece(pos).is_some()
    }

    /// Whether no piece stands at `pos`, which holds off the board.
    pub fn has_no_piece(&self, pos: Position) -> (free: bool)
        ensures
            free == self@.has_no_piece(pos),
    {
        self.get_piece(pos).is_none()
    }
}

impl Board {
    /// Whether a piece of the other color than `ally_color` attacks `pos`.
    pub fn is_threatened(&self, pos: Position, ally_color: Color) -> (threatened: bool)
        requires
            self.wf(),
        ensures
            threatened == self@.is_threatened(pos, ally_color),
    {
        let mut i: usize = 0;
        while i < 64
            invariant
                0 <= i <= 64,
                self.wf(),
                forall|j: int| 0 <= j < i ==> !#[trigger] self@.attacks_from(j, pos, ally_color),
            decreases 64 - i,
        {
            let square_pos = position_of(i);
            if square_pos.is_orthogonal_to(pos) || square_pos.is_diagonal_to(pos)
                || square_pos.is_knight_move(pos) {
                if let Some(piece) = self.squares[i].get_piece() {
                    assert(self@.squares[i as int] == Some(piece));
                    if piece.get_color() != ally_color && piece.is_legal_attack(pos, self) {
                        assert(self@.attacks_from(i as int, pos, ally_color));
                        return true;
                    }
                }
            }
            i += 1;
        }
        false
    }

    /// Whether the king of `color` stands on a threatened square.
    pub fn is_in_check(&self, color: Color) -> (check: bool)
        requires
            self.wf(),
        ensures
            check == self@.is_in_check(color),
    {
        if let Some(king_pos) = self.get_king_pos(color) {
            self.is_threatened(king_pos, color)
        } else {
            false
        }
    }

    /// Whether the rook of `color` stands on `pos`.
    fn has_rook_at(&self, pos: Position, color: Color) -> (found: bool)
        ensures
            found == (self@.get_piece(pos) == Some(Piece::Rook(color, pos))),
    {
        match self.get_piece(pos) {
            Some(Piece::Rook(c, rook_pos)) => c == color && rook_pos == pos,
            _ => false,
        }
    }

    /// Whether the king of `color` stands where it starts: whether the king
    /// that the board finds for `color` stands on the `e` file of its back
    /// rank.
    pub fn king_at_start(&self, color: Color) -> (at_start: bool)
        ensures
            at_start == self@.king_at_start(color),
    {
        match self.get_king_pos(color) {
            Some(king_pos) => king_pos == Position::king_pos(color),
            None => false,
        }
    }

    /// Whether `color` may castle kingside. See
    /// [`BoardView::can_kingside_castle`].
    pub fn can_kingside_castle(&self, color: Color) -> (can: bool)
        requires
            self.wf(),
        ensures
            can == self@.can_kingside_castle(color),
    {
        let right_of_king = Position::king_pos(color).next_right();
        match color {
            Color::White => {
                self.has_no_piece(Position::new(0, 5))
                    && self.has_no_piece(Position::new(0, 6)) && self.has_rook_at(
                    Position::new(0, 7),
                    color,
                ) && self.white_castling_rights.can_kingside_castle() && !self.is_in_check(color)
                    && !self.is_threatened(right_of_king, color) && !self.is_threatened(
                    right_of_king.next_right(),
                    color,
                )
            },
            Color::Black => {
                self.has_no_piece(Position::new(7, 5))
                    && self.has_no_piece(Position::new(7, 6)) && self.has_rook_at(
                    Position::new(7, 7),
                    color,
                ) && self.black_castling_rights.can_kingside_castle() && !self.is_in_check(color)
                    && !self.is_threatened(right_of_king, color) && !self.is_threatened(
                    right_of_king.next_right(),
                    color,
                )
            },
        }
    }

    /// Whether `color` may castle queenside. See
    /// [`BoardView::can_queenside_castle`].
    pub fn can_queenside_castle(&self, color: Color) -> (can: bool)
        requires
            self.wf(),
        ensures
            can == self@.can_queenside_castle(color),
    {
        let left_of_king = Position::queen_pos(color);
        match color {
            Color::White => {
                self.has_no_piece(Position::new(0, 1))
                    && self.has_no_piece(Position::new(0, 2)) && self.has_no_piece(
                    Position::new(0, 3),
                ) && self.has_rook_at(Position::new(0, 0), color)
                    && self.white_castling_rights.can_queenside_castle() && !self.is_in_check(
                    color,
                ) && !self.is_threatened(left_of_king, color) && !self.is_threatened(
                    left_of_king.next_left(),
                    color,
                )
            },
            Color::Black => {
                self.has_no_piece(Position::new(7, 1))
                    && self.has_no_piece(Position::new(7, 2)) && self.has_no_piece(
                    Position::new(7, 3),
                ) && self.has_rook_at(Position::new(7, 0), color)
                    && self.black_castling_rights.can_queenside_castle() && !self.is_in_check(
                    color,
                ) && !self.is_threatened(left_of_king, color) && !self.is_threatened(
                    left_of_king.next_left(),
                    color,
                )
            },
        }
    }

    /// Puts `piece` on the square it names as its own, in place of what
    /// stood there.
    pub fn add_piece(&mut self, piece: Piece)
        requires
            piece.spec_get_pos().spec_is_on_board(),
        ensures
            final(self)@ == old(self)@.with_square(piece.spec_get_pos(), Some(piece)),
            old(self).wf() ==> final(self).wf(),
    {
        let index = index_of(piece.get_pos());
        self.squares[index] = Square::from(piece);
        assert(self@.squares =~= old(self)@.squares.update(index as int, Some(piece)));
    }
}

impl Board {
    /// The board after the piece at `from` has been put on `to`, whatever
    /// the rules say of such a move. See [`BoardView::move_piece`].
    pub fn move_piece(&self, from: Position, to: Position) -> (moved: Board)
        requires
            self.wf(),
        ensures
            moved@ == self@.move_piece(from, to),
            moved.wf(),
    {
        let mut result = *self;
        result.en_passant = None;
        result.taken_piece = None;
        if from.is_off_board() || to.is_off_board() {
            return result;
        }
        let from_index = index_of(from);
        if let Some(piece) = result.squares[from_index].get_piece() {
            assert(self@.squares[from_index as int] == Some(piece));
            result.squares[from_index] = Square::empty();
            assert(result@.squares =~= self@.squares.update(from_index as int, None));
            let rows_apart = from.get_row() - to.get_row();
            if piece.is_starting_pawn() && (rows_apart == 2 || rows_apart == -2) {
                result.en_passant = Some(to.pawn_back(piece.get_color()));
            }
            if result.has_enemy_piece(to, result.get_turn()) {
                result.taken_piece = result.get_piece(to);
            }
            let ghost lifted = result@;
            result.add_piece(piece.move_to(to));
            assert(result@.squares =~= lifted.squares.update(
                square_index(to),
                Some(piece.spec_move_to(to)),
            ));
            match piece.get_color() {
                Color::White => {
                    if piece.is_king() {
                        result.white_castling_rights.disable_all();
                    } else if piece.is_queenside_rook() {
                        result.white_castling_rights.disable_queenside();
                    } else if piece.is_kingside_rook() {
                        result.white_castling_rights.disable_kingside();
                    }
                },
                Color::Black => {
                    if piece.is_king() {
                        result.black_castling_rights.disable_all();
                    } else if piece.is_queenside_rook() {
                        result.black_castling_rights.disable_queenside();
                    } else if piece.is_kingside_rook() {
                        result.black_castling_rights.disable_kingside();
                    }
                },
            }
        }
        result
    }

    /// The board after the player to move has castled kingside. See
    /// [`BoardView::apply_kingside_castle`].
    pub fn apply_kingside_castle(&self) -> (castled: Board)
        requires
            self.wf(),
        ensures
            castled@ == self@.apply_kingside_castle(),
            castled.wf(),
    {
        if let Some(king_pos) = self.get_king_pos(self.turn) {
            proof {
                self@.lemma_king_pos_among(self.turn, 64);
            }
            let rook_pos = match self.turn {
                Color::White => Position::new(0, 7),
                Color::Black => Position::new(7, 7),
            };
            self.move_piece(king_pos, rook_pos.next_left()).move_piece(
                rook_pos,
                king_pos.next_right(),
            )
        } else {
            *self
        }
    }

    /// The board after the player to move has castled queenside. See
    /// [`BoardView::apply_queenside_castle`].
    pub fn apply_queenside_castle(&self) -> (castled: Board)
        requires
            self.wf(),
        ensures
            castled@ == self@.apply_queenside_castle(),
            castled.wf(),
    {
        if let Some(king_pos) = self.get_king_pos(self.turn) {
            proof {
                self@.lemma_king_pos_among(self.turn, 64);
            }
            let rook_pos = match self.turn {
                Color::White => Position::new(0, 0),
                Color::Black => Position::new(7, 0),
            };
            self.move_piece(king_pos, king_pos.next_left().next_left()).move_piece(
                rook_pos,
                king_pos.next_left(),
            )
        } else {
            *self
        }
    }

    /// The board after the piece at `from` has moved to `to`, with the pawn
    /// that an en passant capture takes removed. See
    /// [`BoardView::apply_piece_move`].
    pub fn apply_piece_move(&self, from: Position, to: Position) -> (moved: Board)
        requires
            self.wf(),
        ensures
            moved@ == self@.apply_piece_move(from, to),
            moved.wf(),
    {
        let mut result = self.move_piece(from, to);
        if let (Some(en_passant), Some(Piece::Pawn(player_color, _))) = (
            self.en_passant,
            self.get_piece(from),
        ) {
            if (en_passant == from.pawn_up(player_color).next_left() || en_passant == from.pawn_up(
                player_color,
            ).next_right()) && en_passant == to {
                let ghost moved = result@;
                let index = index_of(en_passant.pawn_back(player_color));
                result.squares[index] = Square::empty();
                assert(result@.squares =~= moved.squares.update(index as int, None));
            }
        }
        result
    }

    /// The board after `m`, which is not asked to be legal. To resign
    /// changes nothing.
    pub fn apply_move(&self, m: Move) -> (next: Board)
        requires
            self.wf(),
        ensures
            next@ == self@.apply_move(m),
            next.wf(),
    {
        match m {
            Move::KingSideCastle => self.apply_kingside_castle(),
            Move::QueenSideCastle => self.apply_queenside_castle(),
            Move::Piece(from, to) => self.apply_piece_move(from, to),
            Move::Resign => *self,
        }
    }

    /// Whether `player_color` may play `m`. See
    /// [`BoardView::is_legal_move`]. No move of a piece is legal that would
    /// leave the king of `player_color` in check, and no castling of the
    /// player to move whose king stands on its starting square.
    pub fn is_legal_move(&self, m: Move, player_color: Color) -> (legal: bool)
        requires
            self.wf(),
        ensures
            legal == self@.is_legal_move(m, player_color),
            legal && !(m is Resign) && (m is Piece || (player_color == self@.turn
                && self@.king_at_start(player_color))) ==> !self@.apply_move(m).is_in_check(
                player_color,
            ),
    {
        match m {
            Move::KingSideCastle => {
                let can = self.can_kingside_castle(player_color);
                proof {
                    if can && player_color == self@.turn && self@.king_at_start(player_color) {
                        self@.lemma_kingside_castle_is_safe();
                    }
                }
                can
            },
            Move::QueenSideCastle => {
                let can = self.can_queenside_castle(player_color);
                proof {
                    if can && player_color == self@.turn && self@.king_at_start(player_color) {
                        self@.lemma_queenside_castle_is_safe();
                    }
                }
                can
            },
            Move::Piece(from, to) => match self.get_piece(from) {
                Some(Piece::Pawn(c, pos)) => {
                    let piece = Piece::Pawn(c, pos);
                    ((if let Some(en_passant) = self.en_passant {
                        (en_passant == from.pawn_up(player_color).next_left() || en_passant
                            == from.pawn_up(player_color).next_right()) && en_passant == to
                    } else {
                        false
                    }) || piece.is_legal_move(to, self)) && c == player_color
                        && !self.apply_move(m).is_in_check(player_color)
                },
                Some(piece) => {
                    piece.is_legal_move(to, self) && piece.get_color() == player_color
                        && !self.apply_move(m).is_in_check(player_color)
                },
                _ => false,
            },
            Move::Resign => true,
        }
    }
}

impl Board {
    /// The pieces of `color`, in the order of their squares: rank 8 first,
    /// and within a rank file `a` first.
    pub fn get_player_pieces(&self, color: Color) -> (pieces: Vec<Piece>)
        ensures
            pieces@ == self@.get_player_pieces(color),
    {
        let ghost of_color = |square: Option<Piece>|
            square matches Some(piece) && piece.spec_get_color() == color;
        let ghost unwrap = |square: Option<Piece>| square->0;
        let mut result: Vec<Piece> = Vec::new();
        assert(self@.squares.take(0).filter(of_color).map_values(unwrap) =~= Seq::empty()) by {
            reveal(Seq::filter);
        }
        let mut i: usize = 0;
        while i < 64
            invariant
                0 <= i <= 64,
                of_color == |square: Option<Piece>|
                    square matches Some(piece) && piece.spec_get_color() == color,
                unwrap == |square: Option<Piece>| square->0,
                result@ == self@.squares.take(i as int).filter(of_color).map_values(unwrap),
            decreases 64 - i,
        {
            proof {
                lemma_filter_take_next(self@.squares, i as int, of_color);
            }
            if let Some(piece) = self.squares[i].get_piece() {
                if piece.get_color() == color {
                    assert(self@.squares.take(i as int).filter(of_color).push(
                        Some(piece),
                    ).map_values(unwrap) =~= self@.squares.take(i as int).filter(
                        of_color,
                    ).map_values(unwrap).push(piece));
                    result.push(piece);
                }
            }
            i += 1;
        }
        proof {
            lemma_take_all(self@.squares);
        }
        result
    }

    /// The legal moves of `color`: those of each of its pieces, the pieces
    /// taken in the order of their squares.
    ///
    /// They are the moves that are legal for `color`, but for resigning,
    /// and for castling where no king of `color` stands on the board. Each
    /// move of a piece among them moves a piece of `color` on the board, and
    /// none leaves the king of `color` in check; nor does a castling among
    /// them where `color` is the player to move and its king stands on its
    /// starting square.
    pub fn get_legal_moves(&self, color: Color) -> (moves: Vec<Move>)
        requires
            self.wf(),
        ensures
            moves@ == self@.get_legal_moves(color),
            forall|m: Move|
                #[trigger] moves@.contains(m) == (!(m is Resign) && self@.is_legal_move(m, color)
                    && (m is Piece || self@.has_king(color))),
            forall|i: int|
                0 <= i < moves@.len() ==> (#[trigger] moves@[i] matches Move::Piece(from, to)
                    ==> from.spec_is_on_board() && to.spec_is_on_board()
                    && self@.has_ally_piece(from, color)),
            forall|i: int|
                0 <= i < moves@.len() && (moves@[i] is Piece || (color == self@.turn
                    && self@.king_at_start(color))) ==> !(#[trigger] self@.apply_move(
                    moves@[i],
                )).is_in_check(color),
    {
        let mut result: Vec<Move> = Vec::new();
        let mut i: usize = 0;
        while i < 64
            invariant
                0 <= i <= 64,
                self.wf(),
                result@ == self@.legal_moves_among(color, i as int),
            decreases 64 - i,
        {
            if let Some(piece) = self.squares[i].get_piece() {
                assert(self@.squares[i as int] == Some(piece));
                if piece.get_color() == color {
                    let mut piece_moves = piece.get_legal_moves(self);
                    result.append(&mut piece_moves);
                }
            }
            assert(result@ =~= self@.legal_moves_among(color, i as int) + self@.legal_moves_at(
                color,
                i as int,
            ));
            i += 1;
        }
        proof {
            assert forall|m: Move|
                #[trigger] result@.contains(m) == (!(m is Resign) && self@.is_legal_move(
                    m,
                    color,
                ) && (m is Piece || self@.has_king(color))) by {
                self@.lemma_generated_moves_are_legal(color, m);
            }
            assert forall|i: int| 0 <= i < result@.len() implies (#[trigger] result@[i] matches Move::Piece(
                from,
                to,
            ) ==> from.spec_is_on_board() && to.spec_is_on_board() && self@.has_ally_piece(
                from,
                color,
            )) by {
                assert(result@.contains(result@[i]));
                self@.lemma_listed_move(color, result@[i]);
            }
            assert forall|i: int|
                0 <= i < result@.len() && (result@[i] is Piece || (color == self@.turn
                    && self@.king_at_start(color))) implies !(#[trigger] self@.apply_move(
                    result@[i],
                )).is_in_check(color) by {
                assert(result@.contains(result@[i]));
                self@.lemma_listed_move(color, result@[i]);
            }
        }
        result
    }

    /// The legal moves of the piece at `pos`; none where no piece stands.
    pub fn get_piece_legal_moves(&self, pos: Position) -> (moves: Vec<Move>)
        requires
            self.wf(),
        ensures
            moves@ == self@.get_piece_legal_moves(pos),
    {
        match self.get_piece(pos) {
            Some(piece) => piece.get_legal_moves(self),
            None => Vec::new(),
        }
    }

    /// Whether `color` has the material to mate. See
    /// [`BoardView::has_sufficient_material`].
    pub fn has_sufficient_material(&self, color: Color) -> (sufficient: bool)
        ensures
            sufficient == self@.has_sufficient_material(color),
    {
        let mut kings: usize = 0;
        let mut knights: usize = 0;
        let mut bishops: usize = 0;
        let mut others: usize = 0;
        let mut i: usize = 0;
        while i < 64
            invariant
                0 <= i <= 64,
                kings == self@.count_among(color, king_kind(), i as int),
                knights == self@.count_among(color, knight_kind(), i as int),
                bishops == self@.count_among(color, bishop_kind(), i as int),
                others == self@.count_among(color, mating_kind(), i as int),
                kings <= i,
                knights <= i,
                bishops <= i,
                others <= i,
            decreases 64 - i,
        {
            if let Some(piece) = self.squares[i].get_piece() {
                if piece.get_color() == color {
                    if piece.is_king() {
                        kings += 1;
                    } else if piece.is_knight() {
                        knights += 1;
                    } else if piece.is_bishop() {
                        bishops += 1;
                    } else {
                        others += 1;
                    }
                }
            }
            i += 1;
        }
        !(kings == 1 && others == 0 && ((bishops == 0 && knights <= 2) || (knights == 0 && bishops
            <= 2)))
    }

    /// Whether `color` lacks the material to mate. See
    /// [`BoardView::has_insufficient_material`].
    pub fn has_insufficient_material(&self, color: Color) -> (insufficient: bool)
        ensures
            insufficient == self@.has_insufficient_material(color),
    {
        !self.has_sufficient_material(color)
    }

    /// Whether the player to move is stalemated: without a legal move and
    /// not in check; or neither player has the material to mate.
    pub fn is_stalemate(&self) -> (stalemate: bool)
        requires
            self.wf(),
        ensures
            stalemate == self@.is_stalemate(),
    {
        (self.get_legal_moves(self.get_turn()).len() == 0 && !self.is_in_check(self.get_turn()))
            || (self.has_insufficient_material(self.turn) && self.has_insufficient_material(
            self.turn.opposite(),
        ))
    }

    /// Whether the player to move is checkmated: in check and without a
    /// legal move.
    pub fn is_checkmate(&self) -> (checkmate: bool)
        requires
            self.wf(),
        ensures
            checkmate == self@.is_checkmate(),
    {
        self.is_in_check(self.get_turn()) && self.get_legal_moves(self.get_turn()).len() == 0
    }

    /// The board without the pieces of `color`.
    pub fn remove_all(&self, color: Color) -> (board: Board)
        ensures
            board@ == self@.remove_all(color),
            self.wf() ==> board.wf(),
    {
        let mut result = *self;
        let mut i: usize = 0;
        while i < 64
            invariant
                0 <= i <= 64,
                result.en_passant == self.en_passant,
                result.taken_piece == self.taken_piece,
                result.promotion == self.promotion,
                result.white_castling_rights == self.white_castling_rights,
                result.black_castling_rights == self.black_castling_rights,
                result.turn == self.turn,
                forall|j: int|
                    0 <= j < i ==> result@.squares[j] == self@.remove_all(color).squares[j],
                forall|j: int| i <= j < 64 ==> result@.squares[j] == self@.squares[j],
            decreases 64 - i,
        {
            let ghost before = result@.squares;
            assert(before[i as int] == self@.squares[i as int]);
            if let Some(piece) = result.squares[i].get_piece() {
                if piece.get_color() == color {
                    result.squares[i] = Square::empty();
                    assert(result@.squares =~= before.update(i as int, None));
                }
            }
            i += 1;
        }
        assert(result@.squares =~= self@.remove_all(color).squares);
        result
    }

    /// The board without the piece at `position`, if one stood there.
    pub fn remove_piece(&self, position: Position) -> (board: Board)
        requires
            position.spec_is_on_board(),
        ensures
            board@ == self@.with_square(position, None),
            self.wf() ==> board.wf(),
    {
        let mut result = *self;
        let index = index_of(position);
        result.squares[index] = Square::empty();
        assert(result@.squares =~= self@.squares.update(index as int, None));
        result
    }

    /// The board with each piece of `color` but the king turned into a queen.
    pub fn queen_all(&self, color: Color) -> (board: Board)
        ensures
            board@ == self@.queen_all(color),
            self.wf() ==> board.wf(),
    {
        let mut result = *self;
        let mut i: usize = 0;
        while i < 64
            invariant
                0 <= i <= 64,
                result.en_passant == self.en_passant,
                result.taken_piece == self.taken_piece,
                result.promotion == self.promotion,
                result.white_castling_rights == self.white_castling_rights,
                result.black_castling_rights == self.black_castling_rights,
                result.turn == self.turn,
                forall|j: int|
                    0 <= j < i ==> result@.squares[j] == self@.queen_all(color).squares[j],
                forall|j: int| i <= j < 64 ==> result@.squares[j] == self@.squares[j],
            decreases 64 - i,
        {
            let ghost before = result@.squares;
            assert(before[i as int] == self@.squares[i as int]);
            if let Some(piece) = result.squares[i].get_piece() {
                if !piece.is_king() && piece.get_color() == color {
                    let queen = Piece::Queen(color, piece.get_pos());
                    result.squares[i] = Square::from(queen);
                    assert(result@.squares =~= before.update(i as int, Some(queen)));
                }
            }
            i += 1;
        }
        assert(result@.squares =~= self@.queen_all(color).squares);
        result
    }

    /// The board with `color` to move.
    pub fn set_turn(&self, color: Color) -> (board: Board)
        ensures
            board@ == self@.set_turn(color),
            self.wf() ==> board.wf(),
    {
        let mut result = *self;
        result.turn = color;
        result
    }

    /// The board with the other player to move.
    pub fn change_turn(self) -> (board: Board)
        ensures
            board@ == self@.change_turn(),
            self.wf() ==> board.wf(),
    {
        let mut result = self;
        result.turn = self.turn.opposite();
        result
    }

    /// The board with its promotion square set to where a pawn of the player
    /// to move stands on its last rank, and to none where no pawn does.
    pub fn check_available_pawn_promotion(self) -> (board: Board)
        requires
            self.wf(),
        ensures
            board@ == self@.check_available_pawn_promotion(),
            board.wf(),
    {
        let mut promoting_pawn: Option<Position> = None;
        let mut i: usize = 0;
        while i < 64
            invariant
                0 <= i <= 64,
                self.wf(),
                promoting_pawn == self@.promoting_pawn_among(i as int),
                promoting_pawn matches Some(pos) ==> pos.spec_is_on_board(),
            decreases 64 - i,
        {
            if let Some(piece) = self.squares[i].get_piece() {
                assert(self@.squares[i as int] == Some(piece));
                if piece.is_promoting_pawn() && piece.get_color() == self.get_turn() {
                    promoting_pawn = Some(piece.get_pos());
                }
            }
            i += 1;
        }
        let mut result = self;
        result.promotion = promoting_pawn;
        result
    }

    /// Plays `m` for the player to move, if it is legal, and says what came
    /// of it. See [`BoardView::play_move`].
    ///
    /// No move may be played while a promotion is pending. On the board
    /// that is handed back after the move of a piece, or after a castling
    /// of a king that stood on its starting square, the mover is not in
    /// check.
    pub fn play_move(&self, m: Move) -> (result: MoveResult)
        requires
            self.wf(),
            self.promotion is None,
        ensures
            result@ == self@.play_move(m),
            result matches MoveResult::Continuing(board) ==> board.wf() && board.promotion is None,
            result matches MoveResult::Promote(board, pos) ==> board.wf() && board.promotion
                == Some(pos),
            m is Piece || self@.king_at_start(self@.turn) ==> (result matches MoveResult::Continuing(
                board,
            ) ==> !board@.is_in_check(self@.turn)) && (result matches MoveResult::Promote(board, _)
                ==> !board@.is_in_check(self@.turn)),
    {
        proof {
            if m is Piece || self@.king_at_start(self@.turn) {
                self@.lemma_played_move_is_safe(m);
            }
        }
        let current_color = self.get_turn();
        if m == Move::Resign {
            MoveResult::Victory(current_color.opposite())
        } else if self.is_legal_move(m, current_color) {
            let next_turn: Board = self.apply_move(m);
            if next_turn.change_turn().is_checkmate() {
                MoveResult::Victory(current_color)
            } else if next_turn.change_turn().is_stalemate() {
                MoveResult::Stalemate
            } else {
                let next_turn: Board = next_turn.check_available_pawn_promotion();
                match next_turn.promotion {
                    Some(pos_promotion) => MoveResult::Promote(next_turn, pos_promotion),
                    None => MoveResult::Continuing(next_turn.change_turn()),
                }
            }
        } else {
            MoveResult::IllegalMove(m)
        }
    }

    /// Turns the pawn that is due a promotion into a piece of the chosen
    /// kind, and hands the move to the other player.
    ///
    /// A promotion has to be pending.
    pub fn promote(&self, promotion: Promotion) -> (board: Board)
        requires
            self.wf(),
            self.promotion is Some,
        ensures
            board@ == self@.promote(promotion),
            board.wf(),
    {
        let mut result = *self;
        let pos = match result.promotion {
            Some(pos) => pos,
            None => Position::new(0, 0),
        };
        result.promotion = None;
        let color: Color = result.get_turn();
        let promoted: Piece = match promotion {
            Promotion::Bishop => Piece::Bishop(color, pos),
            Promotion::Knight => Piece::Knight(color, pos),
            Promotion::Queen => Piece::Queen(color, pos),
            Promotion::Rook => Piece::Rook(color, pos),
        };
        result.add_piece(promoted);
        result.change_turn()
    }
}

} // verus!
