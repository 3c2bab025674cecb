//! Moves and check: no legal move of the player to move leaves that player
//! in check, castling from the king's starting square included.

use vstd::prelude::*;
use crate::board::laws::lemma_move_piece_wf;
use crate::board::types::MoveOutcome;
use crate::board::view::{square_index, square_position, BoardView};
use crate::piece::path_is_clear;
use crate::{Color, Move, Piece, Position};

verus! {

/// Whether `pos` is one of the four corners of the board.
pub open spec fn is_corner(pos: Position) -> bool {
    (pos.row == 0 || pos.row == 7) && (pos.col == 0 || pos.col == 7)
}

/// A way that is free after two squares were vacated, and that leads over
/// neither of them, was free before.
proof fn lemma_line_was_clear(
    before: BoardView,
    after: BoardView,
    path: Seq<Position>,
    first: Position,
    second: Position,
)
    requires
        path_is_clear(after, path),
        forall|j: int|
            0 <= j < path.len() - 1 ==> (#[trigger] path[j]) != first && path[j] != second,
        forall|pos: Position|
            pos != first && pos != second && #[trigger] after.has_no_piece(pos)
                ==> before.has_no_piece(pos),
    ensures
        path_is_clear(before, path),
{
    assert forall|k: int| 0 <= k < path.len() - 1 implies before.has_no_piece(
        #[trigger] path[k],
    ) by {
        assert(after.has_no_piece(path[k]));
    }
}

/// A corner lies on no way between two squares of the board.
proof fn lemma_corner_is_no_way(from: Position, to: Position, steps: int, corner: Position)
    requires
        from.spec_is_on_board(),
        to.spec_is_on_board(),
        from.spec_is_orthogonal_to(to) || from.spec_is_diagonal_to(to),
        0 < steps < from.spec_line_distance(to),
        is_corner(corner),
    ensures
        from.step_towards(to, steps) != corner,
{
    from.lemma_step_towards(to, steps);
}

/// The part of a free way up to one of its squares is a free way to that
/// square.
proof fn lemma_way_to_square_on_way(
    board: BoardView,
    from: Position,
    to: Position,
    steps: int,
    opened: Position,
    diagonal: bool,
)
    requires
        from.spec_is_on_board(),
        to.spec_is_on_board(),
        if diagonal {
            from.spec_is_diagonal_to(to)
        } else {
            from.spec_is_orthogonal_to(to)
        },
        0 < steps < from.spec_line_distance(to),
        opened == from.step_towards(to, steps),
        forall|fewer: int|
            0 < fewer < steps ==> board.has_no_piece(#[trigger] from.step_towards(to, fewer)),
    ensures
        if diagonal {
            Piece::spec_is_legal_bishop_move(from, opened, board)
        } else {
            Piece::spec_is_legal_rook_move(from, opened, board)
        },
{
    from.lemma_step_towards(to, steps);
    let path = if diagonal {
        from.spec_diagonals_to(opened)
    } else {
        from.spec_orthogonals_to(opened)
    };
    assert(path.len() == steps);
    assert forall|k: int| 0 <= k < path.len() - 1 implies board.has_no_piece(
        #[trigger] path[k],
    ) by {
        assert(path[k] == from.step_towards(opened, k + 1));
        assert(from.step_towards(opened, k + 1) == from.step_towards(to, k + 1));
    }
}

/// What attacks along a line after two squares were vacated attacked before:
/// the same square, or the first vacated square, over which the line leads.
///
/// The second vacated square is a corner, over which no line leads.
proof fn lemma_line_attack_was_there(
    before: BoardView,
    after: BoardView,
    from: Position,
    to: Position,
    diagonal: bool,
    opened: Position,
    corner: Position,
)
    requires
        from.spec_is_on_board(),
        to.spec_is_on_board(),
        is_corner(corner),
        if diagonal {
            Piece::spec_is_legal_bishop_move(from, to, after)
        } else {
            Piece::spec_is_legal_rook_move(from, to, after)
        },
        forall|pos: Position|
            pos != opened && pos != corner && #[trigger] after.has_no_piece(pos)
                ==> before.has_no_piece(pos),
    ensures
        if diagonal {
            Piece::spec_is_legal_bishop_move(from, to, before) || Piece::spec_is_legal_bishop_move(
                from,
                opened,
                before,
            )
        } else {
            Piece::spec_is_legal_rook_move(from, to, before) || Piece::spec_is_legal_rook_move(
                from,
                opened,
                before,
            )
        },
{
    let path = if diagonal {
        from.spec_diagonals_to(to)
    } else {
        from.spec_orthogonals_to(to)
    };
    let distance = from.spec_line_distance(to);
    assert(path.len() == distance);
    assert forall|j: int| 0 <= j < path.len() - 1 implies (#[trigger] path[j]) != corner by {
        assert(path[j] == from.step_towards(to, j + 1));
        lemma_corner_is_no_way(from, to, j + 1, corner);
    }
    if exists|j: int| 0 <= j < path.len() - 1 && path[j] == opened {
        // The line leads over the first vacated square: take the first time.
        let j = choose|j: int| 0 <= j < path.len() - 1 && path[j] == opened;
        assert(path[j] == from.step_towards(to, j + 1));
        assert forall|fewer: int| 0 < fewer < j + 1 implies before.has_no_piece(
            #[trigger] from.step_towards(to, fewer),
        ) by {
            let inner = from.step_towards(to, fewer);
            assert(path[fewer - 1] == inner);
            assert(after.has_no_piece(path[fewer - 1]));
            from.lemma_step_towards(to, fewer);
            from.lemma_step_towards(to, j + 1);
            assert(from.spec_line_distance(inner) == fewer);
            assert(inner != opened);
            assert(inner != corner);
        }
        lemma_way_to_square_on_way(before, from, to, j + 1, opened, diagonal);
    } else {
        lemma_line_was_clear(before, after, path, opened, corner);
    }
}

/// What attacks a square after two squares were vacated attacked before:
/// that square, or the first vacated square.
///
/// It is asked that the attacked square was free before and holds no piece
/// of the attacker's color after, that the first vacated square held no
/// piece of the attacker's color, and that the second is a corner.
proof fn lemma_attack_was_there(
    before: BoardView,
    after: BoardView,
    attacker: Piece,
    target: Position,
    opened: Position,
    corner: Position,
)
    requires
        attacker.spec_get_pos().spec_is_on_board(),
        opened.spec_is_on_board(),
        is_corner(corner),
        attacker.spec_is_legal_attack(target, after),
        before.has_no_piece(target),
        !before.has_ally_piece(opened, attacker.spec_get_color()),
        forall|pos: Position|
            pos != opened && pos != corner && #[trigger] after.has_no_piece(pos)
                ==> before.has_no_piece(pos),
    ensures
        attacker.spec_is_legal_attack(target, before) || attacker.spec_is_legal_attack(
            opened,
            before,
        ),
{
    let from = attacker.spec_get_pos();
    match attacker {
        Piece::Rook(_, _) => {
            lemma_line_attack_was_there(before, after, from, target, false, opened, corner);
        },
        Piece::Bishop(_, _) => {
            lemma_line_attack_was_there(before, after, from, target, true, opened, corner);
        },
        Piece::Queen(_, _) => {
            if Piece::spec_is_legal_rook_move(from, target, after) {
                lemma_line_attack_was_there(before, after, from, target, false, opened, corner);
            } else {
                lemma_line_attack_was_there(before, after, from, target, true, opened, corner);
            }
        },
        _ => {},
    }
}

impl BoardView {
    /// Where the king of `color` stands after it has castled kingside: on
    /// the `g` file of its back rank.
    pub open spec fn kingside_landing(color: Color) -> Position {
        Position { row: Self::back_row(color), col: 6 }
    }

    /// The king that comes last is the king of the board: if the square at
    /// `index` holds a king of `color` and no square after it among the
    /// first `n` does, that king's square is what `king_pos_among` finds.
    pub proof fn lemma_king_pos_is_last(self, color: Color, index: int, n: int)
        requires
            0 <= index < n <= 64,
            self.squares[index] matches Some(Piece::King(c, _)) && c == color,
            forall|j: int|
                index < j < n ==> !(#[trigger] self.squares[j] matches Some(Piece::King(c, _)) && c
                    == color),
        ensures
            self.king_pos_among(color, n) == Some(self.squares[index]->0.spec_get_pos()),
        decreases n,
    {
        if n - 1 > index {
            self.lemma_king_pos_is_last(color, index, n - 1);
        }
    }

    /// After two pieces of `color` have gone from `opened` and from a corner
    /// to other squares, no piece of the other color attacks `target` that
    /// did not attack it, or `opened`, before. So where neither was
    /// threatened before, `target` is not threatened after.
    proof fn lemma_still_safe(
        self,
        after: BoardView,
        color: Color,
        target: Position,
        opened: Position,
        corner: Position,
    )
        requires
            self.wf(),
            after.squares.len() == 64,
            opened.spec_is_on_board(),
            is_corner(corner),
            self.has_ally_piece(opened, color),
            self.has_no_piece(target),
            !self.is_threatened(target, color),
            !self.is_threatened(opened, color),
            forall|j: int|
                0 <= j < 64 && (#[trigger] after.squares[j] matches Some(piece)
                    && piece.spec_get_color() != color) ==> self.squares[j] == after.squares[j],
            forall|pos: Position|
                pos != opened && pos != corner && #[trigger] after.has_no_piece(pos)
                    ==> self.has_no_piece(pos),
        ensures
            !after.is_threatened(target, color),
    {
        assert forall|index: int| 0 <= index < 64 implies !#[trigger] after.attacks_from(
            index,
            target,
            color,
        ) by {
            if after.attacks_from(index, target, color) {
                let attacker = after.squares[index]->0;
                assert(self.squares[index] == Some(attacker));
                assert(attacker.spec_get_pos() == square_position(index));
                lemma_attack_was_there(self, after, attacker, target, opened, corner);
                if attacker.spec_is_legal_attack(target, self) {
                    assert(self.attacks_from(index, target, color));
                } else {
                    assert(self.attacks_from(index, opened, color));
                }
            }
        }
    }

    /// To castle kingside from the starting square is safe: on the board
    /// after a legal kingside castling of the player to move, whose king
    /// stood on its starting square, the king stands on the `g` file of its
    /// back rank and the rook on the `f` file, the king is the king that the
    /// board finds for the player, its square is not threatened, and the
    /// player is not in check.
    pub proof fn lemma_kingside_castle_is_safe(self)
        requires
            self.wf(),
            self.is_legal_move(Move::KingSideCastle, self.turn),
            self.king_at_start(self.turn),
        ensures
            ({
                let color = self.turn;
                let after = self.apply_move(Move::KingSideCastle);
                let landing = Self::kingside_landing(color);
                let beside = Position { row: Self::back_row(color), col: 5 };
                &&& after.get_piece(landing) == Some(Piece::King(color, landing))
                &&& after.get_piece(beside) == Some(Piece::Rook(color, beside))
                &&& after.get_king_pos(color) == Some(landing)
                &&& !after.is_threatened(landing, color)
                &&& !after.is_in_check(color)
            }),
    {
        let color = self.turn;
        let after = self.apply_move(Move::KingSideCastle);
        let row = Self::back_row(color);
        let landing = Self::kingside_landing(color);
        let corner = Position { row, col: 7 };
        if let Some(king_pos) = self.get_king_pos(color) {
            self.lemma_king_pos_among(color, 64);
            let beside = king_pos.spec_next_right();
            let first = self.move_piece(king_pos, landing);
            lemma_move_piece_wf(self, king_pos, landing);
            assert(corner.spec_next_left() == landing);
            assert(self.squares[square_index(corner)] == Some(Piece::Rook(color, corner)));
            assert(self.squares[square_index(landing)] is None);
            assert(first.squares == self.squares.update(square_index(king_pos), None).update(
                square_index(landing),
                Some(Piece::King(color, landing)),
            ));
            assert(first.get_piece(corner) == Some(Piece::Rook(color, corner)));
            assert(after == first.move_piece(corner, beside));
            if beside.spec_is_on_board() {
                assert(after.squares == first.squares.update(square_index(corner), None).update(
                    square_index(beside),
                    Some(Piece::Rook(color, beside)),
                ));
            } else {
                assert(after.squares == first.squares);
            }
            assert(after.squares[square_index(landing)] == Some(Piece::King(color, landing)));
            assert forall|pos: Position|
                pos != king_pos && pos != corner && #[trigger] after.has_no_piece(
                    pos,
                ) implies self.has_no_piece(pos) by {
                if pos.spec_is_on_board() {
                    assert(square_position(square_index(pos)) == pos);
                }
            }
            self.lemma_still_safe(after, color, landing, king_pos, corner);
            assert forall|j: int| square_index(landing) < j < 64 implies !(
            #[trigger] after.squares[j] matches Some(Piece::King(c, _)) && c == color) by {
                if j != square_index(corner) && j != square_index(beside) {
                    assert(after.squares[j] == self.squares[j]);
                    assert(j > square_index(king_pos));
                }
            }
            after.lemma_king_pos_is_last(color, square_index(landing), 64);
        }
    }
}

impl BoardView {
    /// Where the king of `color` stands after it has castled queenside: on
    /// the `c` file of its back rank.
    pub open spec fn queenside_landing(color: Color) -> Position {
        Position { row: Self::back_row(color), col: 2 }
    }

    /// To castle queenside from the starting square is safe: on the board
    /// after a legal queenside castling of the player to move, whose king
    /// stood on its starting square, the king stands on the `c` file of its
    /// back rank and the rook on the `d` file, the king is the king that the
    /// board finds for the player, its square is not threatened, and the
    /// player is not in check.
    pub proof fn lemma_queenside_castle_is_safe(self)
        requires
            self.wf(),
            self.is_legal_move(Move::QueenSideCastle, self.turn),
            self.king_at_start(self.turn),
        ensures
            ({
                let color = self.turn;
                let after = self.apply_move(Move::QueenSideCastle);
                let landing = Self::queenside_landing(color);
                let beside = Position { row: Self::back_row(color), col: 3 };
                &&& after.get_piece(landing) == Some(Piece::King(color, landing))
                &&& after.get_piece(beside) == Some(Piece::Rook(color, beside))
                &&& after.get_king_pos(color) == Some(landing)
                &&& !after.is_threatened(landing, color)
                &&& !after.is_in_check(color)
            }),
    {
        let color = self.turn;
        let after = self.apply_move(Move::QueenSideCastle);
        let row = Self::back_row(color);
        let corner = Position { row, col: 0 };
        if let Some(king_pos) = self.get_king_pos(color) {
            self.lemma_king_pos_among(color, 64);
            let landing = Self::queenside_landing(color);
            let beside = king_pos.spec_next_left();
            let first = self.move_piece(king_pos, landing);
            lemma_move_piece_wf(self, king_pos, landing);
            assert(self.squares[square_index(corner)] == Some(Piece::Rook(color, corner)));
            assert(self.squares[square_index(landing)] is None);
            assert(first.squares == self.squares.update(square_index(king_pos), None).update(
                square_index(landing),
                Some(Piece::King(color, landing)),
            ));
            assert(first.get_piece(corner) == Some(Piece::Rook(color, corner)));
            assert(after == first.move_piece(corner, beside));
            assert(after.squares == first.squares.update(square_index(corner), None).update(
                square_index(beside),
                Some(Piece::Rook(color, beside)),
            ));
            assert(after.squares[square_index(landing)] == Some(Piece::King(color, landing)));
            assert forall|pos: Position|
                pos != king_pos && pos != corner && #[trigger] after.has_no_piece(
                    pos,
                ) implies self.has_no_piece(pos) by {
                if pos.spec_is_on_board() {
                    assert(square_position(square_index(pos)) == pos);
                }
            }
            self.lemma_still_safe(after, color, landing, king_pos, corner);
            assert forall|j: int| square_index(landing) < j < 64 implies !(
            #[trigger] after.squares[j] matches Some(Piece::King(c, _)) && c == color) by {
                if j != square_index(corner) && j != square_index(beside) && j != square_index(
                    king_pos,
                ) {
                    assert(after.squares[j] == self.squares[j]);
                    assert(j > square_index(king_pos));
                }
            }
            after.lemma_king_pos_is_last(color, square_index(landing), 64);
        }
    }

    /// No legal move leaves the mover in check: on the board after a legal
    /// move of the player to move, be it the move of a piece or a castling
    /// of a king that stood on its starting square, the king of that player
    /// does not stand on a threatened square.
    ///
    /// To resign is legal too and leaves the board, and with it a check, as
    /// it is. The conditions of castling do not ask where the king stands;
    /// of a castling that takes the king from another square nothing is
    /// said here.
    pub proof fn lemma_legal_move_is_safe(self, m: Move)
        requires
            self.wf(),
            self.is_legal_move(m, self.turn),
            !(m is Resign),
            m is Piece || self.king_at_start(self.turn),
        ensures
            !self.apply_move(m).is_in_check(self.turn),
    {
        match m {
            Move::KingSideCastle => {
                self.lemma_kingside_castle_is_safe();
            },
            Move::QueenSideCastle => {
                self.lemma_queenside_castle_is_safe();
            },
            _ => {},
        }
    }

    /// Whether a square is threatened is a matter of the squares alone: two
    /// boards with the same pieces on the same squares threaten the same
    /// squares, and have the same players in check.
    pub proof fn lemma_threats_are_of_the_squares(
        self,
        other: BoardView,
        pos: Position,
        color: Color,
    )
        requires
            self.squares == other.squares,
        ensures
            self.is_threatened(pos, color) == other.is_threatened(pos, color),
            self.is_in_check(color) == other.is_in_check(color),
    {
        Self::lemma_attacks_are_of_the_squares(self, other, pos, color);
        Self::lemma_attacks_are_of_the_squares(other, self, pos, color);
        self.lemma_king_is_of_the_squares(other, color, 64);
        if let Some(king_pos) = self.get_king_pos(color) {
            Self::lemma_attacks_are_of_the_squares(self, other, king_pos, color);
            Self::lemma_attacks_are_of_the_squares(other, self, king_pos, color);
        }
    }

    /// What is threatened on one board is threatened on a board with the
    /// same pieces on the same squares.
    proof fn lemma_attacks_are_of_the_squares(
        one: BoardView,
        other: BoardView,
        pos: Position,
        color: Color,
    )
        requires
            one.squares == other.squares,
        ensures
            one.is_threatened(pos, color) ==> other.is_threatened(pos, color),
    {
        if one.is_threatened(pos, color) {
            let index = choose|index: int|
                0 <= index < 64 && #[trigger] one.attacks_from(index, pos, color);
            let piece = one.squares[index]->0;
            let from = piece.spec_get_pos();
            assert forall|at: Position| one.get_piece(at) == other.get_piece(at) by {}
            assert(path_is_clear(one, from.spec_orthogonals_to(pos)) ==> path_is_clear(
                other,
                from.spec_orthogonals_to(pos),
            )) by {
                let path = from.spec_orthogonals_to(pos);
                if path_is_clear(one, path) {
                    assert forall|k: int| 0 <= k < path.len() - 1 implies other.has_no_piece(
                        #[trigger] path[k],
                    ) by {
                        assert(one.has_no_piece(path[k]));
                    }
                }
            }
            assert(path_is_clear(one, from.spec_diagonals_to(pos)) ==> path_is_clear(
                other,
                from.spec_diagonals_to(pos),
            )) by {
                let path = from.spec_diagonals_to(pos);
                if path_is_clear(one, path) {
                    assert forall|k: int| 0 <= k < path.len() - 1 implies other.has_no_piece(
                        #[trigger] path[k],
                    ) by {
                        assert(one.has_no_piece(path[k]));
                    }
                }
            }
            assert(other.attacks_from(index, pos, color));
        }
    }

    /// Where the king stands is a matter of the squares alone.
    proof fn lemma_king_is_of_the_squares(self, other: BoardView, color: Color, n: int)
        requires
            self.squares == other.squares,
        ensures
            self.king_pos_among(color, n) == other.king_pos_among(color, n),
        decreases n,
    {
        if n > 0 {
            self.lemma_king_is_of_the_squares(other, color, n - 1);
        }
    }

    /// Where `play_move` lets the game go on after the move of a piece, or
    /// after a castling of a king that stood on its starting square, the
    /// mover is not in check on the board it hands back.
    pub proof fn lemma_played_move_is_safe(self, m: Move)
        requires
            self.wf(),
            m is Piece || self.king_at_start(self.turn),
        ensures
            self.play_move(m) matches MoveOutcome::Continuing(next) ==> !next.is_in_check(
                self.turn,
            ),
            self.play_move(m) matches MoveOutcome::Promote(next, _) ==> !next.is_in_check(
                self.turn,
            ),
    {
        if !(m is Resign) && self.is_legal_move(m, self.turn) {
            self.lemma_legal_move_is_safe(m);
            let after = self.apply_move(m);
            let checked = after.check_available_pawn_promotion();
            after.lemma_threats_are_of_the_squares(
                checked,
                Position { row: 0, col: 0 },
                self.turn,
            );
            after.lemma_threats_are_of_the_squares(
                checked.change_turn(),
                Position { row: 0, col: 0 },
                self.turn,
            );
        }
    }
}

} // verus!
