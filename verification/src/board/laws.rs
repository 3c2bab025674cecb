//! What holds of every board: laws of the rules, proved of the model.

use vstd::prelude::*;
use vstd::math::abs;
use crate::board::view::{square_index, square_position, BoardView};
use crate::piece::legal_for;
use crate::sequences::{lemma_add_contains, lemma_filter_contains};
use crate::board::types::MoveOutcome;
use crate::{CastlingRights, Color, Move, Piece, Position};

verus! {

/// A legal move of a piece never leaves the king of the mover in check: on
/// the board after the move, the king of `color` stands on no threatened
/// square.
pub proof fn lemma_legal_piece_move_is_safe(board: BoardView, m: Move, color: Color)
    requires
        board.wf(),
        m is Piece,
        board.is_legal_move(m, color),
    ensures
        !board.apply_move(m).is_in_check(color),
{
}

/// To resign changes nothing: the board after it is the board before it,
/// and every square holds what it held.
pub proof fn lemma_resign_changes_nothing(board: BoardView, pos: Position)
    ensures
        board.apply_move(Move::Resign) == board,
        board.apply_move(Move::Resign).get_piece(pos) == board.get_piece(pos),
{
}

/// A pawn on its starting rank with both squares before it free has the
/// single and the double push among its candidate moves, and each of the two
/// is among its legal moves exactly if it passes for a legal move. A pawn
/// that is not on its starting rank has no double push.
pub proof fn lemma_pawn_pushes(board: BoardView, color: Color, pos: Position)
    requires
        board.wf(),
        pos.spec_is_on_board(),
    ensures
        ({
            let pawn = Piece::Pawn(color, pos);
            let up = pos.spec_pawn_up(color);
            let next_up = up.spec_pawn_up(color);
            let single = Move::Piece(pos, up);
            let double = Move::Piece(pos, next_up);
            &&& pos.spec_is_starting_pawn(color) && board.has_no_piece(up) && board.has_no_piece(
                next_up,
            ) ==> {
                &&& pawn.candidate_moves(board).contains(single)
                &&& pawn.candidate_moves(board).contains(double)
                &&& pawn.spec_get_legal_moves(board).contains(single) == board.is_legal_move(
                    single,
                    color,
                )
                &&& pawn.spec_get_legal_moves(board).contains(double) == board.is_legal_move(
                    double,
                    color,
                )
            }
            &&& !pos.spec_is_starting_pawn(color) ==> {
                &&& !pawn.candidate_moves(board).contains(double)
                &&& !pawn.spec_get_legal_moves(board).contains(double)
            }
        }),
{
    let pawn = Piece::Pawn(color, pos);
    let up = pos.spec_pawn_up(color);
    let next_up = up.spec_pawn_up(color);
    let single = Move::Piece(pos, up);
    let double = Move::Piece(pos, next_up);
    let candidates = pawn.candidate_moves(board);
    let keeps = legal_for(board, color);
    lemma_filter_contains(candidates, keeps, single);
    lemma_filter_contains(candidates, keeps, double);
    if pos.spec_is_starting_pawn(color) && board.has_no_piece(up) && board.has_no_piece(next_up) {
        lemma_pawn_candidate_index(board, color, pos, 1);
        lemma_pawn_candidate_index(board, color, pos, 2);
    }
    if !pos.spec_is_starting_pawn(color) {
        if candidates.contains(double) {
            let i = choose|i: int| 0 <= i < candidates.len() && candidates[i] == double;
            lemma_pawn_candidate_targets(board, color, pos, i);
        }
    }
}

/// The pushes of a pawn, in general: a pawn on the board has the double push
/// among its candidate moves exactly if it stands on its starting rank and
/// both squares before it are free, and the single push exactly if the
/// square before it is on the board and free; and every candidate move of
/// the pawn starts on its square.
pub proof fn lemma_pawn_candidates(board: BoardView, color: Color, pos: Position)
    requires
        pos.spec_is_on_board(),
    ensures
        ({
            let up = pos.spec_pawn_up(color);
            let next_up = up.spec_pawn_up(color);
            let candidates = Piece::pawn_candidates(color, pos, board);
            &&& candidates.contains(Move::Piece(pos, next_up)) == (pos.spec_is_starting_pawn(color)
                && board.has_no_piece(up) && board.has_no_piece(next_up))
            &&& candidates.contains(Move::Piece(pos, up)) == (up.spec_is_on_board()
                && board.has_no_piece(up))
            &&& forall|i: int|
                0 <= i < candidates.len() ==> (#[trigger] candidates[i] matches Move::Piece(
                    from,
                    _,
                ) && from == pos)
        }),
{
    let up = pos.spec_pawn_up(color);
    let next_up = up.spec_pawn_up(color);
    let up_left = up.spec_next_left();
    let up_right = up.spec_next_right();
    let candidates = Piece::pawn_candidates(color, pos, board);
    let en_passant: Seq<Move> = if board.en_passant matches Some(target) && (target == up_left
        || target == up_right) {
        seq![Move::Piece(pos, board.en_passant->0)]
    } else {
        Seq::empty()
    };
    let double_push: Seq<Move> = if next_up.spec_is_on_board() && pos.spec_is_starting_pawn(color)
        && board.has_no_piece(up) && board.has_no_piece(next_up) {
        seq![Move::Piece(pos, next_up)]
    } else {
        Seq::empty()
    };
    let single_push: Seq<Move> = if up.spec_is_on_board() && board.has_no_piece(up) {
        seq![Move::Piece(pos, up)]
    } else {
        Seq::empty()
    };
    let capture_left: Seq<Move> = if up_left.spec_is_on_board() && board.has_enemy_piece(
        up_left,
        color,
    ) {
        seq![Move::Piece(pos, up_left)]
    } else {
        Seq::empty()
    };
    let capture_right: Seq<Move> = if up_right.spec_is_on_board() && board.has_enemy_piece(
        up_right,
        color,
    ) {
        seq![Move::Piece(pos, up_right)]
    } else {
        Seq::empty()
    };
    assert(candidates == en_passant + double_push + single_push + capture_left + capture_right);
    let double = Move::Piece(pos, next_up);
    let single = Move::Piece(pos, up);
    lemma_add_contains(en_passant + double_push + single_push + capture_left, capture_right, double);
    lemma_add_contains(en_passant + double_push + single_push, capture_left, double);
    lemma_add_contains(en_passant + double_push, single_push, double);
    lemma_add_contains(en_passant, double_push, double);
    lemma_add_contains(en_passant + double_push + single_push + capture_left, capture_right, single);
    lemma_add_contains(en_passant + double_push + single_push, capture_left, single);
    lemma_add_contains(en_passant + double_push, single_push, single);
    lemma_add_contains(en_passant, double_push, single);
    assert(en_passant.contains(double) ==> en_passant[0] == double);
    assert(en_passant.contains(single) ==> en_passant[0] == single);
    assert(double_push.contains(double) == (double_push.len() == 1)) by {
        if double_push.len() == 1 {
            assert(double_push[0] == double);
        }
    }
    assert(double_push.contains(single) ==> double_push[0] == single);
    assert(single_push.contains(single) == (single_push.len() == 1)) by {
        if single_push.len() == 1 {
            assert(single_push[0] == single);
        }
    }
    assert(single_push.contains(double) ==> single_push[0] == double);
    assert(capture_left.contains(double) ==> capture_left[0] == double);
    assert(capture_left.contains(single) ==> capture_left[0] == single);
    assert(capture_right.contains(double) ==> capture_right[0] == double);
    assert(capture_right.contains(single) ==> capture_right[0] == single);
}

/// The five kinds of candidate moves of a pawn, by number: 0 the en passant
/// capture, 1 the double push, 2 the single push, 3 the capture to the left,
/// 4 the capture to the right. Each is among the candidates exactly if the
/// board allows it.
pub proof fn lemma_pawn_candidate_index(board: BoardView, color: Color, pos: Position, kind: int)
    requires
        0 <= kind < 5,
    ensures
        ({
            let up = pos.spec_pawn_up(color);
            let next_up = up.spec_pawn_up(color);
            let up_left = up.spec_next_left();
            let up_right = up.spec_next_right();
            let candidates = Piece::pawn_candidates(color, pos, board);
            &&& kind == 1 && next_up.spec_is_on_board() && pos.spec_is_starting_pawn(color)
                && board.has_no_piece(up) && board.has_no_piece(next_up) ==> candidates.contains(
                Move::Piece(pos, next_up),
            )
            &&& kind == 2 && up.spec_is_on_board() && board.has_no_piece(up)
                ==> candidates.contains(Move::Piece(pos, up))
            &&& kind == 0 && board.en_passant is Some && (board.en_passant->0 == up_left
                || board.en_passant->0 == up_right) ==> candidates.contains(
                Move::Piece(pos, board.en_passant->0),
            )
            &&& kind == 3 && up_left.spec_is_on_board() && board.has_enemy_piece(up_left, color)
                ==> candidates.contains(Move::Piece(pos, up_left))
            &&& kind == 4 && up_right.spec_is_on_board() && board.has_enemy_piece(up_right, color)
                ==> candidates.contains(Move::Piece(pos, up_right))
        }),
{
    let up = pos.spec_pawn_up(color);
    let next_up = up.spec_pawn_up(color);
    let up_left = up.spec_next_left();
    let up_right = up.spec_next_right();
    let candidates = Piece::pawn_candidates(color, pos, board);
    let en_passant: Seq<Move> = if board.en_passant matches Some(target) && (target == up_left
        || target == up_right) {
        seq![Move::Piece(pos, board.en_passant->0)]
    } else {
        Seq::empty()
    };
    let double_push: Seq<Move> = if next_up.spec_is_on_board() && pos.spec_is_starting_pawn(color)
        && board.has_no_piece(up) && board.has_no_piece(next_up) {
        seq![Move::Piece(pos, next_up)]
    } else {
        Seq::empty()
    };
    let single_push: Seq<Move> = if up.spec_is_on_board() && board.has_no_piece(up) {
        seq![Move::Piece(pos, up)]
    } else {
        Seq::empty()
    };
    let capture_left: Seq<Move> = if up_left.spec_is_on_board() && board.has_enemy_piece(
        up_left,
        color,
    ) {
        seq![Move::Piece(pos, up_left)]
    } else {
        Seq::empty()
    };
    let capture_right: Seq<Move> = if up_right.spec_is_on_board() && board.has_enemy_piece(
        up_right,
        color,
    ) {
        seq![Move::Piece(pos, up_right)]
    } else {
        Seq::empty()
    };
    assert(candidates == en_passant + double_push + single_push + capture_left + capture_right);
    if kind == 0 && en_passant.len() == 1 {
        assert(candidates[0] == en_passant[0]);
    }
    if kind == 1 && double_push.len() == 1 {
        assert(candidates[en_passant.len() as int] == double_push[0]);
    }
    if kind == 2 && single_push.len() == 1 {
        assert(candidates[(en_passant.len() + double_push.len()) as int] == single_push[0]);
    }
    if kind == 3 && capture_left.len() == 1 {
        assert(candidates[(en_passant.len() + double_push.len() + single_push.len()) as int]
            == capture_left[0]);
    }
    if kind == 4 && capture_right.len() == 1 {
        assert(candidates[(en_passant.len() + double_push.len() + single_push.len()
            + capture_left.len()) as int] == capture_right[0]);
    }
}

/// Where a candidate move of a pawn goes: onto the en passant square, two
/// squares forward from the starting rank, one square forward, or one square
/// diagonally forward.
proof fn lemma_pawn_candidate_targets(board: BoardView, color: Color, pos: Position, i: int)
    requires
        0 <= i < Piece::pawn_candidates(color, pos, board).len(),
    ensures
        ({
            let up = pos.spec_pawn_up(color);
            let m = Piece::pawn_candidates(color, pos, board)[i];
            ||| (board.en_passant is Some && m == Move::Piece(pos, board.en_passant->0)
                && (board.en_passant->0 == up.spec_next_left() || board.en_passant->0
                == up.spec_next_right()))
            ||| (pos.spec_is_starting_pawn(color) && m == Move::Piece(pos, up.spec_pawn_up(color)))
            ||| m == Move::Piece(pos, up)
            ||| m == Move::Piece(pos, up.spec_next_left())
            ||| m == Move::Piece(pos, up.spec_next_right())
        }),
{
}

/// The en passant square lasts one move: after a move that changes the
/// board, the board has an en passant square only if that move was the
/// double push of a pawn from its starting rank, and then it is the square
/// that the pawn has passed. What the en passant square was before the move
/// plays no part. Only to resign, and to castle without a king, leave the
/// board as it is, and so its en passant square.
pub proof fn lemma_en_passant_lasts_one_move(board: BoardView, m: Move)
    requires
        board.wf(),
    ensures
        m is Resign || (!(m is Piece) && board.get_king_pos(board.turn) is None)
            ==> board.apply_move(m) == board,
        !(m is Resign || (!(m is Piece) && board.get_king_pos(board.turn) is None)) ==> (
        board.apply_move(m).en_passant matches Some(en_passant) ==> (m matches Move::Piece(
            from,
            to,
        ) && board.get_piece(from) matches Some(piece) && piece.spec_is_starting_pawn() && abs(
            from.row - to.row,
        ) == 2 && en_passant == to.spec_pawn_back(piece.spec_get_color()))),
{
    match m {
        Move::KingSideCastle => {
            if let Some(king_pos) = board.get_king_pos(board.turn) {
                board.lemma_king_pos_among(board.turn, 64);
                let rook_pos = Position { row: BoardView::back_row(board.turn), col: 7 };
                let first = board.move_piece(king_pos, rook_pos.spec_next_left());
                lemma_move_piece_wf(board, king_pos, rook_pos.spec_next_left());
                lemma_no_double_push_from_back_rank(first, rook_pos, king_pos.spec_next_right());
            }
        },
        Move::QueenSideCastle => {
            if let Some(king_pos) = board.get_king_pos(board.turn) {
                board.lemma_king_pos_among(board.turn, 64);
                let rook_pos = Position { row: BoardView::back_row(board.turn), col: 0 };
                let first = board.move_piece(king_pos, king_pos.spec_next_left().spec_next_left());
                lemma_move_piece_wf(board, king_pos, king_pos.spec_next_left().spec_next_left());
                lemma_no_double_push_from_back_rank(first, rook_pos, king_pos.spec_next_left());
            }
        },
        _ => {},
    }
}

/// To put a piece elsewhere keeps a valid board valid.
pub proof fn lemma_move_piece_wf(board: BoardView, from: Position, to: Position)
    requires
        board.wf(),
    ensures
        board.move_piece(from, to).wf(),
{
    if from.spec_is_on_board() && to.spec_is_on_board() {
        if let Some(piece) = board.get_piece(from) {
            assert(board.squares[square_index(from)] == Some(piece));
            assert(piece.spec_get_pos() == from);
            assert(square_position(square_index(to)) == to);
        }
    }
}

/// What leaves a square of the first or of the last rank leaves no en
/// passant square behind: no pawn starts there.
proof fn lemma_no_double_push_from_back_rank(board: BoardView, from: Position, to: Position)
    requires
        board.wf(),
        from.row == 0 || from.row == 7,
    ensures
        board.move_piece(from, to).en_passant is None,
{
    if from.spec_is_on_board() && to.spec_is_on_board() {
        if let Some(piece) = board.get_piece(from) {
            assert(board.squares[square_index(from)] == Some(piece));
            assert(piece.spec_get_pos() == from);
        }
    }
}

/// Without an en passant square there is no en passant capture: on a board
/// that has none, a pawn's candidate moves that go diagonally go onto a
/// piece of the other color, and no move of a pawn is an en passant capture.
pub proof fn lemma_no_en_passant_without_square(
    board: BoardView,
    color: Color,
    pos: Position,
    to: Position,
)
    requires
        board.en_passant is None,
        Piece::pawn_candidates(color, pos, board).contains(Move::Piece(pos, to)),
    ensures
        !board.is_en_passant_capture(color, pos, to),
        to.col != pos.col ==> board.has_enemy_piece(to, color),
        to.col == pos.col ==> board.has_no_piece(to),
{
    let candidates = Piece::pawn_candidates(color, pos, board);
    let i = choose|i: int| 0 <= i < candidates.len() && candidates[i] == Move::Piece(pos, to);
    lemma_pawn_candidate_targets(board, color, pos, i);
    let up = pos.spec_pawn_up(color);
    let next_up = up.spec_pawn_up(color);
    let up_left = up.spec_next_left();
    let up_right = up.spec_next_right();
    let double_push: Seq<Move> = if next_up.spec_is_on_board() && pos.spec_is_starting_pawn(color)
        && board.has_no_piece(up) && board.has_no_piece(next_up) {
        seq![Move::Piece(pos, next_up)]
    } else {
        Seq::empty()
    };
    let single_push: Seq<Move> = if up.spec_is_on_board() && board.has_no_piece(up) {
        seq![Move::Piece(pos, up)]
    } else {
        Seq::empty()
    };
    let capture_left: Seq<Move> = if up_left.spec_is_on_board() && board.has_enemy_piece(
        up_left,
        color,
    ) {
        seq![Move::Piece(pos, up_left)]
    } else {
        Seq::empty()
    };
    let capture_right: Seq<Move> = if up_right.spec_is_on_board() && board.has_enemy_piece(
        up_right,
        color,
    ) {
        seq![Move::Piece(pos, up_right)]
    } else {
        Seq::empty()
    };
    assert(candidates =~= double_push + single_push + capture_left + capture_right);
}

/// A double push opens the en passant capture: after a pawn has gone two
/// squares forward from its starting rank, the square it has passed is the
/// en passant square, and a pawn of the other color beside where it stands
/// has the capture onto that square among its candidate moves, and among its
/// legal moves if the capture passes for a legal move.
pub proof fn lemma_double_push_opens_en_passant(
    board: BoardView,
    from: Position,
    to: Position,
    capturer: Position,
)
    requires
        board.wf(),
        from.spec_is_on_board(),
        to.spec_is_on_board(),
        board.get_piece(from) matches Some(piece) && piece.spec_is_starting_pawn(),
        abs(from.row - to.row) == 2,
        capturer.spec_is_on_board(),
        capturer.row == to.row,
        abs(capturer.col - to.col) == 1,
    ensures
        ({
            let mover = board.get_piece(from)->0.spec_get_color();
            let after = board.apply_move(Move::Piece(from, to));
            let passed = to.spec_pawn_back(mover);
            let capture = Move::Piece(capturer, passed);
            let pawn = Piece::Pawn(mover.spec_opposite(), capturer);
            &&& after.en_passant == Some(passed)
            &&& pawn.candidate_moves(after).contains(capture)
            &&& pawn.spec_get_legal_moves(after).contains(capture) == after.is_legal_move(
                capture,
                mover.spec_opposite(),
            )
        }),
{
    let mover = board.get_piece(from)->0.spec_get_color();
    let after = board.apply_move(Move::Piece(from, to));
    let passed = to.spec_pawn_back(mover);
    let capture = Move::Piece(capturer, passed);
    let pawn = Piece::Pawn(mover.spec_opposite(), capturer);
    assert(board.squares[square_index(from)] == Some(board.get_piece(from)->0));
    assert(board.get_piece(from)->0.spec_get_pos() == from);
    assert(after.en_passant == Some(passed));
    lemma_pawn_candidate_index(after, mover.spec_opposite(), capturer, 0);
    lemma_filter_contains(
        pawn.candidate_moves(after),
        legal_for(after, mover.spec_opposite()),
        capture,
    );
}

/// Whether `after` holds no right that `before` does not hold.
pub open spec fn no_more_rights(after: CastlingRights, before: CastlingRights) -> bool {
    (after.kingside ==> before.kingside) && (after.queenside ==> before.queenside)
}

/// To put a piece elsewhere grants no castling right.
proof fn lemma_move_piece_grants_no_right(
    board: BoardView,
    from: Position,
    to: Position,
    color: Color,
)
    ensures
        no_more_rights(
            board.move_piece(from, to).castling_rights(color),
            board.castling_rights(color),
        ),
{
}

/// Castling rights are only ever lost: after any move each player holds no
/// castling right that the player did not hold before it.
pub proof fn lemma_castling_rights_only_shrink(board: BoardView, m: Move, color: Color)
    ensures
        no_more_rights(board.apply_move(m).castling_rights(color), board.castling_rights(color)),
{
    match m {
        Move::KingSideCastle => {
            if let Some(king_pos) = board.get_king_pos(board.turn) {
                let rook_pos = Position { row: BoardView::back_row(board.turn), col: 7 };
                let first = board.move_piece(king_pos, rook_pos.spec_next_left());
                lemma_move_piece_grants_no_right(
                    board,
                    king_pos,
                    rook_pos.spec_next_left(),
                    color,
                );
                lemma_move_piece_grants_no_right(
                    first,
                    rook_pos,
                    king_pos.spec_next_right(),
                    color,
                );
            }
        },
        Move::QueenSideCastle => {
            if let Some(king_pos) = board.get_king_pos(board.turn) {
                let rook_pos = Position { row: BoardView::back_row(board.turn), col: 0 };
                let first = board.move_piece(
                    king_pos,
                    king_pos.spec_next_left().spec_next_left(),
                );
                lemma_move_piece_grants_no_right(
                    board,
                    king_pos,
                    king_pos.spec_next_left().spec_next_left(),
                    color,
                );
                lemma_move_piece_grants_no_right(
                    first,
                    rook_pos,
                    king_pos.spec_next_left(),
                    color,
                );
            }
        },
        Move::Piece(from, to) => {
            lemma_move_piece_grants_no_right(board, from, to, color);
        },
        Move::Resign => {},
    }
}

/// A king that moves loses both castling rights of its color, and a rook
/// that leaves its starting square the right of its side.
pub proof fn lemma_moved_king_and_rook_lose_rights(board: BoardView, from: Position, to: Position)
    requires
        board.wf(),
        from.spec_is_on_board(),
        to.spec_is_on_board(),
        board.get_piece(from) is Some,
    ensures
        ({
            let piece = board.get_piece(from)->0;
            let rights = board.apply_move(Move::Piece(from, to)).castling_rights(
                piece.spec_get_color(),
            );
            &&& piece is King ==> !rights.kingside && !rights.queenside
            &&& piece.spec_is_kingside_rook() ==> !rights.kingside
            &&& piece.spec_is_queenside_rook() ==> !rights.queenside
        }),
{
}

/// A move from or to a position off the board moves nothing: the board
/// keeps its squares, its castling rights and its turn, and only forgets the
/// en passant square and the captured piece.
pub proof fn lemma_move_off_the_board(board: BoardView, from: Position, to: Position)
    requires
        from.spec_is_off_board() || to.spec_is_off_board(),
    ensures
        board.move_piece(from, to) == (BoardView { en_passant: None, taken_piece: None, ..board }),
{
}

/// The captured piece lasts one move: after the move of a piece the board
/// remembers a captured piece exactly if the move took a piece from its
/// square to another square on which a piece of the color that is not to
/// move stood, and then it is that piece. What was captured before plays no
/// part; a pawn captured en passant is not remembered.
pub proof fn lemma_taken_piece_lasts_one_move(board: BoardView, from: Position, to: Position)
    requires
        board.wf(),
    ensures
        board.apply_move(Move::Piece(from, to)).taken_piece == (if from.spec_is_on_board()
            && to.spec_is_on_board() && board.has_piece(from) && from != to
            && board.has_enemy_piece(to, board.turn) {
            board.get_piece(to)
        } else {
            None
        }),
{
    if from.spec_is_on_board() && to.spec_is_on_board() {
        assert(square_position(square_index(from)) == from);
        assert(square_position(square_index(to)) == to);
    }
}

/// The turn passes once with each completed move: where `play_move` lets
/// the game go on, the other player is to move and no promotion is pending;
/// where it asks for a promotion, the mover is still to move, the pawn
/// stands on the square it names, and after the promotion the other player
/// is to move.
pub proof fn lemma_turn_passes_once(board: BoardView, m: Move)
    requires
        board.wf(),
    ensures
        board.play_move(m) matches MoveOutcome::Continuing(next) ==> next.turn
            == board.turn.spec_opposite() && next.promotion is None,
        board.play_move(m) matches MoveOutcome::Promote(next, pos) ==> next.turn == board.turn
            && next.promotion == Some(pos) && (forall|promotion: crate::Promotion|
            #![trigger next.promote(promotion)]
            next.promote(promotion).turn == board.turn.spec_opposite() && next.promote(
                promotion,
            ).promotion is None),
{
    lemma_apply_move_keeps_turn(board, m);
}

/// To apply a move does not pass the turn.
pub proof fn lemma_apply_move_keeps_turn(board: BoardView, m: Move)
    ensures
        board.apply_move(m).turn == board.turn,
{
}

} // verus!
