//! Rating positions and choosing moves: minimax with alpha-beta pruning.
//!
//! Scores count half points, so that every score is an integer: a pawn is
//! worth 20 of them and the positional bonuses run from -10 to 10.

use vstd::prelude::*;
use crate::board::view::BoardView;
use crate::board::Board;
use crate::{Color, Move};

verus! {

/// A move and its score in half points.
pub type RatedMove = (Move, i32);

/// The score of a player who has no move left: what a maximizing search
/// starts from.
pub const LOWEST_SCORE: i32 = -1_999_998;

/// The score of a player whose opponent has no move left: what a minimizing
/// search starts from.
pub const HIGHEST_SCORE: i32 = 1_999_998;

/// The bounds of the window with which a search of a whole position starts.
pub const WINDOW: i32 = 2_000_000;

/// No position is worth more than this, or less than its negative, to either
/// player: 64 times the most a piece can be worth.
pub const SCORE_LIMIT: i32 = 128_000_000;

/// The shares of White and of Black in a rating, from the outlook of the
/// player to move and that of the opponent. A negative outlook is made
/// positive and twice its amount added to the other: first the mover's, then
/// the opponent's.
pub open spec fn rating_shares(yours: int, theirs: int, turn: Color) -> (int, int) {
    let (yours, theirs) = if yours < 0 {
        (-yours, theirs - 2 * yours)
    } else {
        (yours, theirs)
    };
    let (yours, theirs) = if theirs < 0 {
        (yours - 2 * theirs, -theirs)
    } else {
        (yours, theirs)
    };
    match turn {
        Color::White => (yours, theirs),
        Color::Black => (theirs, yours),
    }
}

impl BoardView {
    /// The board on which the search goes on after `m`: the board after the
    /// move, with the other player to move.
    pub open spec fn after_ply(self, m: Move) -> BoardView {
        self.apply_move(m).change_turn()
    }

    /// The score of the position for `getting_move_for`, looking `depth`
    /// plies ahead within the window from `alpha` to `beta`.
    ///
    /// With no ply left it is `get_player_value`. Else the legal moves of
    /// the player to move are tried in their order, each on the board after
    /// it, on which the other player is to move, with one ply less and the
    /// other side choosing; see `minimax_from`. So the players move in
    /// turn, ply by ply.
    pub open spec fn minimax(
        self,
        depth: nat,
        alpha: int,
        beta: int,
        is_maximizing: bool,
        getting_move_for: Color,
    ) -> int
        decreases depth, 1nat, 0nat,
    {
        if depth == 0 {
            self.get_player_value(getting_move_for)
        } else {
            self.minimax_from(
                self.get_legal_moves(self.turn),
                0,
                depth,
                alpha,
                beta,
                is_maximizing,
                getting_move_for,
                if is_maximizing {
                    LOWEST_SCORE as int
                } else {
                    HIGHEST_SCORE as int
                },
            )
        }
    }

    /// The score that the search arrives at from the move at `index` of
    /// `moves` on, when the best score of the moves before is `best`.
    ///
    /// A maximizing search raises `best` to the score of the move where that
    /// is higher, then `alpha` to `best`; a minimizing one lowers `best`,
    /// then `beta`. Once `beta` is no more than `alpha` the remaining moves
    /// are cut off and `best` is the score.
    pub open spec fn minimax_from(
        self,
        moves: Seq<Move>,
        index: int,
        depth: nat,
        alpha: int,
        beta: int,
        is_maximizing: bool,
        getting_move_for: Color,
        best: int,
    ) -> int
        decreases depth, 0nat, moves.len() - index,
    {
        if depth == 0 || index < 0 || index >= moves.len() {
            best
        } else {
            let child = self.after_ply(moves[index]).minimax(
                (depth - 1) as nat,
                alpha,
                beta,
                !is_maximizing,
                getting_move_for,
            );
            if is_maximizing {
                let best = if child > best {
                    child
                } else {
                    best
                };
                let alpha = if best > alpha {
                    best
                } else {
                    alpha
                };
                if beta <= alpha {
                    best
                } else {
                    self.minimax_from(
                        moves,
                        index + 1,
                        depth,
                        alpha,
                        beta,
                        is_maximizing,
                        getting_move_for,
                        best,
                    )
                }
            } else {
                let best = if child < best {
                    child
                } else {
                    best
                };
                let beta = if best < beta {
                    best
                } else {
                    beta
                };
                if beta <= alpha {
                    best
                } else {
                    self.minimax_from(
                        moves,
                        index + 1,
                        depth,
                        alpha,
                        beta,
                        is_maximizing,
                        getting_move_for,
                        best,
                    )
                }
            }
        }
    }

    /// The legal moves of the player to move, each with the score that the
    /// board after it, on which the other player is to move, has for
    /// `getting_move_for` in a search of `depth` plies, started maximizing
    /// or not, within the widest window.
    pub open spec fn rate_moves(
        self,
        depth: nat,
        is_maximizing: bool,
        getting_move_for: Color,
    ) -> Seq<(Move, int)> {
        let moves = self.get_legal_moves(self.turn);
        Seq::new(
            moves.len(),
            |i: int|
                (
                    moves[i],
                    self.after_ply(moves[i]).minimax(
                        depth,
                        -(WINDOW as int),
                        WINDOW as int,
                        is_maximizing,
                        getting_move_for,
                    ),
                ),
        )
    }

    /// The legal moves of the player to move, each with the score that the
    /// board after it has for that player when the opponent answers as well
    /// as it can: in a search of `depth` plies that starts with the
    /// opponent's move and minimizing.
    pub open spec fn rate_legal_moves(self, depth: nat) -> Seq<(Move, int)> {
        self.rate_moves(depth, false, self.turn)
    }

    /// The one of the first `n` rated moves that has the highest score; of
    /// several with that score, the last.
    pub open spec fn highest_among(rated: Seq<(Move, int)>, n: int) -> (Move, int)
        decreases n,
    {
        if n <= 1 {
            rated[0]
        } else {
            let before = Self::highest_among(rated, n - 1);
            if before.1 > rated[n - 1].1 {
                before
            } else {
                rated[n - 1]
            }
        }
    }

    /// The rated move with the highest score, of several the last; to
    /// resign, with the lowest score there is, where no move is rated.
    pub open spec fn highest_rated(rated: Seq<(Move, int)>) -> (Move, int) {
        if rated.len() == 0 {
            (Move::Resign, LOWEST_SCORE as int)
        } else {
            Self::highest_among(rated, rated.len() as int)
        }
    }

    /// The best move of the player to move with its score: of the moves
    /// that `rate_legal_moves` rates the one with the highest score, of
    /// several the last; to resign where there is none.
    pub open spec fn get_best_next_move(self, depth: nat) -> (Move, int) {
        Self::highest_rated(self.rate_legal_moves(depth))
    }

    /// The worst move of the player to move: of its legal moves the one
    /// after which the board is worth most to the opponent in a search of
    /// `depth` plies that starts with the opponent's move and maximizing, of
    /// several the last; to resign where there is none. The score is the
    /// opponent's.
    pub open spec fn get_worst_next_move(self, depth: nat) -> (Move, int) {
        Self::highest_rated(self.rate_moves(depth, true, self.turn.spec_opposite()))
    }

    /// The sum of the scores of the best and of the worst next move.
    pub open spec fn outlook(self, depth: nat) -> int {
        self.get_best_next_move(depth).1 + self.get_worst_next_move(depth).1
    }

    /// The shares of White and of Black in the rating of the position.
    ///
    /// The share of the player to move is its outlook, that of the opponent
    /// its outlook after the mover's best move; see `rating_shares`.
    pub open spec fn get_rating(self, depth: nat) -> (int, int) {
        rating_shares(
            self.outlook(depth),
            self.after_ply(self.get_best_next_move(depth).0).outlook(depth),
            self.turn,
        )
    }
}

impl Board {
    /// The weighted values of the pieces of `color` minus those of the other
    /// color, in half points.
    pub fn get_player_value(&self, color: Color) -> (value: i32)
        requires
            self.wf(),
        ensures
            value == self@.get_player_value(color),
            -SCORE_LIMIT <= value <= SCORE_LIMIT,
    {
        let mut total: i32 = 0;
        let mut i: usize = 0;
        while i < 64
            invariant
                0 <= i <= 64,
                self.wf(),
                total == self@.value_among(color, i as int),
                -2_000_000 * i <= total <= 2_000_000 * i,
            decreases 64 - i,
        {
            match self.squares[i].get_piece() {
                Some(piece) => {
                    assert(self@.squares[i as int] == Some(piece));
                    proof {
                        piece.lemma_weighted_value_bounds();
                    }
                    if piece.get_color() == color {
                        total = total + piece.get_weighted_value();
                    } else {
                        total = total - piece.get_weighted_value();
                    }
                },
                None => {},
            }
            i += 1;
        }
        total
    }

    /// The board on which the search goes on after `m`: the board after the
    /// move, with the other player to move.
    pub fn after_ply(&self, m: Move) -> (next: Board)
        requires
            self.wf(),
        ensures
            next@ == self@.after_ply(m),
            next.wf(),
    {
        self.apply_move(m).change_turn()
    }

    /// The score of the position for `getting_move_for`, looking `depth`
    /// plies ahead within the window from `alpha` to `beta`: the players
    /// move in turn, one choosing the move with the highest score, the other
    /// that with the lowest, and moves that cannot change the outcome are
    /// cut off. See [`BoardView::minimax`].
    ///
    /// The cost grows with the number of legal moves to the power of
    /// `depth`: it is for the caller to bound the depth.
    pub fn minimax(
        &self,
        depth: usize,
        alpha: i32,
        beta: i32,
        is_maximizing: bool,
        getting_move_for: Color,
    ) -> (value: i32)
        requires
            self.wf(),
        ensures
            value == self@.minimax(
                depth as nat,
                alpha as int,
                beta as int,
                is_maximizing,
                getting_move_for,
            ),
            -SCORE_LIMIT <= value <= SCORE_LIMIT,
        decreases depth,
    {
        if depth == 0 {
            return self.get_player_value(getting_move_for);
        }
        let legal_moves = self.get_legal_moves(self.get_turn());
        let mut lower = alpha;
        let mut upper = beta;
        let ghost goal = self@.minimax(
            depth as nat,
            alpha as int,
            beta as int,
            is_maximizing,
            getting_move_for,
        );
        let mut best_move_value: i32 = if is_maximizing {
            LOWEST_SCORE
        } else {
            HIGHEST_SCORE
        };
        let mut i: usize = 0;
        while i < legal_moves.len()
            invariant
                0 <= i <= legal_moves@.len(),
                depth > 0,
                self.wf(),
                legal_moves@ == self@.get_legal_moves(self@.turn),
                -SCORE_LIMIT <= best_move_value <= SCORE_LIMIT,
                goal == self@.minimax(
                    depth as nat,
                    alpha as int,
                    beta as int,
                    is_maximizing,
                    getting_move_for,
                ),
                goal == self@.minimax_from(
                    legal_moves@,
                    i as int,
                    depth as nat,
                    lower as int,
                    upper as int,
                    is_maximizing,
                    getting_move_for,
                    best_move_value as int,
                ),
            decreases legal_moves@.len() - i,
        {
            let child_board_value = self.after_ply(legal_moves[i]).minimax(
                depth - 1,
                lower,
                upper,
                !is_maximizing,
                getting_move_for,
            );
            let ghost before = (lower, upper, best_move_value);
            if is_maximizing {
                if child_board_value > best_move_value {
                    best_move_value = child_board_value;
                }
                if best_move_value > lower {
                    lower = best_move_value
                }
            } else {
                if child_board_value < best_move_value {
                    best_move_value = child_board_value;
                }
                if best_move_value < upper {
                    upper = best_move_value
                }
            }
            assert(goal == (if upper <= lower {
                best_move_value as int
            } else {
                self@.minimax_from(
                    legal_moves@,
                    i + 1,
                    depth as nat,
                    lower as int,
                    upper as int,
                    is_maximizing,
                    getting_move_for,
                    best_move_value as int,
                )
            })) by {
                assert(goal == self@.minimax_from(
                    legal_moves@,
                    i as int,
                    depth as nat,
                    before.0 as int,
                    before.1 as int,
                    is_maximizing,
                    getting_move_for,
                    before.2 as int,
                ));
            }
            if upper <= lower {
                return best_move_value;
            }
            i += 1;
        }
        best_move_value
    }
}

/// Rated moves with their scores as mathematical integers.
pub open spec fn scores(rated: Seq<RatedMove>) -> Seq<(Move, int)> {
    rated.map_values(|rated_move: RatedMove| (rated_move.0, rated_move.1 as int))
}

impl BoardView {
    /// The rated move with the highest score is one of the rated moves, no
    /// rated move has a higher score, and none after it has the same.
    pub proof fn lemma_highest_among(rated: Seq<(Move, int)>, n: int)
        requires
            1 <= n <= rated.len(),
        ensures
            exists|i: int|
                0 <= i < n && rated[i] == Self::highest_among(rated, n) && (forall|j: int|
                    i < j < n ==> rated[j].1 < Self::highest_among(rated, n).1),
            forall|j: int| 0 <= j < n ==> rated[j].1 <= Self::highest_among(rated, n).1,
        decreases n,
    {
        if n > 1 {
            Self::lemma_highest_among(rated, n - 1);
            let before = Self::highest_among(rated, n - 1);
            if before.1 > rated[n - 1].1 {
                let i = choose|i: int|
                    0 <= i < n - 1 && rated[i] == before && (forall|j: int|
                        i < j < n - 1 ==> rated[j].1 < before.1);
                assert(0 <= i < n && rated[i] == Self::highest_among(rated, n) && (forall|j: int|
                    i < j < n ==> rated[j].1 < Self::highest_among(rated, n).1));
            } else {
                assert(0 <= n - 1 < n && rated[n - 1] == Self::highest_among(rated, n) && (
                forall|j: int| n - 1 < j < n ==> rated[j].1 < Self::highest_among(rated, n).1));
            }
        } else {
            assert(0 <= 0 < n && rated[0] == Self::highest_among(rated, n) && (forall|j: int|
                0 < j < n ==> rated[j].1 < Self::highest_among(rated, n).1));
        }
    }
}

/// The rated move with the highest score, of several the last; to resign,
/// with the lowest score there is, where no move is rated.
fn highest_rated(rated: &Vec<RatedMove>) -> (highest: RatedMove)
    requires
        forall|i: int|
            0 <= i < rated@.len() ==> -SCORE_LIMIT <= (#[trigger] rated@[i]).1 <= SCORE_LIMIT,
    ensures
        (highest.0, highest.1 as int) == BoardView::highest_rated(scores(rated@)),
        -SCORE_LIMIT <= highest.1 <= SCORE_LIMIT,
{
    if rated.len() == 0 {
        return (Move::Resign, LOWEST_SCORE);
    }
    let mut highest: RatedMove = rated[0];
    let mut i: usize = 1;
    while i < rated.len()
        invariant
            1 <= i <= rated@.len(),
            forall|i: int|
                0 <= i < rated@.len() ==> -SCORE_LIMIT <= (#[trigger] rated@[i]).1 <= SCORE_LIMIT,
            (highest.0, highest.1 as int) == BoardView::highest_among(scores(rated@), i as int),
            -SCORE_LIMIT <= highest.1 <= SCORE_LIMIT,
        decreases rated@.len() - i,
    {
        if !(highest.1 > rated[i].1) {
            highest = rated[i];
        }
        i += 1;
    }
    highest
}

impl Board {
    /// The legal moves of the player to move, each with the score that the
    /// board after it, on which the other player is to move, has for
    /// `getting_move_for` in a search of `depth` plies, started maximizing
    /// or not, within the widest window.
    fn rate_moves(&self, depth: usize, is_maximizing: bool, getting_move_for: Color) -> (rated: Vec<
        RatedMove,
    >)
        requires
            self.wf(),
        ensures
            scores(rated@) == self@.rate_moves(depth as nat, is_maximizing, getting_move_for),
            forall|i: int|
                0 <= i < rated@.len() ==> -SCORE_LIMIT <= (#[trigger] rated@[i]).1 <= SCORE_LIMIT,
    {
        let legal_moves = self.get_legal_moves(self.get_turn());
        let mut rated: Vec<RatedMove> = Vec::new();
        let mut i: usize = 0;
        while i < legal_moves.len()
            invariant
                0 <= i <= legal_moves@.len(),
                self.wf(),
                legal_moves@ == self@.get_legal_moves(self@.turn),
                rated@.len() == i,
                forall|j: int|
                    0 <= j < i ==> (#[trigger] rated@[j]).0 == legal_moves@[j] && rated@[j].1
                        == self@.rate_moves(depth as nat, is_maximizing, getting_move_for)[j].1
                        && -SCORE_LIMIT <= rated@[j].1 <= SCORE_LIMIT,
            decreases legal_moves@.len() - i,
        {
            let m = legal_moves[i];
            let score = self.after_ply(m).minimax(
                depth,
                -WINDOW,
                WINDOW,
                is_maximizing,
                getting_move_for,
            );
            rated.push((m, score));
            i += 1;
        }
        assert(scores(rated@) =~= self@.rate_moves(depth as nat, is_maximizing, getting_move_for));
        rated
    }

    /// The legal moves of the player to move, each with the score that the
    /// board after it has for that player when the opponent answers as well
    /// as it can: in a search of `depth` plies that starts with the
    /// opponent's move and minimizing.
    pub fn rate_legal_moves(&self, depth: usize) -> (rated: Vec<RatedMove>)
        requires
            self.wf(),
        ensures
            scores(rated@) == self@.rate_legal_moves(depth as nat),
            forall|i: int|
                0 <= i < rated@.len() ==> -SCORE_LIMIT <= (#[trigger] rated@[i]).1 <= SCORE_LIMIT,
    {
        self.rate_moves(depth, false, self.get_turn())
    }

    /// The best move of the player to move and its score. Of several moves
    /// with the best score it is the last. A player without a legal move
    /// resigns, with the lowest score there is.
    pub fn get_best_next_move(&self, depth: usize) -> (best: RatedMove)
        requires
            self.wf(),
        ensures
            (best.0, best.1 as int) == self@.get_best_next_move(depth as nat),
            -SCORE_LIMIT <= best.1 <= SCORE_LIMIT,
    {
        let rated = self.rate_legal_moves(depth);
        highest_rated(&rated)
    }

    /// The worst move of the player to move: the one after which the
    /// position is worth most to the opponent, with the score it has for the
    /// opponent. Of several such moves it is the last. A player without a
    /// legal move resigns, with the lowest score there is.
    pub fn get_worst_next_move(&self, depth: usize) -> (worst: RatedMove)
        requires
            self.wf(),
        ensures
            (worst.0, worst.1 as int) == self@.get_worst_next_move(depth as nat),
            -SCORE_LIMIT <= worst.1 <= SCORE_LIMIT,
    {
        let rated = self.rate_moves(depth, true, self.get_turn().opposite());
        highest_rated(&rated)
    }

    /// The sum of the scores of the best and of the worst next move.
    fn outlook(&self, depth: usize) -> (outlook: i64)
        requires
            self.wf(),
        ensures
            outlook == self@.outlook(depth as nat),
            -2 * SCORE_LIMIT <= outlook <= 2 * SCORE_LIMIT,
    {
        let (_, best_val) = self.get_best_next_move(depth);
        let (_, lowest_val) = self.get_worst_next_move(depth);
        best_val as i64 + lowest_val as i64
    }

    /// The shares of White and of Black in the rating of the position, in
    /// this order. The rating of a player in percent is a hundred times its
    /// share, divided by the sum of both. See [`BoardView::get_rating`].
    pub fn get_rating(&self, depth: usize) -> (shares: (i64, i64))
        requires
            self.wf(),
        ensures
            (shares.0 as int, shares.1 as int) == self@.get_rating(depth as nat),
            shares.0 >= 0,
            shares.1 >= 0,
    {
        let (best_m, _) = self.get_best_next_move(depth);
        let your_val = self.outlook(depth);
        let their_val = self.after_ply(best_m).outlook(depth);
        share_out(your_val, their_val, self.get_turn())
    }
}

/// The shares of White and of Black from the two outlooks. See
/// [`rating_shares`].
fn share_out(yours: i64, theirs: i64, turn: Color) -> (shares: (i64, i64))
    requires
        -2 * SCORE_LIMIT <= yours <= 2 * SCORE_LIMIT,
        -2 * SCORE_LIMIT <= theirs <= 2 * SCORE_LIMIT,
    ensures
        (shares.0 as int, shares.1 as int) == rating_shares(yours as int, theirs as int, turn),
{
    let mut your_val = yours;
    let mut their_val = theirs;
    if your_val < 0 {
        your_val = -your_val;
        their_val += your_val * 2;
    }
    if their_val < 0 {
        their_val = -their_val;
        your_val += their_val * 2;
    }
    match turn {
        Color::White => (your_val, their_val),
        Color::Black => (their_val, your_val),
    }
}

} // verus!
