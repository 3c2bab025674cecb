//! What the pruning leaves of minimax: within its window the search finds
//! the score that a search of every move finds.

use vstd::prelude::*;
use crate::board::search::{HIGHEST_SCORE, LOWEST_SCORE, WINDOW};
use crate::board::view::BoardView;
use crate::{Color, Move};

verus! {

impl BoardView {
    /// The score of the position for `getting_move_for` when every move is
    /// tried `depth` plies deep and nothing is cut off: with no ply left
    /// `get_player_value`, else the highest or the lowest of the scores of
    /// the boards after the legal moves of the player to move, on which the
    /// other player moves next; the highest and the lowest are taken ply by
    /// ply in turn; see `full_search_from`.
    pub open spec fn full_search(
        self,
        depth: nat,
        is_maximizing: bool,
        getting_move_for: Color,
    ) -> int
        decreases depth, 1nat, 0nat,
    {
        if depth == 0 {
            self.get_player_value(getting_move_for)
        } else {
            self.full_search_from(
                self.get_legal_moves(self.turn),
                0,
                depth,
                is_maximizing,
                getting_move_for,
            )
        }
    }

    /// The highest, or the lowest, of the scores of the boards after the
    /// moves from `index` on and of the score that a search without moves
    /// has.
    pub open spec fn full_search_from(
        self,
        moves: Seq<Move>,
        index: int,
        depth: nat,
        is_maximizing: bool,
        getting_move_for: Color,
    ) -> int
        decreases depth, 0nat, moves.len() - index,
    {
        if depth == 0 || index < 0 || index >= moves.len() {
            if is_maximizing {
                LOWEST_SCORE as int
            } else {
                HIGHEST_SCORE as int
            }
        } else {
            let child = self.after_ply(moves[index]).full_search(
                (depth - 1) as nat,
                !is_maximizing,
                getting_move_for,
            );
            let rest = self.full_search_from(
                moves,
                index + 1,
                depth,
                is_maximizing,
                getting_move_for,
            );
            if is_maximizing == (child > rest) {
                child
            } else {
                rest
            }
        }
    }

    /// A search of every move that looks for the highest score finds no
    /// less than the score of a search without moves, and one that looks for
    /// the lowest no more.
    proof fn lemma_full_search_from_bound(
        self,
        moves: Seq<Move>,
        index: int,
        depth: nat,
        is_maximizing: bool,
        getting_move_for: Color,
    )
        ensures
            is_maximizing ==> self.full_search_from(
                moves,
                index,
                depth,
                is_maximizing,
                getting_move_for,
            ) >= LOWEST_SCORE,
            !is_maximizing ==> self.full_search_from(
                moves,
                index,
                depth,
                is_maximizing,
                getting_move_for,
            ) <= HIGHEST_SCORE,
        decreases moves.len() - index,
    {
        if !(depth == 0 || index < 0 || index >= moves.len()) {
            self.lemma_full_search_from_bound(
                moves,
                index + 1,
                depth,
                is_maximizing,
                getting_move_for,
            );
        }
    }

    /// The pruning search never falls behind the best score it has: looking
    /// for the highest score it ends no lower than `best`, looking for the
    /// lowest no higher.
    proof fn lemma_minimax_from_keeps_best(
        self,
        moves: Seq<Move>,
        index: int,
        depth: nat,
        alpha: int,
        beta: int,
        is_maximizing: bool,
        getting_move_for: Color,
        best: int,
    )
        ensures
            is_maximizing ==> self.minimax_from(
                moves,
                index,
                depth,
                alpha,
                beta,
                is_maximizing,
                getting_move_for,
                best,
            ) >= best,
            !is_maximizing ==> self.minimax_from(
                moves,
                index,
                depth,
                alpha,
                beta,
                is_maximizing,
                getting_move_for,
                best,
            ) <= best,
        decreases moves.len() - index,
    {
        if !(depth == 0 || index < 0 || index >= moves.len()) {
            let child = self.after_ply(moves[index]).minimax(
                (depth - 1) as nat,
                alpha,
                beta,
                !is_maximizing,
                getting_move_for,
            );
            if is_maximizing {
                let raised = if child > best {
                    child
                } else {
                    best
                };
                let lower = if raised > alpha {
                    raised
                } else {
                    alpha
                };
                if !(beta <= lower) {
                    self.lemma_minimax_from_keeps_best(
                        moves,
                        index + 1,
                        depth,
                        lower,
                        beta,
                        is_maximizing,
                        getting_move_for,
                        raised,
                    );
                }
            } else {
                let lowered = if child < best {
                    child
                } else {
                    best
                };
                let upper = if lowered < beta {
                    lowered
                } else {
                    beta
                };
                if !(upper <= alpha) {
                    self.lemma_minimax_from_keeps_best(
                        moves,
                        index + 1,
                        depth,
                        alpha,
                        upper,
                        is_maximizing,
                        getting_move_for,
                        lowered,
                    );
                }
            }
        }
    }

    /// Whether `found`, which a search within the window from `alpha` to
    /// `beta` has come to, says of `full` what such a search has to say:
    /// within the window it is `full`; at or below `alpha` it is no less
    /// than `full`; at or above `beta` it is no more than `full`.
    pub open spec fn bounds_within(found: int, full: int, alpha: int, beta: int) -> bool {
        &&& found <= alpha ==> full <= found
        &&& found >= beta ==> full >= found
        &&& alpha < found < beta ==> full == found
    }

    /// Pruning loses nothing within the window: the score that `minimax`
    /// finds within a window from `alpha` to `beta` is the score of the
    /// search of every move where it lies within the window; where it lies
    /// at or below `alpha`, the score of the search of every move is no
    /// higher; where it lies at or above `beta`, no lower.
    pub proof fn lemma_minimax_is_full_search(
        self,
        depth: nat,
        alpha: int,
        beta: int,
        is_maximizing: bool,
        getting_move_for: Color,
    )
        requires
            alpha < beta,
        ensures
            Self::bounds_within(
                self.minimax(depth, alpha, beta, is_maximizing, getting_move_for),
                self.full_search(depth, is_maximizing, getting_move_for),
                alpha,
                beta,
            ),
        decreases depth, 1nat, 0nat,
    {
        if depth > 0 {
            self.lemma_minimax_from_is_full_search(
                self.get_legal_moves(self.turn),
                0,
                depth,
                alpha,
                beta,
                is_maximizing,
                getting_move_for,
                if is_maximizing {
                    LOWEST_SCORE as int
                } else {
                    HIGHEST_SCORE as int
                },
            );
        }
    }

    /// Pruning loses nothing within the window, from any move of a position
    /// on: what `minimax_from` finds says of `full_search_from` what a
    /// search within the window has to say. The best score so far is asked
    /// to be that of a search without moves, or not to lie within the
    /// window.
    proof fn lemma_minimax_from_is_full_search(
        self,
        moves: Seq<Move>,
        index: int,
        depth: nat,
        alpha: int,
        beta: int,
        is_maximizing: bool,
        getting_move_for: Color,
        best: int,
    )
        requires
            depth > 0,
            0 <= index,
            alpha < beta,
            is_maximizing ==> LOWEST_SCORE <= best && (best <= alpha || best == LOWEST_SCORE),
            !is_maximizing ==> best <= HIGHEST_SCORE && (best >= beta || best == HIGHEST_SCORE),
        ensures
            Self::bounds_within(
                self.minimax_from(
                    moves,
                    index,
                    depth,
                    alpha,
                    beta,
                    is_maximizing,
                    getting_move_for,
                    best,
                ),
                self.full_search_from(moves, index, depth, is_maximizing, getting_move_for),
                alpha,
                beta,
            ),
        decreases depth, 0nat, moves.len() - index,
    {
        if index < moves.len() {
            let after = self.after_ply(moves[index]);
            let child = after.minimax(
                (depth - 1) as nat,
                alpha,
                beta,
                !is_maximizing,
                getting_move_for,
            );
            let full_child = after.full_search(
                (depth - 1) as nat,
                !is_maximizing,
                getting_move_for,
            );
            after.lemma_minimax_is_full_search(
                (depth - 1) as nat,
                alpha,
                beta,
                !is_maximizing,
                getting_move_for,
            );
            self.lemma_full_search_from_bound(
                moves,
                index + 1,
                depth,
                is_maximizing,
                getting_move_for,
            );
            if is_maximizing {
                let raised = if child > best {
                    child
                } else {
                    best
                };
                let lower = if raised > alpha {
                    raised
                } else {
                    alpha
                };
                if !(beta <= lower) {
                    self.lemma_minimax_from_is_full_search(
                        moves,
                        index + 1,
                        depth,
                        lower,
                        beta,
                        is_maximizing,
                        getting_move_for,
                        raised,
                    );
                    self.lemma_minimax_from_keeps_best(
                        moves,
                        index + 1,
                        depth,
                        lower,
                        beta,
                        is_maximizing,
                        getting_move_for,
                        raised,
                    );
                }
            } else {
                let lowered = if child < best {
                    child
                } else {
                    best
                };
                let upper = if lowered < beta {
                    lowered
                } else {
                    beta
                };
                if !(upper <= alpha) {
                    self.lemma_minimax_from_is_full_search(
                        moves,
                        index + 1,
                        depth,
                        alpha,
                        upper,
                        is_maximizing,
                        getting_move_for,
                        lowered,
                    );
                    self.lemma_minimax_from_keeps_best(
                        moves,
                        index + 1,
                        depth,
                        alpha,
                        upper,
                        is_maximizing,
                        getting_move_for,
                        lowered,
                    );
                }
            }
        }
    }

    /// The score of a rated move is the score of the search of every move
    /// wherever it lies within the window of the rating.
    pub proof fn lemma_rated_score_is_full_search(
        self,
        depth: nat,
        is_maximizing: bool,
        getting_move_for: Color,
        index: int,
    )
        requires
            0 <= index < self.rate_moves(depth, is_maximizing, getting_move_for).len(),
        ensures
            ({
                let rated = self.rate_moves(depth, is_maximizing, getting_move_for)[index];
                -WINDOW < rated.1 < WINDOW ==> rated.1 == self.after_ply(rated.0).full_search(
                    depth,
                    is_maximizing,
                    getting_move_for,
                )
            }),
    {
        let rated = self.rate_moves(depth, is_maximizing, getting_move_for)[index];
        self.after_ply(rated.0).lemma_minimax_is_full_search(
            depth,
            -(WINDOW as int),
            WINDOW as int,
            is_maximizing,
            getting_move_for,
        );
    }
}

} // verus!
