//! A game: a board with its clock, its history and what is known of the
//! match.
//!
//! The game plays on its board by the rules of the board and adds what a
//! board cannot know: the time the players have, and the draw by repetition.

pub mod builder;
pub mod clock;
pub mod metadata;
pub mod options;
pub mod result;
pub mod types;

use vstd::prelude::*;
use crate::board::view::BoardView;
use crate::board::types::MoveOutcome;
use crate::{Board, Color, Move, MoveResult, Piece, Position, Promotion};
use metadata::{Metadata, Result as MetadataResult};

pub use builder::GameBuilder;
pub use clock::{Clock, TimeSpan};
pub use options::Options;
pub use result::{
    set_result_event, was_illegal_move, EndGame, GameError, GameEvent, GameResult, GameState,
    VictoryReason,
};
pub use types::GameMove;

verus! {

/// A game of chess: the board, the clock, the history of moves, what is
/// known of the match, and the options.
#[derive(Debug, Clone)]
pub struct Game {
    /// The board as it stands.
    pub board: Board,
    /// The clock.
    pub clock: Clock,
    /// What is known of the match.
    pub metadata: Metadata,
    /// The moves played so far.
    pub moves: Vec<GameMove>,
    /// The options.
    pub options: Options,
}

/// A game as a mathematical value: all of it that playing changes.
pub struct GameView {
    pub board: BoardView,
    pub clock: Clock,
    /// The result that the metadata record.
    pub result: MetadataResult,
    pub moves: Seq<GameMove>,
    pub options: Options,
}

impl View for Game {
    type V = GameView;

    open spec fn view(&self) -> GameView {
        GameView {
            board: self.board@,
            clock: self.clock,
            result: self.metadata.result,
            moves: self.moves@,
            options: self.options,
        }
    }
}

/// The result that says that `color` has won.
pub open spec fn win_of(color: Color) -> MetadataResult {
    match color {
        Color::Black => MetadataResult::BlackWins,
        Color::White => MetadataResult::WhiteWins,
    }
}

/// The result with no event.
pub open spec fn quiet(state: GameState) -> GameResult {
    Ok((state, GameEvent { bits: 0 }))
}

/// The result with the events of `ev` added, if it holds events.
pub open spec fn with_event(res: GameResult, ev: GameEvent) -> GameResult {
    match res {
        Ok((state, event)) => Ok((state, event.spec_union(ev))),
        Err(err) => Err(err),
    }
}

/// Whether as many turns as `repetitions`, two moves each, have been played
/// and the moves of the last that many turns are all the same move.
pub open spec fn is_n_repetition(moves: Seq<GameMove>, repetitions: int) -> bool {
    let n = repetitions * 2;
    moves.len() >= n && moves.len() > 0 && forall|i: int|
        moves.len() - n <= i < moves.len() ==> (#[trigger] moves[i]).itself == moves[moves.len()
            - 1].itself
}

impl GameView {
    /// The number of the turn that is being played: 1 for the first two
    /// moves, 2 for the next two, and so on, counted in 16 bits.
    pub open spec fn turn_number(self) -> u16 {
        ((self.moves.len() / 2 + 1) % 0x1_0000) as u16
    }

    /// The game with `result` recorded.
    pub open spec fn with_result(self, result: MetadataResult) -> GameView {
        GameView { result, ..self }
    }

    /// The game with the promotion of its last move recorded, if it has a
    /// last move.
    pub open spec fn patch_last_move_promotion(self, promotion: Promotion) -> GameView {
        if self.moves.len() == 0 {
            self
        } else {
            GameView {
                moves: self.moves.update(
                    self.moves.len() - 1,
                    GameMove { promotion: Some(promotion), ..self.moves[self.moves.len() - 1] },
                ),
                ..self
            }
        }
    }

    /// What the game makes of what the board said of a move.
    ///
    /// A promotion that was made is first recorded with the last move. Where
    /// the game goes on, the board is taken over. A victory and a stalemate
    /// are recorded as the result; the reason given for a victory is
    /// checkmate. An illegal move is refused.
    pub open spec fn handle_move_result(
        self,
        res: MoveOutcome,
        has_promoted: Option<Promotion>,
    ) -> (GameView, GameResult) {
        let patched = match has_promoted {
            Some(promotion) => self.patch_last_move_promotion(promotion),
            None => self,
        };
        match res {
            MoveOutcome::Continuing(board) => (
                GameView { board, ..patched },
                quiet(GameState::Continuing),
            ),
            MoveOutcome::Promote(board, _) => (
                GameView { board, ..patched },
                quiet(GameState::Continuing),
            ),
            MoveOutcome::Victory(color) => (
                patched.with_result(win_of(color)),
                quiet(GameState::Ended(EndGame::Victory(color, VictoryReason::Checkmate))),
            ),
            MoveOutcome::Stalemate => (
                patched.with_result(MetadataResult::DrawnGame),
                quiet(GameState::Ended(EndGame::Draw)),
            ),
            MoveOutcome::IllegalMove(m) => (patched, Err(GameError::IllegalMove(m))),
        }
    }

    /// The events that the state of the game raises, added to `result`, and
    /// the game with the draws they bring recorded.
    ///
    /// Check and checkmate of the player to move and a pending promotion are
    /// raised as they are seen. A threefold repetition is raised whenever it
    /// is seen, and draws the game if the option is on. A fivefold
    /// repetition is raised, and draws the game, only if the option is on.
    pub open spec fn check_events(self, result: GameResult) -> (GameView, GameResult) {
        let result = if self.board.is_in_check(self.board.turn) {
            with_event(result, GameEvent { bits: result::CHECK_BIT })
        } else {
            result
        };
        let result = if self.board.is_checkmate() {
            with_event(result, GameEvent { bits: result::CHECKMATE_BIT })
        } else {
            result
        };
        let result = if self.board.promotion is Some {
            with_event(result, GameEvent { bits: result::PROMOTION_AVAILABLE_BIT })
        } else {
            result
        };
        let threefold = is_n_repetition(self.moves, 3);
        let result = if threefold {
            with_event(result, GameEvent { bits: result::THREEFOLD_REPETITION_BIT })
        } else {
            result
        };
        let game = if threefold && self.options.threefold_repetition {
            self.with_result(MetadataResult::DrawnGame)
        } else {
            self
        };
        if is_n_repetition(self.moves, 5) && self.options.fivefold_repetition {
            (
                game.with_result(MetadataResult::DrawnGame),
                with_event(result, GameEvent { bits: result::FIVEFOLD_REPETITION_BIT }),
            )
        } else {
            (game, result)
        }
    }

    /// The game after the player to move has played `m` and taken `time`
    /// for it, and what came of the move.
    ///
    /// The time is taken from the player's clock first. If that runs the
    /// clock out, the other player wins on time and the move is not played.
    /// Else the board plays the move and the game takes up what comes of it;
    /// unless it was illegal, the move enters the history with the piece it
    /// captured; the events are raised; and a victory is recorded.
    pub open spec fn play_move(self, m: Move, time: TimeSpan) -> (GameView, GameResult) {
        let player = self.board.turn;
        let turn = self.turn_number();
        let timed = GameView {
            clock: self.clock.with_time(
                player,
                self.clock.spec_player_remaining_time(player).spec_saturating_sub(time),
            ),
            ..self
        };
        if timed.clock.spec_timeout(player) {
            (
                timed.with_result(win_of(player.spec_opposite())),
                quiet(
                    GameState::Ended(
                        EndGame::Victory(player.spec_opposite(), VictoryReason::Timeout),
                    ),
                ),
            )
        } else {
            let (played, result) = timed.handle_move_result(timed.board.play_move(m), None);
            let recorded = if result matches Err(GameError::IllegalMove(_)) {
                played
            } else {
                GameView {
                    moves: played.moves.push(
                        GameMove {
                            itself: m,
                            turn,
                            player,
                            time,
                            piece_taken: played.board.taken_piece,
                            promotion: None,
                        },
                    ),
                    ..played
                }
            };
            let (checked, result) = recorded.check_events(result);
            match result {
                Ok((GameState::Ended(EndGame::Victory(winner, _)), _)) => (
                    checked.with_result(win_of(winner)),
                    result,
                ),
                _ => (checked, result),
            }
        }
    }

    /// The game after the player to move has resigned, and the victory of
    /// the other player.
    pub open spec fn resign(self) -> (GameView, GameResult) {
        self.handle_move_result(self.board.play_move(Move::Resign), None)
    }

    /// The game after the pending promotion, if one is pending: the pawn is
    /// promoted on the board, the promotion is recorded with the last move,
    /// and the game goes on. Else the promotion is refused.
    pub open spec fn promote(self, promotion: Promotion) -> (GameView, GameResult) {
        if self.board.promotion is Some {
            self.handle_move_result(
                MoveOutcome::Continuing(self.board.promote(promotion)),
                Some(promotion),
            )
        } else {
            (self, Err(GameError::CantPromote))
        }
    }
}

impl Default for Game {
    /// A game on the starting position of chess, without a time limit, with
    /// nothing known of the match and all options on.
    fn default() -> (game: Game)
        ensures
            game.wf(),
            game@ == Game::default_view(),
    {
        Game {
            board: Board::default(),
            clock: Clock::new(TimeSpan::max(), TimeSpan::max()),
            metadata: Metadata::default(),
            moves: Vec::new(),
            options: Options::default(),
        }
    }
}

impl Game {
    /// The view of the default game: the starting position of chess, time
    /// without limit, no result known, no move played and all options on.
    pub open spec fn default_view() -> GameView {
        GameView {
            board: BoardView::standard(),
            clock: Clock {
                black: TimeSpan { nanos: clock::MAX_NANOS },
                white: TimeSpan { nanos: clock::MAX_NANOS },
            },
            result: MetadataResult::Unknown,
            moves: Seq::empty(),
            options: Options { threefold_repetition: true, fivefold_repetition: true },
        }
    }

    /// Whether the game is valid: its board is.
    pub open spec fn wf(&self) -> bool {
        self.board.wf()
    }

    /// The board of the game, to read.
    pub fn board(&self) -> (board: &Board)
        ensures
            *board == self.board,
    {
        &self.board
    }

    /// The time that White has left, then the time that Black has left.
    pub fn remaining_time(&self) -> (times: (TimeSpan, TimeSpan))
        ensures
            times == (self.clock.white, self.clock.black),
    {
        self.clock.remaining_time()
    }

    /// What is known of the match.
    pub fn metadata(&self) -> (metadata: &Metadata)
        ensures
            *metadata == self.metadata,
    {
        &self.metadata
    }

    /// The moves played so far.
    pub fn moves(&self) -> (moves: &[GameMove])
        ensures
            moves@ == self.moves@,
    {
        self.moves.as_slice()
    }

    /// The player to move and the number of the turn.
    pub fn turn(&self) -> (turn: (Color, u16))
        ensures
            turn == (self@.board.turn, self@.turn_number()),
    {
        (self.board().get_turn(), self.get_turn())
    }

    /// The legal moves of the player to move.
    pub fn get_legal_moves(&self) -> (moves: Vec<Move>)
        requires
            self.wf(),
        ensures
            moves@ == self@.board.get_legal_moves(self@.board.turn),
    {
        self.board().get_legal_moves(self.board().get_turn())
    }

    /// The legal moves of the piece at `pos`.
    pub fn get_piece_legal_moves(&self, pos: Position) -> (moves: Vec<Move>)
        requires
            self.wf(),
        ensures
            moves@ == self@.board.get_piece_legal_moves(pos),
    {
        self.board().get_piece_legal_moves(pos)
    }

    /// Whether the recorded result says that the game is in progress.
    pub fn in_progress(&self) -> (in_progress: bool)
        ensures
            in_progress == (self@.result == MetadataResult::InProgress),
    {
        matches!(self.metadata().result(), MetadataResult::InProgress)
    }

    /// Whether the recorded result says anything but that the game is in
    /// progress.
    pub fn has_terminated(&self) -> (terminated: bool)
        ensures
            terminated == (self@.result != MetadataResult::InProgress),
    {
        !self.in_progress()
    }

    /// Plays `m` for the player to move, who took `time` for it. See
    /// [`GameView::play_move`].
    ///
    /// No move may be played while a promotion is pending, but one that
    /// takes the rest of the player's time: that one is lost on time before
    /// the board is asked.
    pub fn play_move(&mut self, m: Move, time: TimeSpan) -> (result: GameResult)
        requires
            old(self).wf(),
            old(self).board.promotion is None || old(self).clock.spec_player_remaining_time(
                old(self).board.turn,
            ).nanos <= time.nanos,
        ensures
            final(self).wf(),
            (final(self)@, result) == old(self)@.play_move(m, time),
            final(self).metadata == (Metadata {
                result: final(self).metadata.result,
                ..old(self).metadata
            }),
    {
        let (player, turn): (Color, u16) = self.turn();
        self.sub_time(player, time);
        if self.clock.timeout(player) {
            self.set_result_win(player.opposite());
            return Ok(
                (
                    GameState::Ended(EndGame::Victory(player.opposite(), VictoryReason::Timeout)),
                    GameEvent::none(),
                ),
            );
        }
        let played: MoveResult = self.board.play_move(m);
        let result: GameResult = self.handle_move_result(played, None);
        if !result::was_illegal_move(&result) {
            let taken = self.board().get_taken_piece();
            self.push_move(m, player, turn, time, taken);
        }
        let result: GameResult = self.check_events(result);
        if let Ok((GameState::Ended(EndGame::Victory(winner, _)), _)) = result {
            self.set_result_win(winner);
        }
        result
    }

    /// Resigns the game for the player to move. See [`GameView::resign`].
    ///
    /// As no move may be played while a promotion is pending, the game may
    /// not be resigned then.
    pub fn resign(&mut self) -> (result: GameResult)
        requires
            old(self).wf(),
            old(self).board.promotion is None,
        ensures
            final(self).wf(),
            (final(self)@, result) == old(self)@.resign(),
            result == quiet(
                GameState::Ended(
                    EndGame::Victory(
                        old(self).board.turn.spec_opposite(),
                        VictoryReason::Checkmate,
                    ),
                ),
            ),
            final(self).metadata == (Metadata {
                result: win_of(old(self).board.turn.spec_opposite()),
                ..old(self).metadata
            }),
    {
        let resigned = self.board.play_move(Move::Resign);
        self.handle_move_result(resigned, None)
    }

    /// Ends the game in a draw.
    pub fn draw(&mut self) -> (result: GameResult)
        ensures
            final(self)@ == old(self)@.with_result(MetadataResult::DrawnGame),
            result == quiet(GameState::Ended(EndGame::Draw)),
            final(self).metadata == (Metadata {
                result: final(self).metadata.result,
                ..old(self).metadata
            }),
            old(self).wf() ==> final(self).wf(),
    {
        self.set_result_drawn();
        Ok((GameState::Ended(EndGame::Draw), GameEvent::none()))
    }

    /// Promotes the pawn that is due a promotion, or refuses where none is.
    /// See [`GameView::promote`].
    pub fn promote(&mut self, promotion: Promotion) -> (result: GameResult)
        requires
            old(self).wf(),
        ensures
            final(self).wf(),
            (final(self)@, result) == old(self)@.promote(promotion),
            result is Err <==> old(self).board.promotion is None,
            final(self).metadata == (Metadata {
                result: final(self).metadata.result,
                ..old(self).metadata
            }),
    {
        if self.board.get_promoting_pawn().is_some() {
            let promoted = MoveResult::Continuing(self.board.promote(promotion));
            self.handle_move_result(promoted, Some(promotion))
        } else {
            Err(GameError::CantPromote)
        }
    }

    /// Gives `player` more time. The sum has to be no longer than the
    /// longest span that a clock holds.
    pub fn add_time(&mut self, player: Color, time: TimeSpan)
        requires
            old(self).clock.spec_player_remaining_time(player).nanos + time.nanos
                <= clock::MAX_NANOS,
        ensures
            final(self)@ == (GameView {
                clock: old(self).clock.with_time(
                    player,
                    TimeSpan {
                        nanos: (old(self).clock.spec_player_remaining_time(player).nanos
                            + time.nanos) as u128,
                    },
                ),
                ..old(self)@
            }),
            final(self).metadata == old(self).metadata,
            final(self).board == old(self).board,
    {
        self.clock.add_time(player, time);
    }

    /// Takes time from `player`, down to no time at all. Whether the time is
    /// up is for `timeout` to say.
    pub fn sub_time(&mut self, player: Color, time: TimeSpan)
        ensures
            final(self)@ == (GameView {
                clock: old(self).clock.with_time(
                    player,
                    old(self).clock.spec_player_remaining_time(player).spec_saturating_sub(time),
                ),
                ..old(self)@
            }),
            final(self).metadata == old(self).metadata,
            final(self).board == old(self).board,
    {
        self.clock.sub_time(player, time);
    }

    /// Whether the time of `player` is up.
    pub fn timeout(&self, player: Color) -> (up: bool)
        ensures
            up == self.clock.spec_timeout(player),
    {
        self.clock.timeout(player)
    }

    /// Whether the same move has been played for the last three turns, by
    /// both players. A player may claim a draw on it where the game does not
    /// end by itself.
    pub fn is_threefold_repetition(&self) -> (repeated: bool)
        ensures
            repeated == is_n_repetition(self.moves@, 3),
    {
        self.is_n_repetition(3)
    }

    /// Raises the events of the state of the game. See
    /// [`GameView::check_events`].
    pub fn check_events(&mut self, result: GameResult) -> (checked: GameResult)
        requires
            old(self).wf(),
        ensures
            (final(self)@, checked) == old(self)@.check_events(result),
            final(self).board == old(self).board,
            final(self).metadata == (Metadata {
                result: final(self).metadata.result,
                ..old(self).metadata
            }),
    {
        let mut result = result;
        if self.board().is_in_check(self.board().get_turn()) {
            result = result::set_result_event(result, GameEvent::check());
        }
        if self.board().is_checkmate() {
            result = result::set_result_event(result, GameEvent::checkmate());
        }
        if self.board().get_promoting_pawn().is_some() {
            result = result::set_result_event(result, GameEvent::promotion_available());
        }
        if self.is_threefold_repetition() {
            result = result::set_result_event(result, GameEvent::threefold_repetition());
            if self.options.threefold_repetition {
                self.set_result_drawn();
            }
        }
        if self.is_fivefold_repetition() && self.options.fivefold_repetition {
            self.set_result_drawn();
            result = result::set_result_event(result, GameEvent::fivefold_repetition());
        }
        result
    }

    /// Takes up what the board said of a move. See
    /// [`GameView::handle_move_result`].
    pub fn handle_move_result(
        &mut self,
        res: MoveResult,
        has_promoted: Option<Promotion>,
    ) -> (result: GameResult)
        requires
            old(self).wf(),
            res matches MoveResult::Continuing(board) ==> board.wf(),
            res matches MoveResult::Promote(board, _) ==> board.wf(),
        ensures
            final(self).wf(),
            (final(self)@, result) == old(self)@.handle_move_result(res@, has_promoted),
            final(self).metadata == (Metadata {
                result: final(self).metadata.result,
                ..old(self).metadata
            }),
            !(res is Continuing || res is Promote) ==> final(self).board == old(self).board,
            res matches MoveResult::Continuing(board) ==> final(self).board == board,
            res matches MoveResult::Promote(board, _) ==> final(self).board == board,
    {
        if let Some(promotion) = has_promoted {
            self.patch_last_move_promotion(promotion);
        }
        match res {
            MoveResult::Continuing(board) | MoveResult::Promote(board, _) => {
                self.board = board;
                Ok((GameState::Continuing, GameEvent::none()))
            },
            MoveResult::Victory(color) => {
                self.set_result_win(color);
                Ok(
                    (
                        GameState::Ended(EndGame::Victory(color, VictoryReason::Checkmate)),
                        GameEvent::none(),
                    ),
                )
            },
            MoveResult::Stalemate => {
                self.set_result_drawn();
                Ok((GameState::Ended(EndGame::Draw), GameEvent::none()))
            },
            MoveResult::IllegalMove(m) => Err(GameError::IllegalMove(m)),
        }
    }

    /// Whether the same move has been played for the last five turns, by
    /// both players.
    pub fn is_fivefold_repetition(&self) -> (repeated: bool)
        ensures
            repeated == is_n_repetition(self.moves@, 5),
    {
        self.is_n_repetition(5)
    }

    /// Whether as many turns as `repetitions`, which is at least one, have
    /// been played and the moves of the last that many turns, two moves
    /// each, are all the same move.
    pub fn is_n_repetition(&self, repetitions: usize) -> (repeated: bool)
        requires
            repetitions >= 1,
        ensures
            repeated == is_n_repetition(self.moves@, repetitions as int),
            repeated == (self.moves@.len() >= 2 * repetitions && forall|i: int|
                self.moves@.len() - 2 * repetitions <= i < self.moves@.len() ==> (
                #[trigger] self.moves@[i]).itself == self.moves@[self.moves@.len() - 1].itself),
            self.moves@.len() < 2 * repetitions ==> !repeated,
    {
        let len = self.moves.len();
        if repetitions > len / 2 {
            return false;
        }
        let count: usize = repetitions * 2;
        let last: Move = self.moves[len - 1].itself;
        let mut i: usize = len - count;
        while i < len
            invariant
                len == self.moves@.len(),
                len - count <= i <= len,
                count <= len,
                count == repetitions * 2,
                last == self.moves@[len - 1].itself,
                forall|j: int| len - count <= j < i ==> (#[trigger] self.moves@[j]).itself == last,
            decreases len - i,
        {
            if self.moves[i].itself != last {
                assert(self.moves@[i as int].itself != self.moves@[len - 1].itself);
                return false;
            }
            i += 1;
        }
        true
    }

    /// Adds a move to the history.
    fn push_move(
        &mut self,
        m: Move,
        player: Color,
        turn: u16,
        time: TimeSpan,
        piece_taken: Option<Piece>,
    )
        ensures
            final(self)@ == (GameView {
                moves: old(self)@.moves.push(
                    GameMove { itself: m, turn, player, time, piece_taken, promotion: None },
                ),
                ..old(self)@
            }),
            final(self).metadata == old(self).metadata,
            final(self).board == old(self).board,
    {
        self.moves.push(GameMove::new(m, player, turn, time, piece_taken, None));
    }

    /// The number of the turn that is being played.
    fn get_turn(&self) -> (turn: u16)
        ensures
            turn == self@.turn_number(),
    {
        ((self.moves.len() / 2 + 1) % 0x1_0000) as u16
    }

    /// Records with the last move, if there is one, that it promoted a pawn
    /// to `p`.
    fn patch_last_move_promotion(&mut self, p: Promotion)
        ensures
            final(self)@ == old(self)@.patch_last_move_promotion(p),
            final(self).metadata == old(self).metadata,
            final(self).board == old(self).board,
    {
        let len = self.moves.len();
        if len > 0 {
            let mut last = self.moves[len - 1];
            last.promotion = Some(p);
            self.moves.set(len - 1, last);
        }
    }

    /// Records that `color` has won.
    fn set_result_win(&mut self, color: Color)
        ensures
            final(self)@ == old(self)@.with_result(win_of(color)),
            final(self).metadata == (Metadata { result: win_of(color), ..old(self).metadata }),
            final(self).board == old(self).board,
    {
        self.metadata.set_result(
            match color {
                Color::Black => MetadataResult::BlackWins,
                Color::White => MetadataResult::WhiteWins,
            },
        );
    }

    /// Records that the game is drawn.
    fn set_result_drawn(&mut self)
        ensures
            final(self)@ == old(self)@.with_result(MetadataResult::DrawnGame),
            final(self).metadata == (Metadata {
                result: MetadataResult::DrawnGame,
                ..old(self).metadata
            }),
            final(self).board == old(self).board,
    {
        self.metadata.set_result(MetadataResult::DrawnGame);
    }
}

} // verus!
