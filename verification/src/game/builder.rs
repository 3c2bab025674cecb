//! Setting up a game.

use vstd::prelude::*;
use crate::game::clock::{Clock, TimeSpan};
use crate::game::metadata::Metadata;
use crate::game::options::Options;
use crate::game::types::GameMove;
use crate::game::Game;
use crate::Board;

verus! {

/// Builds a game: start from the default game, replace what differs, and
/// take the game out.
pub struct GameBuilder {
    pub game: Option<Game>,
}

impl Default for GameBuilder {
    /// A builder that starts from the default game.
    fn default() -> (builder: GameBuilder)
        ensures
            builder.game is Some,
            builder.game->0.wf(),
            builder.game->0@ == Game::default_view(),
    {
        GameBuilder { game: Some(Game::default()) }
    }
}

impl GameBuilder {
    /// The builder with the game played on `board`.
    pub fn board(self, board: Board) -> (builder: GameBuilder)
        requires
            self.game is Some,
        ensures
            builder.game matches Some(game) && game.board == board && game.clock
                == self.game->0.clock && game.metadata == self.game->0.metadata && game.moves
                == self.game->0.moves && game.options == self.game->0.options,
    {
        let mut game = self.build();
        game.board = board;
        GameBuilder { game: Some(game) }
    }

    /// The builder with the clock set to these times.
    pub fn timeout(self, for_white: TimeSpan, for_black: TimeSpan) -> (builder: GameBuilder)
        requires
            self.game is Some,
        ensures
            builder.game matches Some(game) && game.board == self.game->0.board && game.clock
                == (Clock { black: for_black, white: for_white }) && game.metadata
                == self.game->0.metadata && game.moves == self.game->0.moves && game.options
                == self.game->0.options,
    {
        let mut game = self.build();
        game.clock = Clock::new(for_white, for_black);
        GameBuilder { game: Some(game) }
    }

    /// The builder with what is known of the match.
    pub fn metadata(self, metadata: Metadata) -> (builder: GameBuilder)
        requires
            self.game is Some,
        ensures
            builder.game matches Some(game) && game.board == self.game->0.board && game.clock
                == self.game->0.clock && game.metadata == metadata && game.moves
                == self.game->0.moves && game.options == self.game->0.options,
    {
        let mut game = self.build();
        game.metadata = metadata;
        GameBuilder { game: Some(game) }
    }

    /// The builder with the moves played so far.
    pub fn moves(self, moves: Vec<GameMove>) -> (builder: GameBuilder)
        requires
            self.game is Some,
        ensures
            builder.game matches Some(game) && game.board == self.game->0.board && game.clock
                == self.game->0.clock && game.metadata == self.game->0.metadata && game.moves
                == moves && game.options == self.game->0.options,
    {
        let mut game = self.build();
        game.moves = moves;
        GameBuilder { game: Some(game) }
    }

    /// The builder with the options.
    pub fn options(self, options: Options) -> (builder: GameBuilder)
        requires
            self.game is Some,
        ensures
            builder.game matches Some(game) && game.board == self.game->0.board && game.clock
                == self.game->0.clock && game.metadata == self.game->0.metadata && game.moves
                == self.game->0.moves && game.options == options,
    {
        let mut game = self.build();
        game.options = options;
        GameBuilder { game: Some(game) }
    }

    /// The game as it has been set up. The builder has to hold one.
    pub fn build(self) -> (game: Game)
        requires
            self.game is Some,
        ensures
            game == self.game->0,
    {
        match self.game {
            Some(game) => game,
            None => Game::default(),
        }
    }
}

} // verus!
