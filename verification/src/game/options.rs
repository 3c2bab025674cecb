//! The options of a game.

use vstd::prelude::*;

verus! {

/// What a game does by itself when a position repeats.
#[derive(Debug, Clone, Copy, PartialEq, Eq, Structural)]
pub struct Options {
    /// Whether the game ends in a draw by itself once the same moves have
    /// been played for three turns. Where it is off, a player may still
    /// claim the draw.
    pub threefold_repetition: bool,
    /// Whether the game ends in a draw by itself once the same moves have
    /// been played for five turns.
    pub fivefold_repetition: bool,
}

impl Default for Options {
    /// Both options on.
    fn default() -> (options: Options)
        ensures
            options.threefold_repetition,
            options.fivefold_repetition,
    {
        Options { threefold_repetition: true, fivefold_repetition: true }
    }
}

impl Options {
    /// The options with the threefold repetition rule switched on or off.
    pub fn threefold_repetition(self, enabled: bool) -> (options: Options)
        ensures
            options.threefold_repetition == enabled,
            options.fivefold_repetition == self.fivefold_repetition,
    {
        let mut options = self;
        options.threefold_repetition = enabled;
        options
    }

    /// The options with the fivefold repetition rule switched on or off.
    pub fn fivefold_repetition(self, enabled: bool) -> (options: Options)
        ensures
            options.fivefold_repetition == enabled,
            options.threefold_repetition == self.threefold_repetition,
    {
        let mut options = self;
        options.fivefold_repetition = enabled;
        options
    }
}

} // verus!
