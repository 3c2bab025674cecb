//! What an action on a game leads to.

use vstd::prelude::*;
use vstd::string::StringExecFns;
use crate::{Color, Move};

verus! {

/// What an action on a game leads to: the state of the game and the events
/// that the action raised, or why the action was refused.
pub type GameResult = Result<(GameState, GameEvent), GameError>;

/// Why an action on a game was refused.
#[derive(Clone, Copy, Debug, PartialEq, Eq, Structural)]
pub enum GameError {
    /// The move is not legal on the board of the game.
    IllegalMove(Move),
    /// No pawn is due a promotion.
    CantPromote,
}

/// Whether a game goes on.
#[derive(Clone, Copy, Debug, PartialEq, Eq, Structural)]
pub enum GameState {
    /// The game goes on.
    Continuing,
    /// The game is over.
    Ended(EndGame),
}

/// How a game ended.
#[derive(Clone, Copy, Debug, PartialEq, Eq, Structural)]
pub enum EndGame {
    /// This player won, for this reason.
    Victory(Color, VictoryReason),
    /// Nobody won.
    Draw,
}

/// Why a player won.
#[derive(Clone, Copy, Debug, PartialEq, Eq, Structural)]
pub enum VictoryReason {
    Checkmate,
    Resign,
    Timeout,
}

/// The events that an action raised: a set of flags, one bit each.
#[derive(Clone, Copy, Debug, PartialEq, Eq, Structural)]
pub struct GameEvent {
    pub bits: u8,
}

/// The bit of the event that the king of the player to move is in check.
pub const CHECK_BIT: u8 = 0b0000_0010;

/// The bit of the event that the player to move is checkmated.
pub const CHECKMATE_BIT: u8 = 0b0000_0100;

/// The bit of the event that a pawn is due a promotion.
pub const PROMOTION_AVAILABLE_BIT: u8 = 0b0000_1000;

/// The bit of the event that the same moves were played for three turns.
pub const THREEFOLD_REPETITION_BIT: u8 = 0b0001_0000;

/// The bit of the event that the same moves were played for five turns.
pub const FIVEFOLD_REPETITION_BIT: u8 = 0b0010_0000;

impl GameEvent {
    /// No event.
    pub fn none() -> (event: GameEvent)
        ensures
            event.bits == 0,
    {
        GameEvent { bits: 0 }
    }

    /// The king of the player to move is in check.
    pub fn check() -> (event: GameEvent)
        ensures
            event.bits == CHECK_BIT,
    {
        GameEvent { bits: CHECK_BIT }
    }

    /// The player to move is checkmated.
    pub fn checkmate() -> (event: GameEvent)
        ensures
            event.bits == CHECKMATE_BIT,
    {
        GameEvent { bits: CHECKMATE_BIT }
    }

    /// A pawn is due a promotion.
    pub fn promotion_available() -> (event: GameEvent)
        ensures
            event.bits == PROMOTION_AVAILABLE_BIT,
    {
        GameEvent { bits: PROMOTION_AVAILABLE_BIT }
    }

    /// The same moves were played for three turns. It is raised whether or
    /// not the game ends by it.
    pub fn threefold_repetition() -> (event: GameEvent)
        ensures
            event.bits == THREEFOLD_REPETITION_BIT,
    {
        GameEvent { bits: THREEFOLD_REPETITION_BIT }
    }

    /// The same moves were played for five turns. It is raised only where
    /// the game ends by it.
    pub fn fivefold_repetition() -> (event: GameEvent)
        ensures
            event.bits == FIVEFOLD_REPETITION_BIT,
    {
        GameEvent { bits: FIVEFOLD_REPETITION_BIT }
    }

    /// Whether the two sets have an event in common.
    pub open spec fn spec_intersects(&self, other: GameEvent) -> bool {
        self.bits & other.bits != 0
    }

    /// Whether the two sets have an event in common.
    #[verifier::when_used_as_spec(spec_intersects)]
    pub fn intersects(&self, other: GameEvent) -> (common: bool)
        ensures
            common == self.spec_intersects(other),
    {
        self.bits & other.bits != 0
    }

    /// The events of both sets.
    pub open spec fn spec_union(self, other: GameEvent) -> GameEvent {
        GameEvent { bits: self.bits | other.bits }
    }

    /// The events of both sets.
    #[verifier::when_used_as_spec(spec_union)]
    pub fn union(self, other: GameEvent) -> (both: GameEvent)
        ensures
            both == self.spec_union(other),
    {
        GameEvent { bits: self.bits | other.bits }
    }

    /// Adds the events of `other` to this set.
    pub fn insert(&mut self, other: GameEvent)
        ensures
            *final(self) == old(self).spec_union(other),
    {
        self.bits = self.bits | other.bits;
    }

    /// Whether the king of the player to move is in check.
    pub fn is_check(&self) -> (raised: bool)
        ensures
            raised == (self.bits & CHECK_BIT != 0),
    {
        self.intersects(GameEvent::check())
    }

    /// Whether the player to move is checkmated.
    pub fn is_checkmate(&self) -> (raised: bool)
        ensures
            raised == (self.bits & CHECKMATE_BIT != 0),
    {
        self.intersects(GameEvent::checkmate())
    }

    /// Whether a pawn is due a promotion.
    pub fn is_promotion_available(&self) -> (raised: bool)
        ensures
            raised == (self.bits & PROMOTION_AVAILABLE_BIT != 0),
    {
        self.intersects(GameEvent::promotion_available())
    }

    /// Whether the same moves were played for three turns.
    pub fn is_threefold_repetition(&self) -> (raised: bool)
        ensures
            raised == (self.bits & THREEFOLD_REPETITION_BIT != 0),
    {
        self.intersects(GameEvent::threefold_repetition())
    }

    /// Whether the same moves were played for five turns.
    pub fn is_fivefold_repetition(&self) -> (raised: bool)
        ensures
            raised == (self.bits & FIVEFOLD_REPETITION_BIT != 0),
    {
        self.intersects(GameEvent::fivefold_repetition())
    }
}

impl core::ops::BitOr for GameEvent {
    type Output = GameEvent;

    fn bitor(self, other: GameEvent) -> (both: GameEvent) {
        self.union(other)
    }
}

impl vstd::std_specs::ops::BitOrSpecImpl for GameEvent {
    open spec fn obeys_bitor_spec() -> bool {
        true
    }

    open spec fn bitor_req(self, other: GameEvent) -> bool {
        true
    }

    open spec fn bitor_spec(self, other: GameEvent) -> GameEvent {
        self.spec_union(other)
    }
}

/// Whether an action was refused as an illegal move.
pub fn was_illegal_move(res: &GameResult) -> (illegal: bool)
    ensures
        illegal == (*res matches Err(GameError::IllegalMove(_))),
{
    matches!(res, Err(GameError::IllegalMove(_)))
}

/// The result with the events of `ev` added to those it holds. A refusal
/// holds no events and stays as it is.
pub fn set_result_event(res: GameResult, ev: GameEvent) -> (result: GameResult)
    ensures
        result == (match res {
            Ok((state, event)) => Ok((state, event.spec_union(ev))),
            Err(err) => Err(err),
        }),
{
    match res {
        Ok((state, event)) => {
            let mut event = event;
            event.insert(ev);
            Ok((state, event))
        },
        Err(err) => Err(err),
    }
}

impl GameError {
    /// The error in words.
    pub open spec fn spec_to_string(self) -> Seq<char> {
        match self {
            GameError::CantPromote => "Can't promote pawn, since there's no pawn to promote"@,
            GameError::IllegalMove(m) => "Illegal move: "@ + m.spec_to_string(),
        }
    }

    /// The error in words, with the move that was refused.
    pub fn to_string(&self) -> (text: String)
        ensures
            text@ == self.spec_to_string(),
    {
        match self {
            GameError::CantPromote => String::from_str(
                "Can't promote pawn, since there's no pawn to promote",
            ),
            GameError::IllegalMove(m) => {
                let mut text = String::from_str("Illegal move: ");
                let refused = m.to_string();
                text.append(refused.as_str());
                text
            },
        }
    }
}

} // verus!
