//! What is known of a game beside its moves: the event, the place, the
//! date, the players and the result.

pub mod country;
pub mod date;
pub mod location;
pub mod player;

use vstd::prelude::*;
use vstd::string::StringExecFns;

pub use country::Country;
pub use date::Date;
pub use location::Location;
pub use player::Player;

verus! {

/// How a game ended, or that it has not.
#[derive(Debug, Copy, Clone, Eq, PartialEq, Structural)]
pub enum Result {
    /// White won the game.
    WhiteWins,
    /// Black won the game.
    BlackWins,
    /// The game is drawn.
    DrawnGame,
    /// The game is still in progress.
    InProgress,
    /// The game has been abandoned.
    Abandoned,
    /// Nothing is known of the result.
    Unknown,
}

/// What is known of a game beside its moves.
#[derive(Debug, Clone, Eq, PartialEq)]
pub struct Metadata {
    /// The name of the tournament or match.
    pub event: Option<String>,
    /// Where the game is played.
    pub site: Option<Location>,
    /// The day on which the game starts.
    pub date: Option<Date>,
    /// The number of the round.
    pub round: Option<u8>,
    /// The player of the white pieces.
    pub white: Option<Player>,
    /// The player of the black pieces.
    pub black: Option<Player>,
    /// The result of the game.
    pub result: Result,
}

impl Default for Metadata {
    /// Nothing known, the result least of all.
    fn default() -> (metadata: Metadata)
        ensures
            metadata.event is None,
            metadata.site is None,
            metadata.date is None,
            metadata.round is None,
            metadata.white is None,
            metadata.black is None,
            metadata.result == Result::Unknown,
    {
        Metadata {
            event: None,
            site: None,
            date: None,
            round: None,
            white: None,
            black: None,
            result: Result::Unknown,
        }
    }
}

impl Metadata {
    /// The name of the event.
    pub fn event(&self) -> (event: Option<&str>)
        ensures
            event is Some == self.event is Some,
            event matches Some(name) ==> name@ == self.event->0@,
    {
        match &self.event {
            Some(name) => Some(name.as_str()),
            None => None,
        }
    }

    /// The place of the game.
    pub fn site(&self) -> (site: Option<&Location>)
        ensures
            site is Some == self.site is Some,
            site matches Some(location) ==> *location == self.site->0,
    {
        match &self.site {
            Some(location) => Some(location),
            None => None,
        }
    }

    /// The date of the game.
    pub fn date(&self) -> (date: Option<&Date>)
        ensures
            date is Some == self.date is Some,
            date matches Some(day) ==> *day == self.date->0,
    {
        match &self.date {
            Some(day) => Some(day),
            None => None,
        }
    }

    /// The number of the round.
    pub fn round(&self) -> (round: Option<u8>)
        ensures
            round == self.round,
    {
        self.round
    }

    /// The player of the white pieces.
    pub fn white_player(&self) -> (player: Option<&Player>)
        ensures
            player is Some == self.white is Some,
            player matches Some(white) ==> *white == self.white->0,
    {
        match &self.white {
            Some(white) => Some(white),
            None => None,
        }
    }

    /// The player of the black pieces.
    pub fn black_player(&self) -> (player: Option<&Player>)
        ensures
            player is Some == self.black is Some,
            player matches Some(black) ==> *black == self.black->0,
    {
        match &self.black {
            Some(black) => Some(black),
            None => None,
        }
    }

    /// The result of the game.
    pub fn result(&self) -> (result: Result)
        ensures
            result == self.result,
    {
        self.result
    }

    /// Records the result of the game.
    pub fn set_result(&mut self, result: Result)
        ensures
            *final(self) == (Metadata { result, ..*old(self) }),
    {
        self.result = result;
    }

    /// The metadata with the name of the event.
    pub fn with_event(self, ev: &str) -> (metadata: Metadata)
        ensures
            metadata.event matches Some(name) && name@ == ev@,
            metadata == (Metadata { event: metadata.event, ..self }),
    {
        let mut metadata = self;
        metadata.event = Some(String::from_str(ev));
        metadata
    }

    /// The metadata with the place of the game.
    pub fn with_site(self, city: &str, region: &str, country: Country) -> (metadata: Metadata)
        ensures
            metadata.site matches Some(location) && location.city@ == city@ && location.region@
                == region@ && location.country == country,
            metadata == (Metadata { site: metadata.site, ..self }),
    {
        let mut metadata = self;
        metadata.site = Some(Location::new(city, region, country));
        metadata
    }

    /// The metadata with the date of the game, which has to be a day of the
    /// calendar.
    pub fn with_date(self, year: u16, month: u8, day: u8) -> (metadata: Metadata)
        requires
            Date::is_date(year, month, day),
        ensures
            metadata == (Metadata { date: Some(Date { year, month, day }), ..self }),
    {
        let mut metadata = self;
        metadata.date = Some(Date::new(year, month, day));
        metadata
    }

    /// The metadata with the number of the round.
    pub fn with_round(self, round: u8) -> (metadata: Metadata)
        ensures
            metadata == (Metadata { round: Some(round), ..self }),
    {
        let mut metadata = self;
        metadata.round = Some(round);
        metadata
    }

    /// The metadata with the player of the white pieces.
    pub fn with_white_player(self, player: Player) -> (metadata: Metadata)
        ensures
            metadata == (Metadata { white: Some(player), ..self }),
    {
        let mut metadata = self;
        metadata.white = Some(player);
        metadata
    }

    /// The metadata with the player of the black pieces.
    pub fn with_black_player(self, player: Player) -> (metadata: Metadata)
        ensures
            metadata == (Metadata { black: Some(player), ..self }),
    {
        let mut metadata = self;
        metadata.black = Some(player);
        metadata
    }

    /// The metadata with the result of the game.
    pub fn with_result(self, result: Result) -> (metadata: Metadata)
        ensures
            metadata == (Metadata { result, ..self }),
    {
        let mut metadata = self;
        metadata.result = result;
        metadata
    }
}

} // verus!
