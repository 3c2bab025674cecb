//! The players of a game.

use vstd::prelude::*;
use vstd::string::StringExecFns;
use crate::game::metadata::country::Country;

verus! {

/// What is known of a player.
#[derive(Debug, Clone, Eq, PartialEq)]
pub struct Player {
    pub name: String,
    pub surname: String,
    pub nationality: Country,
    pub elo: u16,
}

impl Player {
    /// The player of that name.
    pub fn new(name: &str, surname: &str, nationality: Country, elo: u16) -> (player: Player)
        ensures
            player.name@ == name@,
            player.surname@ == surname@,
            player.nationality == nationality,
            player.elo == elo,
    {
        Player {
            name: String::from_str(name),
            surname: String::from_str(surname),
            nationality,
            elo,
        }
    }

    /// The first name.
    pub fn name(&self) -> (name: &str)
        ensures
            name@ == self.name@,
    {
        self.name.as_str()
    }

    /// The family name.
    pub fn surname(&self) -> (surname: &str)
        ensures
            surname@ == self.surname@,
    {
        self.surname.as_str()
    }

    /// The country the player plays for.
    pub fn nationality(&self) -> (nationality: Country)
        ensures
            nationality == self.nationality,
    {
        self.nationality
    }

    /// The Elo rating.
    pub fn elo(&self) -> (elo: u16)
        ensures
            elo == self.elo,
    {
        self.elo
    }
}

} // verus!
