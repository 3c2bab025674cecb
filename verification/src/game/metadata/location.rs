//! The place of a game.

use vstd::prelude::*;
use vstd::string::StringExecFns;
use crate::game::metadata::country::Country;

verus! {

/// Where a game is played.
#[derive(Debug, Clone, Eq, PartialEq)]
pub struct Location {
    pub city: String,
    pub region: String,
    pub country: Country,
}

impl Location {
    /// The place of that name.
    pub fn new(city: &str, region: &str, country: Country) -> (location: Location)
        ensures
            location.city@ == city@,
            location.region@ == region@,
            location.country == country,
    {
        Location { city: String::from_str(city), region: String::from_str(region), country }
    }

    /// The city.
    pub fn city(&self) -> (city: &str)
        ensures
            city@ == self.city@,
    {
        self.city.as_str()
    }

    /// The region.
    pub fn region(&self) -> (region: &str)
        ensures
            region@ == self.region@,
    {
        self.region.as_str()
    }

    /// The country.
    pub fn country(&self) -> (country: Country)
        ensures
            country == self.country,
    {
        self.country
    }
}

} // verus!
