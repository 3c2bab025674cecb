//! The chess clock.

use vstd::prelude::*;
use crate::Color;

verus! {

/// The longest span of time that a clock holds, in nanoseconds: as many
/// seconds as 64 bits count, and one nanosecond less than one second more.
pub const MAX_NANOS: u128 = 18_446_744_073_709_551_615_999_999_999;

/// A span of time, counted in nanoseconds.
#[derive(Clone, Copy, Debug, PartialEq, Eq, PartialOrd, Ord, Structural)]
pub struct TimeSpan {
    pub nanos: u128,
}

impl TimeSpan {
    /// No time at all.
    pub fn zero() -> (span: TimeSpan)
        ensures
            span.nanos == 0,
    {
        TimeSpan { nanos: 0 }
    }

    /// The longest span that a clock holds, which stands for time without
    /// limit.
    pub fn max() -> (span: TimeSpan)
        ensures
            span.nanos == MAX_NANOS,
    {
        TimeSpan { nanos: MAX_NANOS }
    }

    /// The span of `secs` seconds.
    pub fn from_secs(secs: u64) -> (span: TimeSpan)
        ensures
            span.nanos == secs * 1_000_000_000,
    {
        TimeSpan { nanos: secs as u128 * 1_000_000_000 }
    }

    /// The span of `millis` milliseconds.
    pub fn from_millis(millis: u64) -> (span: TimeSpan)
        ensures
            span.nanos == millis * 1_000_000,
    {
        TimeSpan { nanos: millis as u128 * 1_000_000 }
    }

    /// The span of `nanos` nanoseconds.
    pub fn from_nanos(nanos: u128) -> (span: TimeSpan)
        ensures
            span.nanos == nanos,
    {
        TimeSpan { nanos }
    }

    /// The whole seconds of the span.
    pub fn as_secs(&self) -> (secs: u128)
        ensures
            secs == self.nanos / 1_000_000_000,
    {
        self.nanos / 1_000_000_000
    }

    /// Whether the span is no time at all.
    pub fn is_zero(&self) -> (zero: bool)
        ensures
            zero == (self.nanos == 0),
    {
        self.nanos == 0
    }

    /// The span less `amount`, and no time at all where `amount` is the
    /// longer.
    pub open spec fn spec_saturating_sub(self, amount: TimeSpan) -> TimeSpan {
        if self.nanos >= amount.nanos {
            TimeSpan { nanos: (self.nanos - amount.nanos) as u128 }
        } else {
            TimeSpan { nanos: 0 }
        }
    }

    /// The span less `amount`, and no time at all where `amount` is the
    /// longer.
    #[verifier::when_used_as_spec(spec_saturating_sub)]
    pub fn saturating_sub(self, amount: TimeSpan) -> (span: TimeSpan)
        ensures
            span == self.spec_saturating_sub(amount),
    {
        if self.nanos >= amount.nanos {
            TimeSpan { nanos: self.nanos - amount.nanos }
        } else {
            TimeSpan { nanos: 0 }
        }
    }

    /// The span and `amount` together, if that is no longer than the
    /// longest span that a clock holds.
    pub fn checked_add(self, amount: TimeSpan) -> (span: Option<TimeSpan>)
        ensures
            self.nanos + amount.nanos <= MAX_NANOS <==> span is Some,
            span matches Some(sum) ==> sum.nanos == self.nanos + amount.nanos,
    {
        if self.nanos <= MAX_NANOS && amount.nanos <= MAX_NANOS - self.nanos {
            Some(TimeSpan { nanos: self.nanos + amount.nanos })
        } else {
            None
        }
    }
}

/// A chess clock: the time that each player has left.
#[derive(Debug, Clone, Copy, PartialEq, Eq, Structural)]
pub struct Clock {
    /// The time that Black has left.
    pub black: TimeSpan,
    /// The time that White has left.
    pub white: TimeSpan,
}

impl Clock {
    /// A clock that gives the two players these times.
    pub fn new(white: TimeSpan, black: TimeSpan) -> (clock: Clock)
        ensures
            clock == (Clock { black, white }),
    {
        Clock { black, white }
    }

    /// The clock with the time of `player` replaced.
    pub open spec fn with_time(self, player: Color, time: TimeSpan) -> Clock {
        match player {
            Color::Black => Clock { black: time, ..self },
            Color::White => Clock { white: time, ..self },
        }
    }

    /// The time that `player` has left.
    pub open spec fn spec_player_remaining_time(&self, player: Color) -> TimeSpan {
        match player {
            Color::Black => self.black,
            Color::White => self.white,
        }
    }

    /// Gives `player` more time. The sum has to be no longer than the
    /// longest span that a clock holds.
    pub fn add_time(&mut self, player: Color, amount: TimeSpan)
        requires
            old(self).spec_player_remaining_time(player).nanos + amount.nanos <= MAX_NANOS,
        ensures
            *final(self) == old(self).with_time(
                player,
                TimeSpan {
                    nanos: (old(self).spec_player_remaining_time(player).nanos
                        + amount.nanos) as u128,
                },
            ),
    {
        match player {
            Color::Black => self.black = TimeSpan { nanos: self.black.nanos + amount.nanos },
            Color::White => self.white = TimeSpan { nanos: self.white.nanos + amount.nanos },
        };
    }

    /// Takes time from `player`, down to no time at all.
    pub fn sub_time(&mut self, player: Color, amount: TimeSpan)
        ensures
            *final(self) == old(self).with_time(
                player,
                old(self).spec_player_remaining_time(player).spec_saturating_sub(amount),
            ),
    {
        match player {
            Color::Black => self.black = self.black.saturating_sub(amount),
            Color::White => self.white = self.white.saturating_sub(amount),
        };
    }

    /// Sets the time that `player` has left.
    pub fn set_time(&mut self, player: Color, time: TimeSpan)
        ensures
            *final(self) == old(self).with_time(player, time),
    {
        match player {
            Color::Black => self.black = time,
            Color::White => self.white = time,
        };
    }

    /// The time that White has left, then the time that Black has left.
    pub fn remaining_time(&self) -> (times: (TimeSpan, TimeSpan))
        ensures
            times == (self.white, self.black),
    {
        (self.white, self.black)
    }

    /// The time that `player` has left.
    #[verifier::when_used_as_spec(spec_player_remaining_time)]
    pub fn player_remaining_time(&self, player: Color) -> (time: TimeSpan)
        ensures
            time == self.spec_player_remaining_time(player),
    {
        match player {
            Color::Black => self.black,
            Color::White => self.white,
        }
    }

    /// Whether the time of `player` is up.
    pub open spec fn spec_timeout(&self, player: Color) -> bool {
        self.spec_player_remaining_time(player).nanos == 0
    }

    /// Whether the time of `player` is up.
    #[verifier::when_used_as_spec(spec_timeout)]
    pub fn timeout(&self, player: Color) -> (up: bool)
        ensures
            up == self.spec_timeout(player),
    {
        self.player_remaining_time(player).is_zero()
    }
}

} // verus!
