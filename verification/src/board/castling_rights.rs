//! The castling rights of one player.

use vstd::prelude::*;

verus! {

/// Which castling moves a player may still make, as far as the history of
/// the king and the rooks decides it.
#[derive(Clone, Copy, Debug, PartialEq, Eq, PartialOrd, Ord, Structural)]
pub struct CastlingRights {
    pub kingside: bool,
    pub queenside: bool,
}

impl Default for CastlingRights {
    /// Both rights held.
    fn default() -> (rights: CastlingRights)
        ensures
            rights.kingside,
            rights.queenside,
    {
        CastlingRights { kingside: true, queenside: true }
    }
}

impl CastlingRights {
    /// Whether the right to castle kingside is held.
    pub fn can_kingside_castle(&self) -> (can: bool)
        ensures
            can == self.kingside,
    {
        self.kingside
    }

    /// Whether the right to castle queenside is held.
    pub fn can_queenside_castle(&self) -> (can: bool)
        ensures
            can == self.queenside,
    {
        self.queenside
    }

    /// Gives up the right to castle kingside.
    pub fn disable_kingside(&mut self)
        ensures
            *final(self) == (CastlingRights { kingside: false, queenside: old(self).queenside }),
    {
        self.kingside = false
    }

    /// Gives up the right to castle queenside.
    pub fn disable_queenside(&mut self)
        ensures
            *final(self) == (CastlingRights { kingside: old(self).kingside, queenside: false }),
    {
        self.queenside = false
    }

    /// Gives up both rights.
    pub fn disable_all(&mut self)
        ensures
            *final(self) == (CastlingRights { kingside: false, queenside: false }),
    {
        self.disable_kingside();
        self.disable_queenside()
    }

    /// Grants the right to castle kingside.
    pub fn enable_kingside(&mut self)
        ensures
            *final(self) == (CastlingRights { kingside: true, queenside: old(self).queenside }),
    {
        self.kingside = true
    }

    /// Grants the right to castle queenside.
    pub fn enable_queenside(&mut self)
        ensures
            *final(self) == (CastlingRights { kingside: old(self).kingside, queenside: true }),
    {
        self.queenside = true
    }

    /// Grants both rights.
    pub fn enable_all(&mut self)
        ensures
            *final(self) == (CastlingRights { kingside: true, queenside: true }),
    {
        self.enable_kingside();
        self.enable_queenside()
    }
}

} // verus!
