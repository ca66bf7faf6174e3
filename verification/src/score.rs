//! The two sides' banked scores.

use vstd::prelude::*;

verus! {

/// The banked score of each side. A score changes only by a credit, so it
/// never falls.
#[derive(Clone, Copy, Debug, PartialEq, Eq, Hash, Structural)]
pub struct ScoreBoard {
    /// What the player has banked.
    pub player: u64,
    /// What the automated side has banked.
    pub cpu: u64,
}

impl ScoreBoard {
    /// Both scores at zero.
    pub fn new() -> (scores: Self)
        ensures
            scores.player == 0,
            scores.cpu == 0,
    {
        ScoreBoard { player: 0, cpu: 0 }
    }

    /// Adds `amount` to the player's score.
    pub fn credit_player(&mut self, amount: u64)
        requires
            old(self).player + amount <= u64::MAX,
        ensures
            final(self).player == old(self).player + amount,
            final(self).cpu == old(self).cpu,
    {
        self.player = self.player + amount;
    }

    /// Adds `amount` to the automated side's score.
    pub fn credit_cpu(&mut self, amount: u64)
        requires
            old(self).cpu + amount <= u64::MAX,
        ensures
            final(self).cpu == old(self).cpu + amount,
            final(self).player == old(self).player,
    {
        self.cpu = self.cpu + amount;
    }
}

impl Default for ScoreBoard {
    fn default() -> (scores: Self)
        ensures
            scores.player == 0,
            scores.cpu == 0,
    {
        ScoreBoard::new()
    }
}

} // verus!
