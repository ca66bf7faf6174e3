//! Whose turn it is.

use vstd::prelude::*;

verus! {

/// The side whose decisions are accepted. A game starts with the player.
#[derive(Clone, Copy, Debug, PartialEq, Eq, Hash, Structural)]
pub enum TurnPhase {
    /// The player rolls or banks on command.
    PlayerTurn,
    /// The automated side decides, once per pacing interval.
    AutomatedTurn,
}

impl TurnPhase {
    /// The phase that follows when a turn ends.
    pub open spec fn other(self) -> TurnPhase {
        match self {
            TurnPhase::PlayerTurn => TurnPhase::AutomatedTurn,
            TurnPhase::AutomatedTurn => TurnPhase::PlayerTurn,
        }
    }

    /// The phase that follows when a turn ends.
    pub fn switched(self) -> (next: TurnPhase)
        ensures
            next == self.other(),
    {
        match self {
            TurnPhase::PlayerTurn => TurnPhase::AutomatedTurn,
            TurnPhase::AutomatedTurn => TurnPhase::PlayerTurn,
        }
    }
}

impl Default for TurnPhase {
    fn default() -> (phase: Self)
        ensures
            phase == TurnPhase::PlayerTurn,
    {
        TurnPhase::PlayerTurn
    }
}

} // verus!
