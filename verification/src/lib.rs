//! Turn logic of the dice game Pig, with the seedable random sampler that
//! rolls its die.
//!
//! Two sides take turns rolling a six-sided die. Each roll of two to six
//! joins the hand; a roll of one busts the hand and ends the turn; banking
//! adds the hand to the side's score and ends the turn. One side is played by
//! a fixed policy that acts at most once per pacing interval.
//!
//! `rules` holds the game as a mathematical state machine and the laws that
//! hold of it; `controller` holds the executable game, whose every command
//! is proved to follow that machine.

pub mod controller;
pub mod hand;
pub mod pacer;
pub mod phase;
pub mod random;
pub mod rules;
pub mod score;

pub use crate::controller::TurnController;
pub use crate::controller::TurnError;
pub use crate::hand::Hand;
pub use crate::pacer::DecisionPacer;
pub use crate::phase::TurnPhase;
pub use crate::random::RandomNumberGenerator;
pub use crate::random::RangeError;
pub use crate::rules::TurnEvent;
pub use crate::score::ScoreBoard;
