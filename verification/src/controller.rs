//! The controller: the game's state, and the commands that change it.

use crate::hand::face_sum;
use crate::hand::lemma_face_sum_push;
use crate::hand::Hand;
use crate::hand::HIGHEST_FACE;
use crate::hand::LOWEST_SCORING_FACE;
use crate::pacer::DecisionPacer;
use crate::phase::TurnPhase;
use crate::random::range_draw;
use crate::random::RandomNumberGenerator;
use crate::random::SampleType;
use crate::rules::roll_event;
use crate::rules::rolls_again;
use crate::rules::GameState;
use crate::rules::TurnEvent;
use crate::rules::HAND_LIMIT;
use crate::rules::SCORE_GOAL;
use crate::score::ScoreBoard;
use rand::rngs::StdRng;
use vstd::pervasive::unreached;
use vstd::prelude::*;

verus! {

/// The die's lowest face.
pub const DIE_LOW: i32 = 1;

/// One above the die's highest face.
pub const DIE_END: i32 = 7;

/// Why a command was refused.
#[derive(Clone, Copy, Debug, PartialEq, Eq, Hash, Structural)]
pub enum TurnError {
    /// The command belongs to the other side's turn.
    WrongPhase,
}

/// The face that the die shows when it is rolled with a generator in
/// `state`.
pub open spec fn die_face(state: StdRng) -> u8 {
    range_draw(state, SampleType::I32, DIE_LOW as int, DIE_END as int).0 as u8
}

/// The state in which rolling the die leaves a generator that was in
/// `state`.
pub open spec fn state_after_die(state: StdRng) -> StdRng {
    range_draw(state, SampleType::I32, DIE_LOW as int, DIE_END as int).1
}

/// Rolls the die: one draw from `[DIE_LOW, DIE_END)`.
pub fn roll_die(rng: &mut RandomNumberGenerator) -> (face: u8)
    ensures
        1 <= face <= HIGHEST_FACE,
        face == die_face(old(rng)@),
        final(rng)@ == state_after_die(old(rng)@),
{
    match rng.range::<i32>(DIE_LOW, DIE_END) {
        Ok(value) => value as u8,
        Err(_) => unreached(),
    }
}

/// The automated side's policy: roll again while the hand is below
/// `HAND_LIMIT` and hand and score together are below `SCORE_GOAL`.
pub fn should_roll_again(hand_total: u64, cpu_score: u64) -> (again: bool)
    ensures
        again == rolls_again(hand_total as nat, cpu_score as nat),
{
    hand_total < HAND_LIMIT && cpu_score < SCORE_GOAL - hand_total
}

/// Owns the hand, the scores, the phase and the pacer of one game.
#[derive(Debug)]
pub struct TurnController {
    hand: Hand,
    scores: ScoreBoard,
    phase: TurnPhase,
    pacer: DecisionPacer,
}

impl View for TurnController {
    type V = GameState;

    closed spec fn view(&self) -> GameState {
        GameState {
            phase: self.phase,
            hand: self.hand@,
            player: self.scores.player as nat,
            cpu: self.scores.cpu as nat,
            pacer: self.pacer@,
        }
    }
}

impl TurnController {
    /// The state is well-formed, and the scores, with the hand added to the
    /// score of the side to move, fit their type.
    pub open spec fn wf(&self) -> bool {
        &&& self@.wf()
        &&& self@.player <= u64::MAX
        &&& self@.cpu <= u64::MAX
        &&& self@.active_score() + self@.hand_total() <= u64::MAX
    }

    /// Whether the side to move can take one more roll, whatever face comes,
    /// without its score and hand outgrowing their type.
    pub open spec fn has_room(&self) -> bool {
        self@.active_score() + self@.hand_total() + HIGHEST_FACE <= u64::MAX
    }

    /// A new game with the default pacing interval.
    pub fn new() -> (controller: Self)
        ensures
            controller.wf(),
            controller@ == GameState::start(crate::pacer::DEFAULT_INTERVAL_NANOS as nat),
    {
        TurnController::with_pacer(DecisionPacer::default())
    }

    /// A new game paced by `pacer`.
    pub fn with_pacer(pacer: DecisionPacer) -> (controller: Self)
        requires
            pacer@.wf(),
        ensures
            controller.wf(),
            controller@ == (GameState { pacer: pacer@, ..GameState::start(0) }),
    {
        TurnController {
            hand: Hand::new(),
            scores: ScoreBoard::new(),
            phase: TurnPhase::PlayerTurn,
            pacer,
        }
    }

    /// The current hand.
    pub fn hand(&self) -> (hand: &Hand)
        ensures
            hand@ == self@.hand,
    {
        &self.hand
    }

    /// What the hand is worth.
    pub fn hand_total(&self) -> (total: u64)
        requires
            self.wf(),
        ensures
            total == self@.hand_total(),
    {
        self.hand.total()
    }

    /// Both sides' banked scores.
    pub fn scores(&self) -> (scores: ScoreBoard)
        ensures
            scores.player == self@.player,
            scores.cpu == self@.cpu,
    {
        self.scores
    }

    /// Whose turn it is.
    pub fn phase(&self) -> (phase: TurnPhase)
        ensures
            phase == self@.phase,
    {
        self.phase
    }

    /// The pacer of the automated side.
    pub fn pacer(&self) -> (pacer: DecisionPacer)
        ensures
            pacer@ == self@.pacer,
    {
        self.pacer
    }

    /// Whether the side to move can take one more roll.
    pub fn can_roll(&self) -> (room: bool)
        requires
            self.wf(),
        ensures
            room == self.has_room(),
    {
        let active: u64 = match self.phase {
            TurnPhase::PlayerTurn => self.scores.player,
            TurnPhase::AutomatedTurn => self.scores.cpu,
        };
        let used: u64 = active + self.hand.total();
        u64::MAX - used >= HIGHEST_FACE as u64
    }

    /// Applies a roll of `face` for the side to move: a one busts the hand
    /// and passes the turn, any other face joins the hand.
    pub fn apply_roll(&mut self, face: u8) -> (event: TurnEvent)
        requires
            old(self).wf(),
            1 <= face <= HIGHEST_FACE,
            face >= LOWEST_SCORING_FACE ==> old(self)@.active_score() + old(self)@.hand_total()
                + face <= u64::MAX,
        ensures
            final(self).wf(),
            final(self)@ == old(self)@.after_roll(face),
            final(self)@.hand_total() == if face < LOWEST_SCORING_FACE {
                0
            } else {
                old(self)@.hand_total() + face
            },
            event == roll_event(face),
    {
        if face < LOWEST_SCORING_FACE {
            self.hand.clear();
            self.phase = self.phase.switched();
            TurnEvent::Bust
        } else {
            proof {
                lemma_face_sum_push(self.hand@, face);
            }
            self.hand.accumulate(face);
            TurnEvent::Rolled(face)
        }
    }

    /// Banks the hand for the side to move: the hand's worth goes to its
    /// score, the hand is emptied and the turn passes.
    pub fn bank_hand(&mut self) -> (event: TurnEvent)
        requires
            old(self).wf(),
        ensures
            final(self).wf(),
            final(self)@ == old(self)@.after_bank(),
            final(self)@.hand_total() == 0,
            event == old(self)@.bank_event(),
    {
        let total: u64 = self.hand.total();
        match self.phase {
            TurnPhase::PlayerTurn => {
                self.scores.credit_player(total);
            },
            TurnPhase::AutomatedTurn => {
                self.scores.credit_cpu(total);
            },
        }
        self.hand.clear();
        self.phase = self.phase.switched();
        TurnEvent::Banked(total)
    }

    /// The player's command to roll. In the automated side's turn it is
    /// refused and changes nothing, the generator included.
    pub fn roll(&mut self, rng: &mut RandomNumberGenerator) -> (outcome: Result<
        TurnEvent,
        TurnError,
    >)
        requires
            old(self).wf(),
            old(self)@.phase is PlayerTurn ==> old(self).has_room(),
        ensures
            final(self).wf(),
            final(self)@ == old(self)@.after_player_roll(die_face(old(rng)@)),
            old(self)@.phase is PlayerTurn ==> (outcome == Ok::<TurnEvent, TurnError>(
                roll_event(die_face(old(rng)@)),
            ) && final(rng)@ == state_after_die(old(rng)@)),
            old(self)@.phase is AutomatedTurn ==> (outcome == Err::<TurnEvent, TurnError>(
                TurnError::WrongPhase,
            ) && final(rng)@ == old(rng)@),
    {
        match self.phase {
            TurnPhase::PlayerTurn => {
                let face: u8 = roll_die(rng);
                Ok(self.apply_roll(face))
            },
            TurnPhase::AutomatedTurn => Err(TurnError::WrongPhase),
        }
    }

    /// The player's command to bank. In the automated side's turn it is
    /// refused and changes nothing.
    pub fn bank(&mut self) -> (outcome: Result<TurnEvent, TurnError>)
        requires
            old(self).wf(),
        ensures
            final(self).wf(),
            final(self)@ == old(self)@.after_player_bank(),
            old(self)@.phase is PlayerTurn ==> outcome == Ok::<TurnEvent, TurnError>(
                old(self)@.bank_event(),
            ),
            old(self)@.phase is AutomatedTurn ==> outcome == Err::<TurnEvent, TurnError>(
                TurnError::WrongPhase,
            ),
    {
        match self.phase {
            TurnPhase::PlayerTurn => Ok(self.bank_hand()),
            TurnPhase::AutomatedTurn => Err(TurnError::WrongPhase),
        }
    }

    /// One decision of the automated side: it rolls while its policy says
    /// so, and banks otherwise. The die is rolled only when the policy says
    /// so. In the player's turn the decision is refused and changes nothing.
    pub fn automated_decision(&mut self, rng: &mut RandomNumberGenerator) -> (outcome: Result<
        TurnEvent,
        TurnError,
    >)
        requires
            old(self).wf(),
        ensures
            final(self).wf(),
            final(self)@ == old(self)@.after_automated_decision(die_face(old(rng)@)),
            old(self)@.phase is AutomatedTurn ==> outcome == Ok::<TurnEvent, TurnError>(
                old(self)@.decision_event(die_face(old(rng)@)),
            ),
            old(self)@.phase is PlayerTurn ==> outcome == Err::<TurnEvent, TurnError>(
                TurnError::WrongPhase,
            ),
            final(rng)@ == if old(self)@.phase is AutomatedTurn && old(self)@.automated_rolls() {
                state_after_die(old(rng)@)
            } else {
                old(rng)@
            },
    {
        match self.phase {
            TurnPhase::PlayerTurn => Err(TurnError::WrongPhase),
            TurnPhase::AutomatedTurn => {
                let total: u64 = self.hand.total();
                if should_roll_again(total, self.scores.cpu) {
                    let face: u8 = roll_die(rng);
                    Ok(self.apply_roll(face))
                } else {
                    Ok(self.bank_hand())
                }
            },
        }
    }

    /// One frame: `elapsed_nanos` pass on the pacer, and if a decision is
    /// due in the automated side's turn, that side decides once. Nothing
    /// else happens, so a frame in the player's turn only moves the pacer.
    pub fn tick(&mut self, elapsed_nanos: u64, rng: &mut RandomNumberGenerator) -> (event: Option<
        TurnEvent,
    >)
        requires
            old(self).wf(),
        ensures
            final(self).wf(),
            final(self)@ == old(self)@.after_tick(elapsed_nanos as nat, die_face(old(rng)@)),
            event == old(self)@.tick_event(elapsed_nanos as nat, die_face(old(rng)@)),
            final(rng)@ == if old(self)@.tick_rolls(elapsed_nanos as nat) {
                state_after_die(old(rng)@)
            } else {
                old(rng)@
            },
    {
        let due: bool = self.pacer.advance(elapsed_nanos);
        if due {
            match self.automated_decision(rng) {
                Ok(event) => Some(event),
                Err(_) => None,
            }
        } else {
            None
        }
    }
}

impl Default for TurnController {
    fn default() -> (controller: Self)
        ensures
            controller.wf(),
            controller@ == GameState::start(crate::pacer::DEFAULT_INTERVAL_NANOS as nat),
    {
        TurnController::new()
    }
}

} // verus!
