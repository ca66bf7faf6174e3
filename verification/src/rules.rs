//! The game as a mathematical state machine.
//!
//! A `GameState` is what the controller stands for. Each command is a
//! function from state to state; the laws at the end hold of every state
//! and every sequence of commands.

use crate::hand::face_sum;
use crate::hand::lemma_face_sum_push;
use crate::hand::scoring_faces;
use crate::hand::HIGHEST_FACE;
use crate::hand::LOWEST_SCORING_FACE;
use crate::pacer::lemma_pacer_stays_wf;
use crate::pacer::PacerState;
use crate::phase::TurnPhase;
use vstd::prelude::*;

verus! {

/// The automated side rolls again only while its hand is below this.
pub const HAND_LIMIT: u64 = 20;

/// The automated side rolls again only while its score and hand together
/// are below this.
pub const SCORE_GOAL: u64 = 100;

/// What a command did.
#[derive(Clone, Copy, Debug, PartialEq, Eq, Hash, Structural)]
pub enum TurnEvent {
    /// A scoring face joined the hand.
    Rolled(u8),
    /// A one was rolled: the hand is lost and the turn is over.
    Bust,
    /// The hand, worth this much, went to the score and the turn is over.
    Banked(u64),
}

/// The whole game at one moment.
pub struct GameState {
    /// Whose turn it is.
    pub phase: TurnPhase,
    /// The faces rolled this turn, oldest first.
    pub hand: Seq<u8>,
    /// What the player has banked.
    pub player: nat,
    /// What the automated side has banked.
    pub cpu: nat,
    /// The clock of the automated side.
    pub pacer: PacerState,
}

/// What a roll of `face` is reported as.
pub open spec fn roll_event(face: u8) -> TurnEvent {
    if face < LOWEST_SCORING_FACE {
        TurnEvent::Bust
    } else {
        TurnEvent::Rolled(face)
    }
}

/// Whether the automated side, with `hand_total` in hand and `cpu_score`
/// banked, rolls again.
pub open spec fn rolls_again(hand_total: nat, cpu_score: nat) -> bool {
    hand_total < HAND_LIMIT && cpu_score + hand_total < SCORE_GOAL
}

impl GameState {
    /// A new game: the player is to move, nothing is rolled or banked.
    pub open spec fn start(interval: nat) -> GameState {
        GameState {
            phase: TurnPhase::PlayerTurn,
            hand: Seq::empty(),
            player: 0,
            cpu: 0,
            pacer: PacerState { interval, elapsed: 0 },
        }
    }

    /// The hand holds scoring faces only, and the pacer is well-formed.
    pub open spec fn wf(self) -> bool {
        scoring_faces(self.hand) && self.pacer.wf()
    }

    /// What the hand is worth.
    pub open spec fn hand_total(self) -> nat {
        face_sum(self.hand)
    }

    /// The banked score of the side whose turn it is.
    pub open spec fn active_score(self) -> nat {
        match self.phase {
            TurnPhase::PlayerTurn => self.player,
            TurnPhase::AutomatedTurn => self.cpu,
        }
    }

    /// The state after the side to move rolls `face`: a one loses the hand
    /// and passes the turn, any other face joins the hand.
    pub open spec fn after_roll(self, face: u8) -> GameState {
        if face < LOWEST_SCORING_FACE {
            GameState { phase: self.phase.other(), hand: Seq::empty(), ..self }
        } else {
            GameState { hand: self.hand.push(face), ..self }
        }
    }

    /// The state after the side to move banks: the hand goes to its score
    /// and the turn passes.
    pub open spec fn after_bank(self) -> GameState {
        match self.phase {
            TurnPhase::PlayerTurn => GameState {
                phase: TurnPhase::AutomatedTurn,
                hand: Seq::empty(),
                player: self.player + self.hand_total(),
                ..self
            },
            TurnPhase::AutomatedTurn => GameState {
                phase: TurnPhase::PlayerTurn,
                hand: Seq::empty(),
                cpu: self.cpu + self.hand_total(),
                ..self
            },
        }
    }

    /// What banking is reported as.
    pub open spec fn bank_event(self) -> TurnEvent {
        TurnEvent::Banked(self.hand_total() as u64)
    }

    /// The state after the player's command to roll, when the die shows
    /// `face`. Out of turn the command changes nothing.
    pub open spec fn after_player_roll(self, face: u8) -> GameState {
        if self.phase is PlayerTurn {
            self.after_roll(face)
        } else {
            self
        }
    }

    /// The state after the player's command to bank. Out of turn the command
    /// changes nothing.
    pub open spec fn after_player_bank(self) -> GameState {
        if self.phase is PlayerTurn {
            self.after_bank()
        } else {
            self
        }
    }

    /// Whether the automated side rolls again in this state.
    pub open spec fn automated_rolls(self) -> bool {
        rolls_again(self.hand_total(), self.cpu)
    }

    /// The state after one decision of the automated side, when the die, if
    /// rolled, shows `face`. Out of turn nothing changes.
    pub open spec fn after_automated_decision(self, face: u8) -> GameState {
        if self.phase is AutomatedTurn {
            if self.automated_rolls() {
                self.after_roll(face)
            } else {
                self.after_bank()
            }
        } else {
            self
        }
    }

    /// What a decision of the automated side is reported as.
    pub open spec fn decision_event(self, face: u8) -> TurnEvent {
        if self.automated_rolls() {
            roll_event(face)
        } else {
            self.bank_event()
        }
    }

    /// Whether a tick of `delta` makes the automated side decide.
    pub open spec fn tick_decides(self, delta: nat) -> bool {
        self.pacer.due(delta) && self.phase is AutomatedTurn
    }

    /// Whether a tick of `delta` makes the automated side roll the die.
    pub open spec fn tick_rolls(self, delta: nat) -> bool {
        self.tick_decides(delta) && self.automated_rolls()
    }

    /// The state after a tick of `delta`, when the die, if rolled, shows
    /// `face`: the pacer advances in either phase, and where a decision is
    /// due in the automated side's turn, that side decides once.
    pub open spec fn after_tick(self, delta: nat, face: u8) -> GameState {
        let paced = GameState { pacer: self.pacer.after(delta), ..self };
        if self.tick_decides(delta) {
            paced.after_automated_decision(face)
        } else {
            paced
        }
    }

    /// What a tick is reported as.
    pub open spec fn tick_event(self, delta: nat, face: u8) -> Option<TurnEvent> {
        if self.tick_decides(delta) {
            Some(self.decision_event(face))
        } else {
            None
        }
    }

    /// The state after one step of play.
    pub open spec fn step(self, step: Step) -> GameState {
        match step {
            Step::Roll { face } => self.after_player_roll(face),
            Step::Bank => self.after_player_bank(),
            Step::Tick { delta, face } => self.after_tick(delta, face),
        }
    }

    /// The state after a sequence of steps, first to last.
    pub open spec fn run(self, steps: Seq<Step>) -> GameState
        decreases steps.len(),
    {
        if steps.len() == 0 {
            self
        } else {
            self.run(steps.drop_last()).step(steps.last())
        }
    }
}

/// One step of play: a command of the player or a tick of the clock, with
/// the face that the die shows if the step rolls it.
pub enum Step {
    /// The player asks to roll.
    Roll { face: u8 },
    /// The player asks to bank.
    Bank,
    /// Time passes.
    Tick { delta: nat, face: u8 },
}

impl Step {
    /// The face that comes with the step is one of the die's.
    pub open spec fn fair(self) -> bool {
        match self {
            Step::Roll { face } => 1 <= face <= HIGHEST_FACE,
            Step::Bank => true,
            Step::Tick { delta, face } => 1 <= face <= HIGHEST_FACE,
        }
    }
}

/// A bust leaves an empty hand, worth nothing, and passes the turn.
pub proof fn lemma_bust_empties_hand(state: GameState)
    ensures
        state.after_roll(1).hand_total() == 0,
        state.after_roll(1).hand =~= Seq::<u8>::empty(),
        state.after_roll(1).phase == state.phase.other(),
        state.after_roll(1).player == state.player,
        state.after_roll(1).cpu == state.cpu,
{
}

/// A bank leaves an empty hand, worth nothing, and passes the turn.
pub proof fn lemma_bank_empties_hand(state: GameState)
    ensures
        state.after_bank().hand_total() == 0,
        state.after_bank().hand =~= Seq::<u8>::empty(),
        state.after_bank().phase == state.phase.other(),
{
}

/// Whenever a step passes the turn, by a bust or by a bank, the hand is
/// worth nothing afterwards.
pub proof fn lemma_turn_end_empties_hand(state: GameState, step: Step)
    requires
        state.step(step).phase != state.phase,
    ensures
        state.step(step).hand_total() == 0,
        state.step(step).hand =~= Seq::<u8>::empty(),
{
}

/// A roll that scores raises the hand's worth by the face and changes
/// nothing else.
pub proof fn lemma_scoring_roll_adds_face(state: GameState, face: u8)
    requires
        face >= LOWEST_SCORING_FACE,
    ensures
        state.after_roll(face).hand_total() == state.hand_total() + face,
        state.after_roll(face).phase == state.phase,
        state.after_roll(face).player == state.player,
        state.after_roll(face).cpu == state.cpu,
{
    lemma_face_sum_push(state.hand, face);
}

/// No step lowers either score.
pub proof fn lemma_step_keeps_scores(state: GameState, step: Step)
    ensures
        state.step(step).player >= state.player,
        state.step(step).cpu >= state.cpu,
{
}

/// Neither score ever falls, however the game is played.
pub proof fn lemma_scores_never_fall(state: GameState, steps: Seq<Step>)
    ensures
        state.run(steps).player >= state.player,
        state.run(steps).cpu >= state.cpu,
    decreases steps.len(),
{
    if steps.len() > 0 {
        lemma_scores_never_fall(state, steps.drop_last());
        lemma_step_keeps_scores(state.run(steps.drop_last()), steps.last());
    }
}

/// A score changes only by a bank of its own side, and then by what the
/// hand was worth.
pub proof fn lemma_score_changes_only_by_bank(state: GameState, step: Step)
    ensures
        state.step(step).player == state.player || (state.phase is PlayerTurn
            && state.step(step).player == state.player + state.hand_total()),
        state.step(step).cpu == state.cpu || (state.phase is AutomatedTurn
            && state.step(step).cpu == state.cpu + state.hand_total()),
{
}

/// A well-formed state stays well-formed under every fair step.
pub proof fn lemma_step_keeps_wf(state: GameState, step: Step)
    requires
        state.wf(),
        step.fair(),
    ensures
        state.step(step).wf(),
{
    match step {
        Step::Roll { face } => {},
        Step::Bank => {},
        Step::Tick { delta, face } => {
            lemma_pacer_stays_wf(state.pacer, delta);
        },
    }
}

/// The automated side never rolls with `HAND_LIMIT` or more in hand, nor
/// when hand and score together reach `SCORE_GOAL`: it banks.
pub proof fn lemma_automated_banks_at_limits(state: GameState, face: u8)
    requires
        state.phase is AutomatedTurn,
        state.hand_total() >= HAND_LIMIT || state.cpu + state.hand_total() >= SCORE_GOAL,
    ensures
        state.after_automated_decision(face) == state.after_bank(),
{
}

} // verus!
