use pig_game::hand::Hand;
use pig_game::hand::HIGHEST_FACE;
use pig_game::hand::LOWEST_SCORING_FACE;
use pig_game::phase::TurnPhase;
use pig_game::score::ScoreBoard;

#[test]
fn empty_hand_totals_zero() {
    let hand = Hand::new();
    assert_eq!(hand.total(), 0);
    assert_eq!(hand.len(), 0);
    assert!(hand.is_empty());
    assert_eq!(hand.faces(), &Vec::<u8>::new());
    let hand = Hand::default();
    assert_eq!(hand.total(), 0);
    assert!(hand.is_empty());
}

#[test]
fn accumulate_appends_in_order() {
    let mut hand = Hand::new();
    hand.accumulate(3);
    assert_eq!(hand.faces(), &vec![3u8]);
    assert_eq!(hand.total(), 3);
    hand.accumulate(5);
    hand.accumulate(2);
    hand.accumulate(6);
    hand.accumulate(4);
    hand.accumulate(5);
    assert_eq!(hand.faces(), &vec![3u8, 5, 2, 6, 4, 5]);
    assert_eq!(hand.total(), 25);
    assert_eq!(hand.len(), 6);
    assert!(!hand.is_empty());
}

#[test]
fn total_is_the_sum_of_the_faces() {
    let mut hand = Hand::new();
    let mut expected: u64 = 0;
    for round in 0..200u64 {
        for face in LOWEST_SCORING_FACE..=HIGHEST_FACE {
            hand.accumulate(face);
            expected += u64::from(face);
            assert_eq!(hand.total(), expected);
        }
        assert_eq!(hand.len() as u64, (round + 1) * 5);
    }
    assert_eq!(hand.total(), 200 * 20);
}

#[test]
fn clear_empties_the_whole_hand() {
    let mut hand = Hand::new();
    hand.accumulate(6);
    hand.accumulate(6);
    hand.accumulate(2);
    assert_eq!(hand.total(), 14);
    hand.clear();
    assert_eq!(hand.total(), 0);
    assert_eq!(hand.len(), 0);
    assert!(hand.is_empty());
    hand.clear();
    assert!(hand.is_empty());
    hand.accumulate(4);
    assert_eq!(hand.faces(), &vec![4u8]);
    assert_eq!(hand.total(), 4);
}

#[test]
fn face_bounds_are_two_and_six() {
    assert_eq!(LOWEST_SCORING_FACE, 2);
    assert_eq!(HIGHEST_FACE, 6);
}

#[test]
fn scoreboard_starts_at_zero_and_credits_add() {
    let mut scores = ScoreBoard::new();
    assert_eq!(scores, ScoreBoard { player: 0, cpu: 0 });
    assert_eq!(ScoreBoard::default(), ScoreBoard { player: 0, cpu: 0 });
    scores.credit_player(12);
    assert_eq!(scores, ScoreBoard { player: 12, cpu: 0 });
    scores.credit_cpu(20);
    assert_eq!(scores, ScoreBoard { player: 12, cpu: 20 });
    scores.credit_player(0);
    scores.credit_cpu(0);
    assert_eq!(scores, ScoreBoard { player: 12, cpu: 20 });
    scores.credit_player(40);
    scores.credit_cpu(5);
    assert_eq!(scores.player, 52);
    assert_eq!(scores.cpu, 25);
}

#[test]
fn scoreboard_credit_up_to_the_limit() {
    let mut scores = ScoreBoard { player: u64::MAX - 6, cpu: 1 };
    scores.credit_player(6);
    scores.credit_cpu(u64::MAX - 1);
    assert_eq!(scores, ScoreBoard { player: u64::MAX, cpu: u64::MAX });
}

#[test]
fn phase_starts_with_the_player_and_alternates() {
    assert_eq!(TurnPhase::default(), TurnPhase::PlayerTurn);
    assert_eq!(TurnPhase::PlayerTurn.switched(), TurnPhase::AutomatedTurn);
    assert_eq!(TurnPhase::AutomatedTurn.switched(), TurnPhase::PlayerTurn);
    assert_eq!(TurnPhase::PlayerTurn.switched().switched(), TurnPhase::PlayerTurn);
}
