use joker_guide::blinds::{Ante, BlindType, BossBlind};
use joker_guide::constants::{BOSS_BLIND_COUNT, PLAYS_PER_BLIND};

#[test]
fn test_boss_blind_lists_and_limits() {
    assert_eq!(BossBlind::regular_bosses().len(), 22);
    assert_eq!(BossBlind::showdown_bosses().len(), 5);
    assert_eq!(BOSS_BLIND_COUNT, 27);

    assert_eq!(BossBlind::TheNeedle.max_plays(), Some(1));
    assert_eq!(BossBlind::Crimson.max_plays(), Some(PLAYS_PER_BLIND - 1));
    assert_eq!(BossBlind::TheHook.max_plays(), None);
}

#[test]
fn test_ante_progression() {
    assert_eq!(Ante::One.base_score(), 300);
    assert_eq!(Ante::Five.base_score(), 11_000);
    assert_eq!(Ante::One.next(), Some(Ante::Two));
    assert_eq!(Ante::Seven.next(), Some(Ante::Eight));
    assert_eq!(Ante::Eight.next(), None);
    assert_eq!(Ante::Four.to_int(), 4);
}

#[test]
fn test_blind_rewards_and_order() {
    assert_eq!(BlindType::Small.reward(), 3);
    assert_eq!(BlindType::Big.reward(), 4);
    assert_eq!(BlindType::Boss.reward(), 5);
    assert_eq!(BlindType::Small.next(), Some(BlindType::Big));
    assert_eq!(BlindType::Big.next(), Some(BlindType::Boss));
    assert_eq!(BlindType::Boss.next(), None);
    assert_eq!(BlindType::Big.to_int(), 1);
}

#[test]
fn test_boss_blind_rule_flags() {
    assert!(BossBlind::ThePlant.disables_face_cards());
    assert!(!BossBlind::TheHook.disables_face_cards());
    assert!(BossBlind::ThePsychic.requires_five_cards());
    assert!(!BossBlind::TheNeedle.requires_five_cards());
    assert!(BossBlind::TheClub.disables_suit(0));
    assert!(BossBlind::TheDiamond.disables_suit(1));
    assert!(BossBlind::TheHeart.disables_suit(2));
    assert!(BossBlind::TheSpade.disables_suit(3));
    assert!(!BossBlind::TheSpade.disables_suit(2));
}

#[test]
fn test_boss_lists_are_disjoint_and_indexed() {
    let mut seen = std::collections::HashSet::new();
    for b in BossBlind::regular_bosses().iter().chain(BossBlind::showdown_bosses().iter()) {
        assert!(seen.insert(b.to_int()));
        assert!(b.to_int() >= 0 && (b.to_int() as usize) < BOSS_BLIND_COUNT);
    }
    assert_eq!(seen.len(), BOSS_BLIND_COUNT);
}

#[test]
fn test_ante_base_scores_increase() {
    let mut a = Ante::One;
    let mut last = a.base_score();
    let mut n = 1;
    while let Some(next) = a.next() {
        assert!(next.base_score() > last);
        assert_eq!(next.to_int(), a.to_int() + 1);
        last = next.base_score();
        a = next;
        n += 1;
    }
    assert_eq!(n, 8);
    assert_eq!(Ante::Eight.base_score(), 50_000);
}
