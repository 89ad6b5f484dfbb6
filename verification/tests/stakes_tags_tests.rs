use joker_guide::stakes::{Stake, STAKE_COUNT};
use joker_guide::tags::{Tag, TagId, TAG_COUNT};
use rand::rngs::StdRng;
use rand::SeedableRng;

#[test]
fn test_stake_indices() {
    for stake in Stake::all() {
        let idx = stake.to_index();
        assert!(idx < STAKE_COUNT);
        assert_eq!(Some(*stake), Stake::from_index(idx));
    }
}

#[test]
fn test_white_stake_modifiers() {
    let s = Stake::White;
    assert_eq!(s.discard_modifier(), 0);
    assert_eq!(s.hand_modifier(), 0);
    assert!(s.small_blind_gives_reward());
}

#[test]
fn test_red_stake_no_small_reward() {
    assert!(!Stake::Red.small_blind_gives_reward());
}

#[test]
fn test_gold_stake_penalties() {
    let s = Stake::Gold;
    assert_eq!(s.discard_modifier(), -1);
    assert_eq!(s.hand_modifier(), -1);
    assert_eq!(s.hand_size_modifier(), -1);
    assert!(s.has_eternal_jokers());
    assert!(s.has_perishable_jokers());
}

#[test]
fn test_stake_penalties_never_ease() {
    let all = Stake::all();
    assert_eq!(all.len(), STAKE_COUNT);
    for w in all.windows(2) {
        let (a, b) = (w[0], w[1]);
        assert!(b.discard_modifier() <= a.discard_modifier());
        assert!(b.hand_modifier() <= a.hand_modifier());
        assert!(b.hand_size_modifier() <= a.hand_size_modifier());
        assert!(a.small_blind_gives_reward() || !b.small_blind_gives_reward());
        assert!(!a.has_eternal_jokers() || b.has_eternal_jokers());
    }
    assert_eq!(Stake::from_index(STAKE_COUNT), None);
}

#[test]
fn test_tag_random() {
    let mut rng = StdRng::seed_from_u64(42);
    let tag = TagId::random(&mut rng);
    assert!(TagId::all().contains(&tag));
}

#[test]
fn test_tag_use() {
    let mut tag = Tag::new(TagId::EconomyTag);
    assert_eq!(tag.use_tag(), 10);
    assert!(tag.used);
    assert_eq!(tag.use_tag(), 0);
}

#[test]
fn test_tag_indices() {
    for tag in TagId::all().iter() {
        assert!(tag.to_index() < TAG_COUNT);
    }
}

#[test]
fn test_tag_indices_distinct() {
    let mut seen = std::collections::HashSet::new();
    for tag in TagId::all() {
        assert!(seen.insert(tag.to_index()));
    }
    assert_eq!(seen.len(), TagId::all().len());
}

#[test]
fn test_non_money_tag_pays_nothing() {
    let mut tag = Tag::new(TagId::CouponTag);
    assert_eq!(TagId::CouponTag.immediate_money(), 0);
    assert_eq!(tag.use_tag(), 0);
    assert!(tag.used);
    assert!(TagId::DoubleTag.doubles_next_tag());
    assert!(!TagId::EconomyTag.doubles_next_tag());
}
