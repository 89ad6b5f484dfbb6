use joker_guide::cards::Card;
use joker_guide::hand_types::HandId;
use joker_guide::joker::{JokerId, ScoringContext, JOKER_COUNT};
use joker_guide::joker_def::{CardFilter, Rarity, HEART, SPADE};

#[test]
fn test_joker_id_indices() {
    for i in 0..50 {
        if let Some(id) = JokerId::from_index(i) {
            assert_eq!(id.to_index(), i);
        }
    }
}

#[test]
fn test_joker_all_available() {
    let all = JokerId::all_available();
    assert!(all.len() > 100);
}

#[test]
fn test_joker_by_rarity() {
    let common = JokerId::by_rarity(1);
    let uncommon = JokerId::by_rarity(2);
    let rare = JokerId::by_rarity(3);
    let legendary = JokerId::by_rarity(4);

    assert!(!common.is_empty());
    assert!(!uncommon.is_empty());
    assert!(!rare.is_empty());
    assert!(!legendary.is_empty());
}

#[test]
fn test_special_joker_rarity() {
    assert_eq!(JokerId::MrBones.rarity(), 3);
    assert_eq!(JokerId::Matador.rarity(), 1);
    assert_eq!(JokerId::Luchador.rarity(), 1);
    assert_eq!(JokerId::Chicot.rarity(), 4);
    assert_eq!(JokerId::Ceremonial.rarity(), 1);
    assert_eq!(JokerId::InvisibleJoker.rarity(), 1);
    assert_eq!(JokerId::Cavendish.rarity(), 3);
    assert_eq!(JokerId::Gros_Michel.rarity(), 1);
}

#[test]
fn test_special_jokers_in_all_available() {
    let all = JokerId::all_available();
    assert!(all.contains(&JokerId::MrBones));
    assert!(all.contains(&JokerId::Matador));
    assert!(all.contains(&JokerId::Luchador));
    assert!(all.contains(&JokerId::Chicot));
    assert!(all.contains(&JokerId::Ceremonial));
    assert!(all.contains(&JokerId::InvisibleJoker));
    assert!(all.contains(&JokerId::Cavendish));
    assert!(all.contains(&JokerId::Gros_Michel));
}

#[test]
fn test_card_filter() {
    assert!(CardFilter::Suit(HEART).matches(HEART, 5));
    assert!(!CardFilter::Suit(HEART).matches(SPADE, 5));

    assert!(CardFilter::FaceCard.matches(HEART, 11));
    assert!(CardFilter::FaceCard.matches(HEART, 12));
    assert!(CardFilter::FaceCard.matches(HEART, 13));
    assert!(!CardFilter::FaceCard.matches(HEART, 10));

    assert!(CardFilter::Even.matches(HEART, 2));
    assert!(CardFilter::Even.matches(HEART, 10));
    assert!(!CardFilter::Even.matches(HEART, 3));

    assert!(CardFilter::Odd.matches(HEART, 1));
    assert!(CardFilter::Odd.matches(HEART, 9));
    assert!(!CardFilter::Odd.matches(HEART, 2));
}

#[test]
fn test_joker_index_roundtrip_all() {
    for i in 0..JOKER_COUNT {
        let id = JokerId::from_index(i).expect("every index below the count names a joker");
        assert_eq!(id.to_index(), i);
    }
    assert!(JokerId::from_index(JOKER_COUNT).is_none());
}

#[test]
fn test_by_rarity_partitions_available() {
    let all = JokerId::all_available();
    let mut total = 0;
    for rarity in 1..=4u8 {
        let group = JokerId::by_rarity(rarity);
        for j in &group {
            assert_eq!(j.rarity(), rarity);
            assert!(all.contains(j));
        }
        total += group.len();
    }
    assert_eq!(total, all.len());
    assert!(JokerId::by_rarity(5).is_empty());
}

#[test]
fn test_joker_costs_and_legacy_keys() {
    assert_eq!(JokerId::Joker.base_cost(), 2);
    assert_eq!(JokerId::from_legacy_key("+m"), Some(JokerId::Joker));
    assert_eq!(JokerId::from_legacy_key("..."), Some(JokerId::Misprint));
    assert_eq!(JokerId::from_legacy_key("X2"), Some(JokerId::GlassJoker));
    assert_eq!(JokerId::from_legacy_key("+m "), None);
    assert_eq!(JokerId::from_legacy_key(""), None);
}

#[test]
fn test_card_filter_more() {
    assert!(CardFilter::RankRange { min: 2, max: 5 }.matches(SPADE, 5));
    assert!(!CardFilter::RankRange { min: 2, max: 5 }.matches(SPADE, 6));
    assert!(CardFilter::RankSet(&[2, 3]).matches(HEART, 3));
    assert!(!CardFilter::RankSet(&[2, 3]).matches(HEART, 4));
    assert!(CardFilter::Any.matches(SPADE, 1));
    assert!(CardFilter::LowNumber.matches(SPADE, 4));
    assert!(CardFilter::Odd.matches(SPADE, 14));
}

#[test]
fn test_rarity_number_roundtrip() {
    for n in 1..=4u8 {
        let r = Rarity::from(n);
        assert_eq!(u8::from(r), n);
    }
}

#[test]
fn test_scoring_context_new() {
    let played = vec![Card::new(2, 0), Card::new(2, 1)];
    let ctx = ScoringContext::new(&played, HandId::Pair);
    assert_eq!(ctx.played_cards.len(), 2);
    assert_eq!(ctx.hand_id, HandId::Pair);
}
