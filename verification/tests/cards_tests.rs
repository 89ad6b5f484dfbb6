use joker_guide::cards::{card_index, standard_deck, Card, Edition, Enhancement, Seal};
use std::collections::HashSet;

#[test]
fn test_card_base_chips() {
    assert_eq!(Card::new(1, 0).base_chips(), 11);
    assert_eq!(Card::new(12, 1).base_chips(), 10);
    assert_eq!(Card::new(7, 2).base_chips(), 7);
}

#[test]
fn test_card_chips_with_enhancement_and_edition() {
    let mut card = Card::new(9, 3);
    card.enhancement = Enhancement::Bonus;
    card.edition = Edition::Foil;
    card.bonus_chips = 5;
    assert_eq!(card.chips(), 9 + 30 + 50 + 5);
}

#[test]
fn test_face_and_pareidolia() {
    let face = Card::new(12, 0);
    let not_face = Card::new(9, 1);
    assert!(face.is_face());
    assert!(!not_face.is_face());
    assert!(not_face.is_face_with_pareidolia(true));
    assert!(!not_face.is_face_with_pareidolia(false));
}

#[test]
fn test_suit_matching_and_counts() {
    let mut card = Card::new(3, 2);
    assert!(card.matches_suit(2));
    assert!(!card.matches_suit(1));

    card.enhancement = Enhancement::Wild;
    assert!(card.matches_suit(1));

    card.enhancement = Enhancement::Stone;
    assert!(!card.counts_for_hand());
}

#[test]
fn test_effective_suits() {
    let mut card = Card::new(3, 2);
    assert_eq!(card.effective_suit(), 2);

    card.enhancement = Enhancement::Stone;
    assert_eq!(card.effective_suit(), 255);

    let hearts = Card::new(2, 2);
    let diamonds = Card::new(2, 1);
    let spades = Card::new(2, 0);
    let clubs = Card::new(2, 3);
    assert_eq!(hearts.effective_suit_smeared(), 1);
    assert_eq!(diamonds.effective_suit_smeared(), 1);
    assert_eq!(spades.effective_suit_smeared(), 0);
    assert_eq!(clubs.effective_suit_smeared(), 0);
}

#[test]
fn test_standard_deck_and_index() {
    let deck = standard_deck();
    assert_eq!(deck.len(), 52);

    let mut seen = HashSet::new();
    for card in deck {
        let idx = card_index(card);
        assert!(seen.insert(idx));
    }
    assert_eq!(seen.len(), 52);
}

#[test]
fn test_card_add_mult_values() {
    let mut card = Card::new(4, 0);
    card.enhancement = Enhancement::Mult;
    card.edition = Edition::Holographic;
    assert_eq!(card.add_mult(), 14);
    card.edition = Edition::Base;
    assert_eq!(card.add_mult(), 4);
    card.enhancement = Enhancement::NoEnhancement;
    assert_eq!(card.add_mult(), 0);
}

#[test]
fn test_new_card_is_plain() {
    let card = Card::new(5, 3);
    assert_eq!(card.rank, 5);
    assert_eq!(card.suit, 3);
    assert_eq!(card.enhancement, Enhancement::NoEnhancement);
    assert_eq!(card.seal, Seal::NoSeal);
    assert_eq!(card.edition, Edition::Base);
    assert!(!card.face_down);
    assert_eq!(card.bonus_chips, 0);
}

#[test]
fn test_stone_card_chips_ignore_rank() {
    let mut card = Card::new(13, 0);
    card.enhancement = Enhancement::Stone;
    assert_eq!(card.chips(), 60);
    assert_eq!(card.base_chips(), 10);
}

#[test]
fn test_card_index_layout() {
    assert_eq!(card_index(Card::new(1, 0)), 0);
    assert_eq!(card_index(Card::new(13, 0)), 12);
    assert_eq!(card_index(Card::new(1, 1)), 13);
    assert_eq!(card_index(Card::new(13, 3)), 51);
    let deck = standard_deck();
    for (i, card) in deck.iter().enumerate() {
        assert_eq!(card_index(*card), i);
    }
}

#[test]
fn test_enum_int_codes() {
    assert_eq!(Enhancement::NoEnhancement.to_int(), 0);
    assert_eq!(Seal::NoSeal.to_int(), 0);
    assert_eq!(Edition::Base.to_int(), 0);
    assert_eq!(Enhancement::all().len(), 8);
    assert_eq!(Seal::all().len(), 4);
}
