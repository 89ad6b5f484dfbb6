use joker_guide::cards::Card;
use joker_guide::constants::{DISCARDS_PER_BLIND, JOKER_SLOTS, PLAYS_PER_BLIND, STARTING_MONEY};
use joker_guide::decks::{DeckConfig, DeckType, DECK_TYPE_COUNT};
use joker_guide::packs::{PackContentType, PackContents, PackItem, PackOpeningState, PackType, PACK_TYPE_COUNT};
use rand::rngs::StdRng;
use rand::SeedableRng;

#[test]
fn test_standard_deck_config() {
    let config = DeckConfig::from_deck_type(DeckType::Standard);
    assert_eq!(config.starting_money, STARTING_MONEY);
    assert_eq!(config.plays_per_blind, PLAYS_PER_BLIND);
    assert_eq!(config.discards_per_blind, DISCARDS_PER_BLIND);
}

#[test]
fn test_yellow_deck_money() {
    let config = DeckConfig::from_deck_type(DeckType::Yellow);
    assert_eq!(config.starting_money, STARTING_MONEY + 10);
}

#[test]
fn test_black_deck_modifiers() {
    let config = DeckConfig::from_deck_type(DeckType::Black);
    assert_eq!(config.joker_slots, JOKER_SLOTS + 1);
    assert_eq!(config.plays_per_blind, PLAYS_PER_BLIND - 1);
}

#[test]
fn test_abandoned_deck() {
    let mut rng = StdRng::seed_from_u64(1);
    let deck = DeckType::Abandoned.create_deck(&mut rng);
    assert_eq!(deck.len(), 40);
    for card in &deck {
        assert!(card.rank <= 10);
    }
}

#[test]
fn test_checkered_deck() {
    let mut rng = StdRng::seed_from_u64(1);
    let deck = DeckType::Checkered.create_deck(&mut rng);
    assert_eq!(deck.len(), 52);
    let spades = deck.iter().filter(|c| c.suit == 0).count();
    let hearts = deck.iter().filter(|c| c.suit == 1).count();
    assert_eq!(spades, 26);
    assert_eq!(hearts, 26);
}

#[test]
fn test_deck_type_index() {
    for deck_type in DeckType::all() {
        assert!(deck_type.to_index() < DeckType::all().len());
    }
}

#[test]
fn test_erratic_deck_cards_are_plain_and_valid() {
    let mut rng = StdRng::seed_from_u64(9);
    let deck = DeckType::Erratic.create_deck(&mut rng);
    assert_eq!(deck.len(), 52);
    for c in &deck {
        assert!((1..=13).contains(&c.rank) && c.suit < 4);
        assert_eq!(*c, Card::new(c.rank, c.suit));
    }
}

#[test]
fn test_deck_starting_items() {
    assert_eq!(DeckType::Magic.starting_consumables().len(), 2);
    assert!(DeckType::Standard.starting_vouchers().is_empty());
    assert_eq!(DeckType::Zodiac.starting_vouchers().len(), 3);
    assert_eq!(DeckType::all().len(), DECK_TYPE_COUNT);
    let ghost = DeckConfig::from_deck_type(DeckType::GhostDeck);
    assert_eq!(ghost.deck_type, DeckType::GhostDeck);
}

#[test]
fn test_pack_type_all() {
    assert_eq!(PackType::all().len(), PACK_TYPE_COUNT);
}

#[test]
fn test_pack_costs() {
    assert_eq!(PackType::Arcana.cost(), 4);
    assert_eq!(PackType::MegaArcana.cost(), 8);
    assert_eq!(PackType::JumboArcana.cost(), 6);
}

#[test]
fn test_pack_opening() {
    let mut state = PackOpeningState::new(PackType::MegaArcana);
    assert_eq!(state.available_choices.len(), 5);
    assert_eq!(state.picks_remaining, 2);

    assert!(state.pick(0));
    assert_eq!(state.picks_remaining, 1);
    assert!(!state.completed);

    assert!(state.pick(2));
    assert_eq!(state.picks_remaining, 0);
    assert!(state.completed);

    assert!(!state.pick(1));
}

#[test]
fn test_pack_index() {
    for pack in PackType::all() {
        let index = pack.to_index();
        assert_eq!(PackType::from_index(index), Some(*pack));
    }
}

#[test]
fn test_pack_pick_removes_choice_and_skip_ends() {
    let mut state = PackOpeningState::new(PackType::Arcana);
    assert_eq!(state.available_choices, vec![0, 1, 2]);
    assert!(state.pick(1));
    assert!(state.completed);
    assert!(!state.available_choices.contains(&1));
    let mut other = PackOpeningState::new(PackType::Buffoon);
    assert!(!other.pick(99));
    other.skip();
    assert!(other.completed);
    assert_eq!(other.picks_remaining, 0);
}

#[test]
fn test_pack_contents_match_kind_and_size() {
    let mut rng = StdRng::seed_from_u64(5);
    for pack in PackType::all() {
        let contents = PackContents::generate(*pack, &mut rng);
        assert_eq!(contents.items.len(), pack.card_count());
        for item in &contents.items {
            let ok = match (pack.content_type(), item) {
                (PackContentType::Tarot, PackItem::Tarot(_)) => true,
                (PackContentType::Planet, PackItem::Planet(_)) => true,
                (PackContentType::Spectral, PackItem::Spectral(_)) => true,
                (PackContentType::Joker, PackItem::Joker(_, _)) => true,
                (PackContentType::PlayingCard, PackItem::PlayingCard(_)) => true,
                _ => false,
            };
            assert!(ok);
        }
    }
}

#[test]
fn test_pack_pick_counts_within_cards() {
    for pack in PackType::all() {
        assert!(pack.pick_count() >= 1 && pack.pick_count() <= pack.card_count());
    }
}
