use joker_guide::blinds::{Ante, BossBlind};
use joker_guide::blinds::{BlindType, Stage};
use joker_guide::run_state::{
    effective_hand_size, effective_joker_slot_limit, execute_spectral_effect, execute_tag_effects,
    execute_tarot_effect, execute_use_consumable_in_blind, select_random_boss, selected_indices, skip_blind,
    AnteProgress, BlindProgress, JokerChange, JokerFacts, RunCards, UsageCounters,
};
use joker_guide::cards::{Card, Edition, Enhancement, Seal};
use joker_guide::consumables::{Consumable, ConsumableSlots, HandLevels, PlanetId, SpectralId, TarotId};
use joker_guide::joker::JokerId;
use joker_guide::stakes::Stake;
use joker_guide::tags::{Tag, TagId};
use rand::rngs::StdRng;
use rand::SeedableRng;
use std::collections::HashMap;

fn cards(ranks_suits: &[(u8, u8)]) -> Vec<Card> {
    ranks_suits.iter().map(|&(r, s)| Card::new(r, s)).collect()
}

fn run(hand: Vec<Card>, mask: u32) -> RunCards {
    RunCards {
        hand,
        deck: cards(&[(2, 0), (3, 1), (4, 2), (5, 3)]),
        discarded: Vec::new(),
        selected_mask: mask,
        money: 10,
        consumables: ConsumableSlots::new(),
        hand_levels: HandLevels::new(),
        hand_size_modifier: 0,
        last_used_consumable: None,
    }
}

fn joker(id: JokerId, enabled: bool, is_negative: bool, sell_value: i64) -> JokerFacts {
    JokerFacts {
        id,
        enabled,
        is_negative,
        sell_value,
        turtle_hand_mod: 0,
        counter: 0,
        is_eternal: false,
        is_perishable: false,
        perishable_rounds: 0,
        is_rental: false,
        edition: Edition::Base,
    }
}

fn multiset(cs: &[Card]) -> HashMap<(u8, u8), usize> {
    let mut m = HashMap::new();
    for c in cs {
        *m.entry((c.rank, c.suit)).or_insert(0) += 1;
    }
    m
}

#[test]
fn test_selected_indices_follow_mask() {
    assert_eq!(selected_indices(5, 0b10110), vec![1, 2, 4]);
    assert_eq!(selected_indices(3, 0b11000), Vec::<usize>::new());
    assert_eq!(selected_indices(0, u32::MAX), Vec::<usize>::new());
}

#[test]
fn test_magician_enhances_first_two_selected() {
    let mut rng = StdRng::seed_from_u64(1);
    let mut state = run(cards(&[(2, 0), (3, 0), (4, 0), (5, 0)]), 0b1101);
    let c = Consumable::Tarot(TarotId::TheMagician);
    let change = execute_tarot_effect(&mut state, TarotId::TheMagician, &c, &[], 5, &mut rng);
    assert_eq!(change, JokerChange::Unchanged);
    assert_eq!(state.hand[0].enhancement, Enhancement::Lucky);
    assert_eq!(state.hand[1].enhancement, Enhancement::NoEnhancement);
    assert_eq!(state.hand[2].enhancement, Enhancement::Lucky);
    assert_eq!(state.hand[3].enhancement, Enhancement::NoEnhancement);
    assert_eq!(state.last_used_consumable, Some(c));
}

#[test]
fn test_hermit_doubles_with_cap() {
    let mut rng = StdRng::seed_from_u64(1);
    let c = Consumable::Tarot(TarotId::TheHermit);
    let mut state = run(Vec::new(), 0);
    state.money = 7;
    execute_tarot_effect(&mut state, TarotId::TheHermit, &c, &[], 5, &mut rng);
    assert_eq!(state.money, 14);
    state.money = 50;
    execute_tarot_effect(&mut state, TarotId::TheHermit, &c, &[], 5, &mut rng);
    assert_eq!(state.money, 70);
}

#[test]
fn test_temperance_pays_enabled_sell_value_capped() {
    let mut rng = StdRng::seed_from_u64(1);
    let c = Consumable::Tarot(TarotId::Temperance);
    let mut state = run(Vec::new(), 0);
    let row = [joker(JokerId::Joker, true, false, 12), joker(JokerId::Joker, false, false, 30), joker(JokerId::Joker, true, false, 5)];
    execute_tarot_effect(&mut state, TarotId::Temperance, &c, &row, 5, &mut rng);
    assert_eq!(state.money, 27);
    let rich = [joker(JokerId::Joker, true, false, 40), joker(JokerId::Joker, true, false, 40)];
    execute_tarot_effect(&mut state, TarotId::Temperance, &c, &rich, 5, &mut rng);
    assert_eq!(state.money, 77);
}

#[test]
fn test_strength_raises_ranks_but_not_kings() {
    let mut rng = StdRng::seed_from_u64(1);
    let c = Consumable::Tarot(TarotId::Strength);
    let mut state = run(cards(&[(13, 0), (5, 1), (7, 2)]), 0b111);
    execute_tarot_effect(&mut state, TarotId::Strength, &c, &[], 5, &mut rng);
    assert_eq!(state.hand[0].rank, 13);
    assert_eq!(state.hand[1].rank, 6);
    assert_eq!(state.hand[2].rank, 7);
}

#[test]
fn test_suit_tarots_change_three_cards() {
    let mut rng = StdRng::seed_from_u64(1);
    let c = Consumable::Tarot(TarotId::TheSun);
    let mut state = run(cards(&[(2, 0), (3, 0), (4, 0), (5, 0)]), 0b1111);
    execute_tarot_effect(&mut state, TarotId::TheSun, &c, &[], 5, &mut rng);
    let suits: Vec<u8> = state.hand.iter().map(|c| c.suit).collect();
    assert_eq!(suits, vec![2, 2, 2, 0]);
}

#[test]
fn test_hanged_man_removes_two_selected() {
    let mut rng = StdRng::seed_from_u64(1);
    let c = Consumable::Tarot(TarotId::TheHangedMan);
    let mut state = run(cards(&[(2, 0), (3, 0), (4, 0), (5, 0)]), 0b1011);
    execute_tarot_effect(&mut state, TarotId::TheHangedMan, &c, &[], 5, &mut rng);
    assert_eq!(state.hand, cards(&[(4, 0), (5, 0)]));
}

#[test]
fn test_death_copies_right_onto_left() {
    let mut rng = StdRng::seed_from_u64(1);
    let c = Consumable::Tarot(TarotId::Death);
    let mut state = run(cards(&[(2, 0), (9, 3), (4, 0)]), 0b110);
    execute_tarot_effect(&mut state, TarotId::Death, &c, &[], 5, &mut rng);
    assert_eq!(state.hand, cards(&[(2, 0), (4, 0), (4, 0)]));
    let mut lone = run(cards(&[(2, 0), (9, 3)]), 0b10);
    execute_tarot_effect(&mut lone, TarotId::Death, &c, &[], 5, &mut rng);
    assert_eq!(lone.hand, cards(&[(2, 0), (9, 3)]));
}

#[test]
fn test_priestess_fills_free_slots_with_planets() {
    let mut rng = StdRng::seed_from_u64(4);
    let c = Consumable::Tarot(TarotId::TheHighPriestess);
    let mut state = run(Vec::new(), 0);
    assert!(state.consumables.add(Consumable::Tarot(TarotId::TheFool)));
    execute_tarot_effect(&mut state, TarotId::TheHighPriestess, &c, &[], 5, &mut rng);
    assert_eq!(state.consumables.items.len(), 2);
    assert!(matches!(state.consumables.items[1], Consumable::Planet(_)));
}

#[test]
fn test_fool_brings_back_last_card() {
    let mut rng = StdRng::seed_from_u64(4);
    let fool = Consumable::Tarot(TarotId::TheFool);
    let mut state = run(Vec::new(), 0);
    state.last_used_consumable = Some(Consumable::Planet(PlanetId::Mars));
    execute_tarot_effect(&mut state, TarotId::TheFool, &fool, &[], 5, &mut rng);
    assert_eq!(state.consumables.items, vec![Consumable::Planet(PlanetId::Mars)]);
    assert_eq!(state.last_used_consumable, Some(Consumable::Planet(PlanetId::Mars)));
}

#[test]
fn test_judgement_adds_common_only_with_room() {
    let mut rng = StdRng::seed_from_u64(8);
    let c = Consumable::Tarot(TarotId::Judgement);
    let mut state = run(Vec::new(), 0);
    match execute_tarot_effect(&mut state, TarotId::Judgement, &c, &[], 5, &mut rng) {
        JokerChange::Add(j) => assert_eq!(j.rarity(), 1),
        other => panic!("expected a new joker, got {:?}", other),
    }
    let full = [joker(JokerId::Joker, true, false, 1)];
    assert_eq!(execute_tarot_effect(&mut state, TarotId::Judgement, &c, &full, 1, &mut rng), JokerChange::Unchanged);
}

#[test]
fn test_wheel_of_fortune_targets_a_joker() {
    let mut rng = StdRng::seed_from_u64(2);
    let c = Consumable::Tarot(TarotId::TheWheelOfFortune);
    let row = [joker(JokerId::Joker, true, false, 1), joker(JokerId::Joker, true, false, 1)];
    let mut hits = 0;
    for _ in 0..200 {
        let mut state = run(Vec::new(), 0);
        match execute_tarot_effect(&mut state, TarotId::TheWheelOfFortune, &c, &row, 5, &mut rng) {
            JokerChange::SetEdition(i, e) => {
                assert!(i < 2);
                assert!(matches!(e, Edition::Foil | Edition::Holographic | Edition::Polychrome));
                hits += 1;
            }
            JokerChange::Unchanged => {}
            other => panic!("unexpected change {:?}", other),
        }
    }
    assert!(hits > 0 && hits < 200);
    let mut state = run(Vec::new(), 0);
    assert_eq!(execute_tarot_effect(&mut state, TarotId::TheWheelOfFortune, &c, &[], 5, &mut rng), JokerChange::Unchanged);
}

#[test]
fn test_familiar_trades_card_for_faces() {
    let mut rng = StdRng::seed_from_u64(3);
    let c = Consumable::Spectral(SpectralId::Familiar);
    let mut state = run(cards(&[(2, 0), (9, 1)]), 0b10);
    execute_spectral_effect(&mut state, SpectralId::Familiar, &c, &[], 5, &mut rng);
    assert_eq!(state.hand, cards(&[(2, 0)]));
    assert_eq!(state.deck.len(), 7);
    for card in &state.deck[4..] {
        assert!((11..=13).contains(&card.rank) && card.suit < 4);
    }
    let mut none = run(cards(&[(2, 0)]), 0);
    execute_spectral_effect(&mut none, SpectralId::Familiar, &c, &[], 5, &mut rng);
    assert_eq!(none.deck.len(), 4);
    assert_eq!(none.hand.len(), 1);
}

#[test]
fn test_seal_and_edition_spectrals() {
    let mut rng = StdRng::seed_from_u64(3);
    let mut state = run(cards(&[(2, 0), (9, 1)]), 0b11);
    execute_spectral_effect(&mut state, SpectralId::Medium, &Consumable::Spectral(SpectralId::Medium), &[], 5, &mut rng);
    assert_eq!(state.hand[0].seal, Seal::Purple);
    assert_eq!(state.hand[1].seal, Seal::NoSeal);
    execute_spectral_effect(&mut state, SpectralId::Aura, &Consumable::Spectral(SpectralId::Aura), &[], 5, &mut rng);
    assert!(matches!(state.hand[0].edition, Edition::Foil | Edition::Holographic | Edition::Polychrome));
    assert_eq!(state.hand[1].edition, Edition::Base);
}

#[test]
fn test_sigil_and_ouija_unify_hand() {
    let mut rng = StdRng::seed_from_u64(5);
    let mut state = run(cards(&[(2, 0), (9, 1), (12, 3)]), 0);
    execute_spectral_effect(&mut state, SpectralId::Sigil, &Consumable::Spectral(SpectralId::Sigil), &[], 5, &mut rng);
    let s = state.hand[0].suit;
    assert!(s < 4 && state.hand.iter().all(|c| c.suit == s));
    execute_spectral_effect(&mut state, SpectralId::Ouija, &Consumable::Spectral(SpectralId::Ouija), &[], 5, &mut rng);
    let r = state.hand[0].rank;
    assert!((1..=13).contains(&r) && state.hand.iter().all(|c| c.rank == r));
    assert_eq!(state.hand_size_modifier, -1);
}

#[test]
fn test_wraith_and_immolate_money() {
    let mut rng = StdRng::seed_from_u64(6);
    let mut state = run(cards(&[(2, 0), (9, 1), (12, 3)]), 0b101);
    execute_spectral_effect(&mut state, SpectralId::Immolate, &Consumable::Spectral(SpectralId::Immolate), &[], 5, &mut rng);
    assert_eq!(state.money, 30);
    assert_eq!(state.hand, cards(&[(9, 1)]));
    match execute_spectral_effect(&mut state, SpectralId::Wraith, &Consumable::Spectral(SpectralId::Wraith), &[], 5, &mut rng) {
        JokerChange::Add(j) => assert_eq!(j.rarity(), 3),
        other => panic!("expected a rare joker, got {:?}", other),
    }
    assert_eq!(state.money, 0);
}

#[test]
fn test_joker_row_spectrals_pick_eligible() {
    let mut rng = StdRng::seed_from_u64(6);
    let row = [joker(JokerId::Joker, false, false, 1), joker(JokerId::Joker, true, true, 1), joker(JokerId::Joker, true, false, 1)];
    let mut state = run(Vec::new(), 0);
    assert_eq!(
        execute_spectral_effect(&mut state, SpectralId::Ectoplasm, &Consumable::Spectral(SpectralId::Ectoplasm), &row, 5, &mut rng),
        JokerChange::MakeNegative(2)
    );
    match execute_spectral_effect(&mut state, SpectralId::Ankh, &Consumable::Spectral(SpectralId::Ankh), &row, 5, &mut rng) {
        JokerChange::KeepTwice(i) => assert!(i == 1 || i == 2),
        other => panic!("unexpected {:?}", other),
    }
    let disabled = [joker(JokerId::Joker, false, false, 1)];
    assert_eq!(
        execute_spectral_effect(&mut state, SpectralId::Hex, &Consumable::Spectral(SpectralId::Hex), &disabled, 5, &mut rng),
        JokerChange::Unchanged
    );
    match execute_spectral_effect(&mut state, SpectralId::TheSoul, &Consumable::Spectral(SpectralId::TheSoul), &[], 5, &mut rng) {
        JokerChange::Add(j) => assert_eq!(j.rarity(), 4),
        other => panic!("expected a legendary joker, got {:?}", other),
    }
}

#[test]
fn test_cryptid_and_black_hole() {
    let mut rng = StdRng::seed_from_u64(6);
    let mut state = run(cards(&[(2, 0), (9, 1)]), 0b10);
    execute_spectral_effect(&mut state, SpectralId::Cryptid, &Consumable::Spectral(SpectralId::Cryptid), &[], 5, &mut rng);
    assert_eq!(state.deck.len(), 6);
    assert_eq!(state.deck[4], Card::new(9, 1));
    assert_eq!(state.deck[5], Card::new(9, 1));
    execute_spectral_effect(&mut state, SpectralId::BlackHole, &Consumable::Spectral(SpectralId::BlackHole), &[], 5, &mut rng);
    assert_eq!(state.hand_levels.get(0), 2);
    assert_eq!(state.hand_levels.get(11), 2);
}

#[test]
fn test_discard_with_seals_refills_and_counts_purple() {
    let mut state = run(cards(&[(2, 0), (3, 0), (4, 0)]), 0);
    state.hand[0].seal = Seal::Purple;
    let before: Vec<Card> = state.hand.iter().chain(state.deck.iter()).copied().collect();
    let purple = state.discard_with_seals(0b011, 3);
    assert_eq!(purple, 1);
    assert_eq!(state.discarded.len(), 2);
    assert_eq!(state.hand, vec![Card::new(4, 0), Card::new(5, 3), Card::new(4, 2)]);
    assert_eq!(state.deck, cards(&[(2, 0), (3, 1)]));
    let after: Vec<Card> = state.hand.iter().chain(state.deck.iter()).chain(state.discarded.iter()).copied().collect();
    assert_eq!(multiset(&before), multiset(&after));
}

#[test]
fn test_gold_card_money() {
    let mut state = run(cards(&[(2, 0), (3, 0), (4, 0)]), 0);
    state.hand[0].enhancement = Enhancement::Gold;
    state.hand[2].enhancement = Enhancement::Gold;
    assert_eq!(state.gold_card_money(), 6);
}

#[test]
fn test_destroy_same_face_twice_counts_once() {
    let mut state = run(cards(&[(13, 0), (5, 1)]), 0);
    assert_eq!(state.destroy_cards_from_hand(&[0, 0]), 1);
    assert_eq!(state.hand, cards(&[(5, 1)]));
}

#[test]
fn test_destroy_cards_counts_faces_and_skips_bad_indices() {
    let mut state = run(cards(&[(12, 0), (3, 0), (11, 1), (13, 2)]), 0);
    let faces = state.destroy_cards_from_hand(&[2, 0, 9, 2]);
    assert_eq!(faces, 2);
    assert_eq!(state.hand, cards(&[(3, 0), (13, 2)]));
    assert_eq!(state.destroy_cards_from_hand(&[]), 0);
}

#[test]
fn test_card_edit_helpers() {
    let mut state = run(cards(&[(2, 0), (3, 0), (4, 0)]), 0);
    state.enhance_cards(&[0, 2, 7], Enhancement::Steel);
    state.add_seals_to_cards(&[1], Seal::Red);
    state.change_card_suits(&[1, 1], 3);
    assert_eq!(state.hand[0].enhancement, Enhancement::Steel);
    assert_eq!(state.hand[1].enhancement, Enhancement::NoEnhancement);
    assert_eq!(state.hand[1].seal, Seal::Red);
    assert_eq!(state.hand[1].suit, 3);
    state.convert_all_hand_to_suit(1);
    state.convert_all_hand_to_rank(7);
    assert!(state.hand.iter().all(|c| c.suit == 1 && c.rank == 7));
    assert_eq!(state.copy_cards_to_deck(&[0, 5, 2]), 2);
    assert_eq!(state.deck.len(), 6);
    assert_eq!(state.add_cards_to_deck(cards(&[(1, 1)])), 1);
    assert_eq!(state.deck.len(), 7);
}

#[test]
fn test_destroy_and_add_effects() {
    let mut rng = StdRng::seed_from_u64(7);
    let mut state = run(cards(&[(12, 0), (3, 0)]), 0);
    assert_eq!(state.familiar_effect(0, 3, &mut rng), (1, 3));
    assert_eq!(state.hand, cards(&[(3, 0)]));
    assert_eq!(state.grim_effect(0, 2, &mut rng), (0, 2));
    assert!(state.deck[7..].iter().all(|c| c.rank == 1));
    assert!(state.hand.is_empty());
    assert_eq!(state.incantation_effect(3, 4, &mut rng), (0, 4));
    assert!(state.deck[9..].iter().all(|c| (2..=10).contains(&c.rank)));
    assert_eq!(state.immolate_effect(&[]), 0);
    assert_eq!(state.money, 30);
}

#[test]
fn test_break_glass_cards_by_selected_turn() {
    let mut state = run(cards(&[(2, 0), (3, 0), (4, 0), (5, 0)]), 0);
    state.break_glass_cards(0b1110, &[0, 2]);
    assert_eq!(state.hand, cards(&[(2, 0), (4, 0)]));
    state.break_glass_cards(0b11, &[]);
    assert_eq!(state.hand.len(), 2);
}

#[test]
fn test_deal_keeps_cards_and_sizes_hand() {
    let mut rng = StdRng::seed_from_u64(11);
    let mut state = run(cards(&[(2, 0), (3, 0)]), 0b1);
    state.discarded = cards(&[(9, 9)]);
    let before: Vec<Card> = state.deck.iter().chain(state.hand.iter()).chain(state.discarded.iter()).copied().collect();
    state.deal(5, &mut rng);
    assert_eq!(state.hand.len(), 5);
    assert_eq!(state.deck.len(), 2);
    assert!(state.discarded.is_empty());
    assert_eq!(state.selected_mask, 0);
    let after: Vec<Card> = state.hand.iter().chain(state.deck.iter()).copied().collect();
    assert_eq!(multiset(&before), multiset(&after));
    state.deal(50, &mut rng);
    assert_eq!(state.hand.len(), 7);
    assert!(state.deck.is_empty());
}

#[test]
fn test_slot_and_hand_size_limits() {
    let row = [joker(JokerId::Juggler, true, true, 1), joker(JokerId::Troubadour, true, false, 1), joker(JokerId::Stuntman, false, false, 1)];
    assert_eq!(effective_joker_slot_limit(5, 1, &row), 7);
    assert_eq!(effective_hand_size(&row, None, 0, Stake::White), 11);
    assert_eq!(effective_hand_size(&row, Some(BossBlind::TheManacle), -1, Stake::Gold), 8);
    let mut turtle = joker(JokerId::TurtleBean, true, false, 1);
    turtle.turtle_hand_mod = -20;
    assert_eq!(effective_hand_size(&[turtle], None, 0, Stake::White), 1);
}

#[test]
fn test_advance_ante_and_win() {
    let mut p = AnteProgress { ante: Ante::Seven, endless_mode: false, endless_ante: 0 };
    assert!(p.advance_ante(0));
    assert_eq!(p.ante, Ante::Eight);
    assert!(!p.advance_ante(0));
    assert_eq!(p.ante, Ante::Eight);
    let mut short = AnteProgress { ante: Ante::Six, endless_mode: false, endless_ante: 0 };
    assert!(!short.advance_ante(2));
    let mut endless = AnteProgress { ante: Ante::Eight, endless_mode: true, endless_ante: 0 };
    assert!(endless.advance_ante(0));
    assert_eq!(endless.endless_ante, 1);
    assert_eq!(endless.ante, Ante::Eight);
}

#[test]
fn test_select_random_boss_by_ante() {
    let mut rng = StdRng::seed_from_u64(12);
    for _ in 0..30 {
        let b = select_random_boss(Ante::Eight, &mut rng).unwrap();
        assert!(BossBlind::showdown_bosses().contains(&b));
        let r = select_random_boss(Ante::Two, &mut rng).unwrap();
        assert!(BossBlind::regular_bosses().contains(&r));
    }
}

#[test]
fn test_tag_effects_cash_in() {
    let mut rng = StdRng::seed_from_u64(13);
    let mut state = run(Vec::new(), 0);
    let mut tags = vec![
        Tag::new(TagId::CharmTag),
        Tag::new(TagId::TopUpTag),
        Tag::new(TagId::BuffoonTag),
        Tag::new(TagId::StandardTag),
        Tag::new(TagId::EconomyTag),
    ];
    let added = execute_tag_effects(&mut state, &mut tags, 1, 5, &mut rng);
    assert_eq!(added.len(), 3);
    assert_eq!(added[0].rarity(), 1);
    assert_eq!(added[1].rarity(), 1);
    assert_eq!(state.consumables.items.len(), 2);
    assert!(state.consumables.items.iter().all(|c| matches!(c, Consumable::Tarot(_))));
    assert_eq!(state.deck.len(), 7);
    let used: Vec<bool> = tags.iter().map(|t| t.used).collect();
    assert_eq!(used, vec![true, true, true, true, false]);
    let again = execute_tag_effects(&mut state, &mut tags, 4, 5, &mut rng);
    assert!(again.is_empty());
    assert_eq!(state.deck.len(), 7);
}

#[test]
fn test_joker_money_bonus() {
    let mut state = run(Vec::new(), 0);
    state.deck.push(Card::new(9, 0));
    state.deck.push(Card::new(9, 2));
    let mut rocket = joker(JokerId::Rocket, true, false, 1);
    rocket.counter = 2;
    let row = [
        joker(JokerId::Banner, true, false, 1),
        joker(JokerId::GoldenJoker, true, false, 1),
        joker(JokerId::ToTheMoon, true, false, 1),
        joker(JokerId::CloudNine, true, false, 1),
        rocket,
        joker(JokerId::Satellite, true, false, 1),
        joker(JokerId::Delayed, true, false, 1),
        joker(JokerId::GoldenJoker, false, false, 1),
    ];
    // Banner 3*2, Golden 4, Moon 1 ($10 held), Cloud Nine 2, Rocket 3, Satellite 5, Delayed 2.
    assert_eq!(state.calc_joker_money_bonus(&row, 3, 5, 0), 6 + 4 + 1 + 2 + 3 + 5 + 2);
    assert_eq!(state.calc_joker_money_bonus(&row[6..], 3, 5, 1), 0);
    assert_eq!(state.calc_joker_money_bonus(&[], 3, 5, 0), 0);
}

#[test]
fn test_hook_discards_two_and_refills() {
    let mut rng = StdRng::seed_from_u64(21);
    let mut state = run(cards(&[(10, 0), (11, 0), (12, 0)]), 0);
    let before: Vec<Card> = state.hand.iter().chain(state.deck.iter()).copied().collect();
    state.apply_hook_discard(3, &mut rng);
    assert_eq!(state.discarded.len(), 2);
    assert_eq!(state.hand.len(), 3);
    assert_eq!(state.hand[1], Card::new(5, 3));
    assert_eq!(state.hand[2], Card::new(4, 2));
    assert_eq!(state.deck.len(), 2);
    let after: Vec<Card> = state.hand.iter().chain(state.deck.iter()).chain(state.discarded.iter()).copied().collect();
    assert_eq!(multiset(&before), multiset(&after));
}

#[test]
fn test_serpent_draws_three_then_discards_three() {
    let mut rng = StdRng::seed_from_u64(22);
    let mut state = run(cards(&[(10, 0)]), 0);
    state.apply_serpent_effect(&mut rng);
    assert_eq!(state.deck.len(), 1);
    assert_eq!(state.hand.len(), 1);
    assert_eq!(state.discarded.len(), 3);
    let mut short = run(cards(&[(10, 0)]), 0);
    short.deck.clear();
    short.apply_serpent_effect(&mut rng);
    assert!(short.hand.is_empty());
    assert_eq!(short.discarded, cards(&[(10, 0)]));
}

#[test]
fn test_skip_blind_progression() {
    let mut rng = StdRng::seed_from_u64(23);
    let mut progress = BlindProgress { stage: Stage::Blind, blind_type: Some(BlindType::Small), boss_blind: None, ante: Ante::One };
    let mut money = 5;
    let mut tags: Vec<Tag> = Vec::new();
    let tag = skip_blind(&mut progress, &mut money, &mut tags, &mut rng).expect("small blind can be skipped");
    assert_eq!(progress.blind_type, Some(BlindType::Big));
    assert_eq!(progress.stage, Stage::PreBlind);
    assert_eq!(tags.len(), 1);
    assert_eq!(tags[0].id, tag.id);
    assert_eq!(money, 5 + tag.id.immediate_money());
    skip_blind(&mut progress, &mut money, &mut tags, &mut rng).expect("big blind can be skipped");
    assert_eq!(progress.blind_type, Some(BlindType::Boss));
    assert!(BossBlind::regular_bosses().contains(&progress.boss_blind.unwrap()));
    let before_money = money;
    assert!(skip_blind(&mut progress, &mut money, &mut tags, &mut rng).is_none());
    assert_eq!(money, before_money);
    assert_eq!(tags.len(), 2);
}

#[test]
fn test_use_consumable_in_blind_dispatch() {
    let mut rng = StdRng::seed_from_u64(31);
    let mut counters = UsageCounters {
        last_consumable_id: -1,
        planet_used_hand_types: 0,
        planets_used_this_run: 0,
        tarots_used_this_run: 0,
    };
    let mut state = run(cards(&[(2, 0), (3, 0)]), 0b01);
    assert!(state.consumables.add(Consumable::Planet(PlanetId::Mars)));
    assert!(state.consumables.add(Consumable::Tarot(TarotId::TheTower)));
    assert_eq!(execute_use_consumable_in_blind(&mut state, &mut counters, 5, &[], 5, &mut rng), None);
    assert_eq!(counters.last_consumable_id, -1);

    assert_eq!(
        execute_use_consumable_in_blind(&mut state, &mut counters, 0, &[], 5, &mut rng),
        Some(JokerChange::Unchanged)
    );
    assert_eq!(state.hand_levels.get(7), 2);
    assert_eq!(counters.planet_used_hand_types, 1 << 7);
    assert_eq!(counters.planets_used_this_run, 1);
    assert_eq!(counters.last_consumable_id, (22 + PlanetId::Mars.to_index()) as i32);

    assert_eq!(
        execute_use_consumable_in_blind(&mut state, &mut counters, 0, &[], 5, &mut rng),
        Some(JokerChange::Unchanged)
    );
    assert_eq!(state.hand[0].enhancement, Enhancement::Stone);
    assert_eq!(counters.tarots_used_this_run, 1);
    assert!(state.consumables.items.is_empty());
    assert_eq!(state.last_used_consumable, Some(Consumable::Tarot(TarotId::TheTower)));
}

#[test]
fn test_new_run_cards_from_deck() {
    let mut rng = StdRng::seed_from_u64(41);
    let yellow = RunCards::new_with_config(joker_guide::decks::DeckType::Yellow, &mut rng);
    assert_eq!(yellow.deck.len(), 52);
    assert_eq!(yellow.money, 14);
    assert!(yellow.hand.is_empty() && yellow.discarded.is_empty());
    assert_eq!(yellow.hand_levels.get(3), 1);
    let abandoned = RunCards::new_with_config(joker_guide::decks::DeckType::Abandoned, &mut rng);
    assert_eq!(abandoned.deck.len(), 40);
}

#[test]
fn test_new_run_cards_standard() {
    let fresh = RunCards::new();
    assert_eq!(fresh.deck, joker_guide::cards::standard_deck());
    assert_eq!(fresh.money, 4);
    assert_eq!(fresh.consumables.capacity, 2);
    assert!(fresh.last_used_consumable.is_none());
}
