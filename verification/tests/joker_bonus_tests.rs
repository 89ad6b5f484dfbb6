use joker_guide::cards::Card;
use joker_guide::hand_types::HandId;
use joker_guide::joker::{JokerId, ScoringContext};
use joker_guide::joker_bonus::compute_core_joker_bonus;

fn make_cards(ranks_suits: &[(u8, u8)]) -> Vec<Card> {
    ranks_suits.iter().map(|&(r, s)| Card::new(r, s)).collect()
}

#[test]
fn test_basic_joker() {
    let cards = make_cards(&[(5, 0)]);
    let ctx = ScoringContext::new(&cards, HandId::HighCard);
    let bonus = compute_core_joker_bonus(JokerId::Joker, &ctx, 0);
    assert_eq!(bonus.add_mult, 4);
}

#[test]
fn test_jolly_joker_with_pair() {
    let cards = make_cards(&[(5, 0), (5, 1)]);
    let ctx = ScoringContext::new(&cards, HandId::Pair);
    let bonus = compute_core_joker_bonus(JokerId::JollyJoker, &ctx, 0);
    assert_eq!(bonus.add_mult, 8);
}

#[test]
fn test_jolly_joker_without_pair() {
    let cards = make_cards(&[(5, 0), (6, 1)]);
    let ctx = ScoringContext::new(&cards, HandId::HighCard);
    let bonus = compute_core_joker_bonus(JokerId::JollyJoker, &ctx, 0);
    assert_eq!(bonus.add_mult, 0);
}

#[test]
fn test_half_joker() {
    let cards = make_cards(&[(5, 0), (6, 1), (7, 2)]);
    let ctx = ScoringContext::new(&cards, HandId::HighCard);
    let bonus = compute_core_joker_bonus(JokerId::HalfJoker, &ctx, 0);
    assert_eq!(bonus.add_mult, 20);
}

#[test]
fn test_banner_joker() {
    let cards = make_cards(&[(5, 0)]);
    let mut ctx = ScoringContext::new(&cards, HandId::HighCard);
    ctx.discards_remaining = 3;
    let bonus = compute_core_joker_bonus(JokerId::Banner, &ctx, 0);
    assert_eq!(bonus.chip_bonus, 90);
}

#[test]
fn test_greedy_joker() {
    let cards = make_cards(&[(5, 1), (6, 1), (7, 1)]);
    let ctx = ScoringContext::new(&cards, HandId::HighCard);
    let bonus = compute_core_joker_bonus(JokerId::GreedyJoker, &ctx, 0);
    assert_eq!(bonus.money_bonus, 9);
}

#[test]
fn test_abstract_joker() {
    let cards = make_cards(&[(5, 0)]);
    let mut ctx = ScoringContext::new(&cards, HandId::HighCard);
    ctx.joker_count = 4;
    let bonus = compute_core_joker_bonus(JokerId::AbstractJoker, &ctx, 0);
    assert_eq!(bonus.add_mult, 12);
}

#[test]
fn test_misprint_joker() {
    let cards = make_cards(&[(5, 0)]);
    let ctx = ScoringContext::new(&cards, HandId::HighCard);
    let bonus1 = compute_core_joker_bonus(JokerId::Misprint, &ctx, 0);
    assert_eq!(bonus1.add_mult, 0);
    let bonus2 = compute_core_joker_bonus(JokerId::Misprint, &ctx, 23);
    assert_eq!(bonus2.add_mult, 23);
}

#[test]
fn test_fibonacci() {
    let cards = make_cards(&[(1, 0), (2, 1), (3, 2), (5, 3), (8, 0)]);
    let ctx = ScoringContext::new(&cards, HandId::HighCard);
    let bonus = compute_core_joker_bonus(JokerId::Fibonacci, &ctx, 0);
    assert_eq!(bonus.add_mult, 40);
}

#[test]
fn test_walkie_with_10() {
    let cards = make_cards(&[(10, 0), (5, 1)]);
    let ctx = ScoringContext::new(&cards, HandId::HighCard);
    let bonus = compute_core_joker_bonus(JokerId::Walkie, &ctx, 0);
    assert_eq!(bonus.add_mult, 10);
}

#[test]
fn test_walkie_with_4() {
    let cards = make_cards(&[(4, 0), (7, 1)]);
    let ctx = ScoringContext::new(&cards, HandId::HighCard);
    let bonus = compute_core_joker_bonus(JokerId::Walkie, &ctx, 0);
    assert_eq!(bonus.add_mult, 10);
}

#[test]
fn test_walkie_without_10_or_4() {
    let cards = make_cards(&[(5, 0), (6, 1), (7, 2)]);
    let ctx = ScoringContext::new(&cards, HandId::HighCard);
    let bonus = compute_core_joker_bonus(JokerId::Walkie, &ctx, 0);
    assert_eq!(bonus.add_mult, 0);
}

#[test]
fn test_gros_michel_adds_mult() {
    let cards = make_cards(&[(5, 0)]);
    let ctx = ScoringContext::new(&cards, HandId::HighCard);
    let bonus = compute_core_joker_bonus(JokerId::Gros_Michel, &ctx, 0);
    assert_eq!(bonus.add_mult, 15);
    assert_eq!(bonus.money_bonus, 0);
}

#[test]
fn test_matador_no_trigger() {
    let cards = make_cards(&[(5, 0)]);
    let ctx = ScoringContext::new(&cards, HandId::HighCard);
    let bonus = compute_core_joker_bonus(JokerId::Matador, &ctx, 0);
    assert_eq!(bonus.money_bonus, 0);
}

#[test]
fn test_matador_with_trigger() {
    let cards = make_cards(&[(5, 0)]);
    let mut ctx = ScoringContext::new(&cards, HandId::HighCard);
    ctx.boss_ability_triggered = true;
    let bonus = compute_core_joker_bonus(JokerId::Matador, &ctx, 0);
    assert_eq!(bonus.money_bonus, 8);
}

#[test]
fn test_even_steven_per_card() {
    let cards = make_cards(&[(2, 0), (4, 0), (6, 0)]);
    let ctx = ScoringContext::new(&cards, HandId::HighCard);
    let bonus = compute_core_joker_bonus(JokerId::EvenSteven, &ctx, 0);
    assert_eq!(bonus.add_mult, 12);
}

#[test]
fn test_even_steven_excludes_face_cards() {
    let cards = make_cards(&[(12, 0), (13, 0), (4, 0)]);
    let ctx = ScoringContext::new(&cards, HandId::HighCard);
    let bonus = compute_core_joker_bonus(JokerId::EvenSteven, &ctx, 0);
    assert_eq!(bonus.add_mult, 4);
}

#[test]
fn test_odd_todd_per_card() {
    let cards = make_cards(&[(1, 0), (3, 0), (5, 0)]);
    let ctx = ScoringContext::new(&cards, HandId::HighCard);
    let bonus = compute_core_joker_bonus(JokerId::OddTodd, &ctx, 0);
    assert_eq!(bonus.chip_bonus, 93);
}

#[test]
fn test_odd_todd_excludes_face_cards() {
    let cards = make_cards(&[(11, 0), (13, 0), (3, 0)]);
    let ctx = ScoringContext::new(&cards, HandId::HighCard);
    let bonus = compute_core_joker_bonus(JokerId::OddTodd, &ctx, 0);
    assert_eq!(bonus.chip_bonus, 31);
}

#[test]
fn test_shoot_the_moon_queens_in_hand() {
    let played = make_cards(&[(5, 0)]);
    let hand = make_cards(&[(12, 0), (12, 1)]);
    let ctx = ScoringContext::with_hand(&played, &hand, HandId::HighCard);
    let bonus = compute_core_joker_bonus(JokerId::ShootTheMoon, &ctx, 0);
    assert_eq!(bonus.add_mult, 26);
}

#[test]
fn test_shoot_the_moon_no_queens() {
    let played = make_cards(&[(5, 0)]);
    let hand = make_cards(&[(13, 0), (11, 0)]);
    let ctx = ScoringContext::with_hand(&played, &hand, HandId::HighCard);
    let bonus = compute_core_joker_bonus(JokerId::ShootTheMoon, &ctx, 0);
    assert_eq!(bonus.add_mult, 0);
}

#[test]
fn test_shoot_the_moon_queens_played_not_counted() {
    let played = make_cards(&[(12, 0)]);
    let hand = make_cards(&[(5, 0)]);
    let ctx = ScoringContext::with_hand(&played, &hand, HandId::HighCard);
    let bonus = compute_core_joker_bonus(JokerId::ShootTheMoon, &ctx, 0);
    assert_eq!(bonus.add_mult, 0);
}

#[test]
fn test_stone_joker() {
    let cards = make_cards(&[(5, 0)]);
    let mut ctx = ScoringContext::new(&cards, HandId::HighCard);
    ctx.stone_cards_in_deck = 4;
    let bonus = compute_core_joker_bonus(JokerId::Stone, &ctx, 0);
    assert_eq!(bonus.chip_bonus, 100);
}

#[test]
fn test_stone_joker_no_stone_cards() {
    let cards = make_cards(&[(5, 0)]);
    let mut ctx = ScoringContext::new(&cards, HandId::HighCard);
    ctx.stone_cards_in_deck = 0;
    let bonus = compute_core_joker_bonus(JokerId::Stone, &ctx, 0);
    assert_eq!(bonus.chip_bonus, 0);
}

#[test]
fn test_core_bonus_scary_face_and_business_card() {
    let cards = make_cards(&[(11, 0), (12, 1), (3, 2)]);
    let ctx = ScoringContext::new(&cards, HandId::HighCard);
    let scary = compute_core_joker_bonus(JokerId::ScaryFace, &ctx, 0);
    assert_eq!(scary.chip_bonus, 60);
    let plain = compute_core_joker_bonus(JokerId::Joker, &ctx, 0);
    assert_eq!(plain.chip_bonus, 0);
    assert_eq!(plain.money_bonus, 0);
    assert_eq!(plain.retriggers, 0);
}
