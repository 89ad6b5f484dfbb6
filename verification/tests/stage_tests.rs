use joker_guide::blinds::{Ante, BlindType, BossBlind, GameEnd, Stage};
use joker_guide::cards::{Card, Edition, Enhancement, Seal};
use joker_guide::consumables::{Consumable, ConsumableSlots, HandLevels, PlanetId, SpectralId, TarotId};
use joker_guide::decks::DeckType;
use joker_guide::service::{BoosterPack, BoosterPackType};
use joker_guide::constants::{
    ACTION_TYPE_BUY_JOKER, ACTION_TYPE_CASH_OUT, ACTION_TYPE_DISCARD, ACTION_TYPE_NEXT_ROUND, ACTION_TYPE_PLAY,
    ACTION_TYPE_SELECT, ACTION_TYPE_SELECT_BLIND, ACTION_TYPE_SELL_JOKER, ACTION_TYPE_USE_CONSUMABLE, MAX_STEPS,
};
use joker_guide::joker::JokerId;
use joker_guide::run_state::{AnteProgress, BlindProgress, JokerChange, JokerFacts, RunCards, UsageCounters};
use joker_guide::vouchers::{VoucherEffects, VoucherId};
use joker_guide::shop::{Shop, ShopItem};
use joker_guide::stage::{
    add_blue_seal_planets, apply_joker_change, buy_pack, hand_total, score_cards, perkeo_copies, use_consumable_in_shop, blind_allowance, buy_voucher, blind_reward_money, buy_joker, cash_out, discard, next_round, play_hand, select_blind, select_cards, sell_joker,
    step, BlindRound, PlayOutcome, PlayedHand, RunState, StepInputs,
};
use joker_guide::stakes::Stake;
use joker_guide::tags::TagId;
use rand::rngs::StdRng;
use rand::SeedableRng;

fn cards(ranks_suits: &[(u8, u8)]) -> Vec<Card> {
    ranks_suits.iter().map(|&(r, s)| Card::new(r, s)).collect()
}

fn run(hand: Vec<Card>, mask: u32) -> RunCards {
    RunCards {
        hand,
        deck: cards(&[(2, 0), (3, 1), (4, 2), (5, 3), (6, 0), (7, 1), (8, 2), (9, 3), (10, 0), (11, 1)]),
        discarded: Vec::new(),
        selected_mask: mask,
        money: 10,
        consumables: ConsumableSlots::new(),
        hand_levels: HandLevels::new(),
        hand_size_modifier: 0,
        last_used_consumable: None,
    }
}

fn joker(id: JokerId) -> JokerFacts {
    JokerFacts {
        id,
        enabled: true,
        is_negative: false,
        sell_value: 3,
        turtle_hand_mod: 0,
        counter: 0,
        is_eternal: false,
        is_perishable: false,
        perishable_rounds: 0,
        is_rental: false,
        edition: Edition::Base,
    }
}

fn round(plays: i32, discards: i32) -> BlindRound {
    BlindRound { plays_left: plays, discards_left: discards, score: 0, hands_played: 0, discards_used: 0, reward: 0 }
}

fn played(score: i64, required: i64) -> PlayedHand {
    PlayedHand { hand_type: 1, score, money: 0, glass: Vec::new(), required, reward: 7, selzer_used: 0 }
}

#[test]
fn test_blind_allowance_counts_jokers() {
    assert_eq!(blind_allowance(None, &[], Stake::White, 0, 0), (4, 3));
    assert_eq!(blind_allowance(Some(BossBlind::TheNeedle), &[], Stake::White, 0, 0), (1, 3));
    assert_eq!(blind_allowance(Some(BossBlind::Crimson), &[], Stake::White, 0, 0), (3, 3));
    let mut drunk = joker(JokerId::Drunkard);
    assert_eq!(blind_allowance(None, &[drunk, joker(JokerId::Drunkard)], Stake::White, 0, 0), (4, 5));
    drunk.enabled = false;
    assert_eq!(blind_allowance(None, &[drunk], Stake::White, 0, 0), (4, 3));
    assert_eq!(blind_allowance(None, &[joker(JokerId::Troubadour)], Stake::White, 0, 0), (3, 3));
    assert_eq!(blind_allowance(Some(BossBlind::TheNeedle), &[joker(JokerId::Troubadour)], Stake::White, 0, 0), (1, 3));
    assert_eq!(blind_allowance(None, &[joker(JokerId::Burglar), joker(JokerId::Drunkard)], Stake::White, 0, 0), (7, 0));
}

#[test]
fn test_select_cards_at_most_five() {
    let mut c = run(cards(&[(2, 0), (3, 0), (4, 0), (5, 0), (6, 0), (7, 0), (8, 0), (9, 0)]), 0);
    select_cards(&mut c, 0b0001_0110);
    assert_eq!(c.selected_mask, 0b0001_0110);
    select_cards(&mut c, 0b0011_1111);
    assert_eq!(c.selected_mask, 0b0001_0110);
    // only the low eight bits count
    select_cards(&mut c, 0x100 | 0b1);
    assert_eq!(c.selected_mask, 0b1);
}

#[test]
fn test_play_hand_clears_blind() {
    let mut rng = StdRng::seed_from_u64(1);
    let mut stage = Stage::Blind;
    let mut r = round(4, 3);
    let mut c = run(cards(&[(2, 0), (3, 0), (4, 0)]), 0b011);
    let mut p = played(300, 300);
    p.money = 2;
    let out = play_hand(&mut stage, None, Ante::One, &mut r, &mut c, &mut Vec::new(), &p, 8, &mut rng);
    assert_eq!(out, PlayOutcome::Cleared);
    assert_eq!(stage, Stage::PostBlind);
    assert_eq!(r.score, 300);
    assert_eq!(r.plays_left, 3);
    assert_eq!(r.hands_played, 1);
    assert_eq!(r.reward, 7);
    assert_eq!(c.money, 12);
    assert_eq!(c.selected_mask, 0);
}

#[test]
fn test_play_hand_last_hand_loses() {
    let mut rng = StdRng::seed_from_u64(1);
    let mut stage = Stage::Blind;
    let mut r = round(1, 3);
    let mut c = run(cards(&[(2, 0), (3, 0)]), 0b1);
    let out = play_hand(&mut stage, None, Ante::One, &mut r, &mut c, &mut Vec::new(), &played(10, 300), 8, &mut rng);
    assert_eq!(out, PlayOutcome::Lost);
    assert_eq!(stage, Stage::End(GameEnd::Lose));
    assert_eq!(r.plays_left, 0);
    assert_eq!(r.reward, 0);
}

#[test]
fn test_play_hand_redeals_when_hands_remain() {
    let mut rng = StdRng::seed_from_u64(3);
    let mut stage = Stage::Blind;
    let mut r = round(4, 3);
    let mut c = run(cards(&[(2, 0), (3, 0), (4, 0)]), 0b1);
    let out = play_hand(&mut stage, None, Ante::One, &mut r, &mut c, &mut Vec::new(), &played(10, 300), 5, &mut rng);
    assert_eq!(out, PlayOutcome::Continued);
    assert_eq!(stage, Stage::Blind);
    assert_eq!(c.hand.len(), 5);
    assert_eq!(c.selected_mask, 0);
}

#[test]
fn test_play_hand_ignored_cases() {
    let mut rng = StdRng::seed_from_u64(1);
    let mut stage = Stage::Blind;
    let mut r = round(4, 3);
    let mut c = run(cards(&[(2, 0), (3, 0)]), 0);
    assert_eq!(play_hand(&mut stage, None, Ante::One, &mut r, &mut c, &mut Vec::new(), &played(10, 5), 8, &mut rng), PlayOutcome::Ignored);
    c.selected_mask = 0b11;
    // The Psychic wants five cards
    assert_eq!(
        play_hand(&mut stage, Some(BossBlind::ThePsychic), Ante::One, &mut r, &mut c, &mut Vec::new(), &played(10, 5), 8, &mut rng),
        PlayOutcome::Ignored
    );
    assert_eq!(r.plays_left, 4);
    assert_eq!(c.selected_mask, 0b11);
    let mut none_left = round(0, 3);
    assert_eq!(play_hand(&mut stage, None, Ante::One, &mut none_left, &mut c, &mut Vec::new(), &played(10, 5), 8, &mut rng), PlayOutcome::Ignored);
}

#[test]
fn test_play_hand_breaks_glass() {
    let mut rng = StdRng::seed_from_u64(1);
    let mut stage = Stage::Blind;
    let mut r = round(4, 3);
    let mut c = run(cards(&[(2, 0), (3, 0), (4, 0)]), 0b101);
    let mut p = played(500, 100);
    p.glass = vec![1];
    play_hand(&mut stage, None, Ante::One, &mut r, &mut c, &mut Vec::new(), &p, 8, &mut rng);
    assert_eq!(c.hand, cards(&[(2, 0), (3, 0)]));
}

#[test]
fn test_discard_uses_a_discard() {
    let mut r = round(4, 2);
    let mut c = run(cards(&[(2, 0), (3, 0), (4, 0)]), 0b110);
    assert_eq!(discard(&mut r, &mut c, 3), Some(2));
    assert_eq!(r.discards_left, 1);
    assert_eq!(r.discards_used, 1);
    assert_eq!(c.discarded, cards(&[(3, 0), (4, 0)]));
    assert_eq!(c.hand.len(), 3);
    assert_eq!(c.selected_mask, 0);
    assert_eq!(discard(&mut r, &mut c, 3), None);
    let mut none_left = round(4, 0);
    c.selected_mask = 1;
    assert_eq!(discard(&mut none_left, &mut c, 3), None);
    assert_eq!(c.selected_mask, 1);
}

#[test]
fn test_select_blind_starts_small_blind() {
    let mut rng = StdRng::seed_from_u64(5);
    let mut progress = BlindProgress { stage: Stage::PreBlind, blind_type: None, boss_blind: None, ante: Ante::One };
    let mut r = round(0, 0);
    r.score = 99;
    let mut c = run(Vec::new(), 0);
    let mut steak = joker(JokerId::SteakJoker);
    steak.sell_value = 1;
    let mut jokers = vec![steak, joker(JokerId::Egg), joker(JokerId::Drunkard)];
    select_blind(&mut progress, &mut r, &mut c, &mut jokers, &mut usage(), Stake::White, 0, 0, 8, 5, &mut rng);
    assert_eq!(progress.stage, Stage::Blind);
    assert_eq!(progress.blind_type, Some(BlindType::Small));
    assert_eq!(progress.boss_blind, None);
    assert_eq!((r.plays_left, r.discards_left, r.score), (4, 4, 0));
    assert_eq!(c.hand.len(), 8);
    assert_eq!(jokers[0].sell_value, 0);
    assert!(!jokers[0].enabled);
    assert_eq!(jokers[1].sell_value, 6);
}

#[test]
fn test_select_blind_after_big_draws_boss() {
    let mut rng = StdRng::seed_from_u64(9);
    let mut progress =
        BlindProgress { stage: Stage::PreBlind, blind_type: Some(BlindType::Big), boss_blind: None, ante: Ante::Two };
    let mut r = round(0, 0);
    let mut c = run(Vec::new(), 0);
    let mut jokers = Vec::new();
    select_blind(&mut progress, &mut r, &mut c, &mut jokers, &mut usage(), Stake::White, 0, 0, 8, 5, &mut rng);
    assert_eq!(progress.blind_type, Some(BlindType::Boss));
    assert!(progress.boss_blind.is_some());
}

#[test]
fn test_cash_out_pays_reward_and_jokers() {
    let mut stage = Stage::PostBlind;
    let mut r = round(2, 0);
    r.reward = 8;
    let mut c = run(cards(&[(9, 0), (4, 1)]), 0);
    c.hand[1].seal = Seal::Gold;
    c.deck[0].enhancement = Enhancement::Gold;
    let mut rocket = joker(JokerId::Rocket);
    rocket.counter = 2;
    let mut jokers = vec![
        rocket,
        joker(JokerId::Satellite),
        joker(JokerId::Certificate),
        joker(JokerId::CloudNine),
        joker(JokerId::Golden_Ticket),
        joker(JokerId::Delayed),
        joker(JokerId::GiftCard),
        joker(JokerId::Egg),
    ];
    let gained = cash_out(&mut stage, &mut r, &mut c, &mut jokers, 4, 1);
    // 8 reward + 1 parking + 3 rocket + 4 satellite + 1 certificate + 2 nines + 3 ticket + 2 delayed
    assert_eq!(gained, 24);
    assert_eq!(c.money, 34);
    assert_eq!(r.reward, 0);
    assert_eq!(stage, Stage::Shop);
    assert_eq!(jokers[0].sell_value, 4);
    assert_eq!(jokers[7].sell_value, 7);
}

#[test]
fn test_buy_and_sell_jokers() {
    let mut shop = Shop::new();
    shop.items.push(ShopItem::new(JokerId::Joker, 4));
    shop.items.push(ShopItem::new(JokerId::Egg, 20));
    let mut jokers = Vec::new();
    let mut money: i64 = 10;
    let mut rng = StdRng::seed_from_u64(4);
    assert_eq!(buy_joker(&mut shop, &mut jokers, &mut money, 1, 5, 0, &mut rng), None);
    assert_eq!(buy_joker(&mut shop, &mut jokers, &mut money, 5, 5, 0, &mut rng), None);
    assert_eq!(buy_joker(&mut shop, &mut jokers, &mut money, 0, 5, 0, &mut rng), Some(4));
    assert_eq!(money, 6);
    assert_eq!(jokers.len(), 1);
    assert_eq!(jokers[0].id, JokerId::Joker);
    assert_eq!(jokers[0].sell_value, 2);
    assert_eq!(shop.items.len(), 1);
    // no free slot
    assert_eq!(buy_joker(&mut shop, &mut jokers, &mut money, 0, 1, 100, &mut rng), None);
    let sold = sell_joker(&mut jokers, &mut money, 0);
    assert_eq!(sold.map(|j| j.id), Some(JokerId::Joker));
    assert_eq!(money, 8);
    assert!(jokers.is_empty());
    let mut eternal = joker(JokerId::Egg);
    eternal.is_eternal = true;
    jokers.push(eternal);
    assert!(sell_joker(&mut jokers, &mut money, 0).is_none());
    assert_eq!(jokers.len(), 1);
}

#[test]
fn test_next_round_rent_and_perishables() {
    let mut progress =
        BlindProgress { stage: Stage::Shop, blind_type: Some(BlindType::Small), boss_blind: None, ante: Ante::One };
    let mut ante = AnteProgress { ante: Ante::One, endless_mode: false, endless_ante: 0 };
    let mut a = joker(JokerId::Joker);
    a.is_rental = true;
    let mut b = joker(JokerId::Egg);
    b.is_rental = true;
    let mut p = joker(JokerId::Rocket);
    p.is_perishable = true;
    p.perishable_rounds = 1;
    let mut jokers = vec![a, b, p];
    let mut money: i64 = 4;
    let mut round_number = 1;
    let won = next_round(&mut progress, &mut ante, &mut jokers, &mut money, &mut round_number, 0);
    assert!(!won);
    assert_eq!(progress.stage, Stage::PreBlind);
    assert_eq!(round_number, 2);
    // the perishable joker ran out; $4 pays for one rental, the first one leaves
    assert_eq!(jokers.len(), 1);
    assert_eq!(jokers[0].id, JokerId::Egg);
    assert_eq!(money, 1);
}

#[test]
fn test_next_round_after_boss_advances_or_wins() {
    let mut progress =
        BlindProgress { stage: Stage::Shop, blind_type: Some(BlindType::Boss), boss_blind: None, ante: Ante::One };
    let mut ante = AnteProgress { ante: Ante::One, endless_mode: false, endless_ante: 0 };
    let mut jokers = vec![joker(JokerId::Rocket)];
    let mut money: i64 = 0;
    let mut round_number = 3;
    assert!(!next_round(&mut progress, &mut ante, &mut jokers, &mut money, &mut round_number, 0));
    assert_eq!(progress.ante, Ante::Two);
    assert_eq!(progress.blind_type, None);
    assert_eq!(jokers[0].counter, 1);
    let mut last =
        BlindProgress { stage: Stage::Shop, blind_type: Some(BlindType::Boss), boss_blind: None, ante: Ante::Eight };
    let mut ante8 = AnteProgress { ante: Ante::Eight, endless_mode: false, endless_ante: 0 };
    assert!(next_round(&mut last, &mut ante8, &mut jokers, &mut money, &mut round_number, 0));
    assert_eq!(last.stage, Stage::End(GameEnd::Win));
}

fn no_inputs() -> StepInputs {
    StepInputs { play: None, parking_dollars: 0 }
}

#[test]
fn test_step_runs_a_blind_to_the_shop() {
    let mut rng = StdRng::seed_from_u64(11);
    let mut s = RunState::new(RunCards::new(), Stake::White, DeckType::Red, 8);
    let out = step(&mut s, ACTION_TYPE_SELECT_BLIND, 0, &no_inputs(), &mut rng);
    assert!(!out.done);
    assert_eq!(s.progress.stage, Stage::Blind);
    assert_eq!(s.cards.hand.len(), 8);
    step(&mut s, ACTION_TYPE_SELECT, 0b11111, &no_inputs(), &mut rng);
    assert_eq!(s.cards.selected_mask, 0b11111);
    let inputs = StepInputs { play: Some(played(400, 300)), parking_dollars: 0 };
    let out = step(&mut s, ACTION_TYPE_PLAY, 0, &inputs, &mut rng);
    assert_eq!(out.score_delta, 400);
    assert_eq!(s.progress.stage, Stage::PostBlind);
    let money = s.cards.money;
    let out = step(&mut s, ACTION_TYPE_CASH_OUT, 0, &no_inputs(), &mut rng);
    assert_eq!(out.money_delta, 7);
    assert_eq!(s.cards.money, money + 7);
    assert_eq!(s.progress.stage, Stage::Shop);
    assert_eq!(s.shop.items.len(), 2);
    assert_eq!(s.episode_step, 4);
    let out = step(&mut s, ACTION_TYPE_NEXT_ROUND, 0, &no_inputs(), &mut rng);
    assert!(!out.done);
    assert_eq!(s.progress.stage, Stage::PreBlind);
}

#[test]
fn test_step_discard_and_lose() {
    let mut rng = StdRng::seed_from_u64(12);
    let mut s = RunState::new(RunCards::new(), Stake::White, DeckType::Red, 8);
    step(&mut s, ACTION_TYPE_SELECT_BLIND, 0, &no_inputs(), &mut rng);
    step(&mut s, ACTION_TYPE_SELECT, 0b1, &no_inputs(), &mut rng);
    step(&mut s, ACTION_TYPE_DISCARD, 0, &no_inputs(), &mut rng);
    assert_eq!(s.round.discards_left, 2);
    let mut done = false;
    for _ in 0..4 {
        step(&mut s, ACTION_TYPE_SELECT, 0b1, &no_inputs(), &mut rng);
        let inputs = StepInputs { play: Some(played(1, 1000)), parking_dollars: 0 };
        done = step(&mut s, ACTION_TYPE_PLAY, 0, &inputs, &mut rng).done;
    }
    assert!(done);
    assert_eq!(s.progress.stage, Stage::End(GameEnd::Lose));
    // an ended run stays ended
    let out = step(&mut s, ACTION_TYPE_SELECT_BLIND, 0, &no_inputs(), &mut rng);
    assert!(out.done);
    assert_eq!(s.progress.stage, Stage::End(GameEnd::Lose));
}

#[test]
fn test_step_limit_loses_the_run() {
    let mut rng = StdRng::seed_from_u64(13);
    let mut s = RunState::new(RunCards::new(), Stake::White, DeckType::Red, 8);
    s.episode_step = MAX_STEPS - 1;
    let out = step(&mut s, ACTION_TYPE_SELL_JOKER, 0, &no_inputs(), &mut rng);
    assert!(out.done);
    assert_eq!(s.progress.stage, Stage::End(GameEnd::Lose));
}

#[test]
fn test_step_shop_buy_and_sell_diet_cola() {
    let mut rng = StdRng::seed_from_u64(14);
    let mut s = RunState::new(RunCards::new(), Stake::White, DeckType::Red, 8);
    s.progress.stage = Stage::Shop;
    s.cards.money = 20;
    s.shop.items.push(ShopItem::new(JokerId::DietCola, 6));
    let out = step(&mut s, ACTION_TYPE_BUY_JOKER, 0, &no_inputs(), &mut rng);
    assert_eq!(out.action_cost, 6);
    assert_eq!(out.money_delta, -6);
    assert_eq!(s.jokers.len(), 1);
    let out = step(&mut s, ACTION_TYPE_SELL_JOKER, 0, &no_inputs(), &mut rng);
    assert_eq!(out.money_delta, 3);
    assert!(s.jokers.is_empty());
    assert_eq!(s.tags.len(), 1);
    assert_eq!(s.tags[0].id, TagId::DoubleTag);
}

#[test]
fn test_play_hand_arm_and_ox() {
    let mut rng = StdRng::seed_from_u64(2);
    let mut stage = Stage::Blind;
    let mut r = round(4, 3);
    let mut c = run(cards(&[(2, 0), (2, 1)]), 0b11);
    c.hand_levels.upgrade(1);
    let before = c.hand_levels.get(1);
    let mut p = played(500, 100);
    p.hand_type = 1;
    play_hand(&mut stage, Some(BossBlind::TheArm), Ante::One, &mut r, &mut c, &mut Vec::new(), &p, 8, &mut rng);
    assert_eq!(c.hand_levels.get(1), before - 1);
    // The Ox at the second ante names the pair (index 1)
    let mut stage = Stage::Blind;
    let mut r = round(4, 3);
    let mut c = run(cards(&[(2, 0), (2, 1)]), 0b11);
    play_hand(&mut stage, Some(BossBlind::TheOx), Ante::Two, &mut r, &mut c, &mut Vec::new(), &p, 8, &mut rng);
    assert_eq!(c.money, 9);
    let mut stage = Stage::Blind;
    let mut r = round(4, 3);
    let mut c = run(cards(&[(2, 0), (2, 1)]), 0b11);
    play_hand(&mut stage, Some(BossBlind::TheOx), Ante::One, &mut r, &mut c, &mut Vec::new(), &p, 8, &mut rng);
    assert_eq!(c.money, 10);
}

#[test]
fn test_blue_seals_bring_planets() {
    let mut c = run(cards(&[(2, 0), (3, 0), (4, 0)]), 0);
    c.hand[0].seal = Seal::Blue;
    c.hand[1].seal = Seal::Blue;
    c.hand[2].seal = Seal::Blue;
    add_blue_seal_planets(&mut c, Some(1));
    // two slots: two planets for the pair
    assert_eq!(c.consumables.items.len(), 2);
    assert!(matches!(c.consumables.items[0], Consumable::Planet(PlanetId::Mercury)));
    let mut d = run(cards(&[(2, 0)]), 0);
    d.hand[0].seal = Seal::Blue;
    add_blue_seal_planets(&mut d, None);
    assert!(d.consumables.items.is_empty());
}

#[test]
fn test_blind_reward_money() {
    let c = run(cards(&[(2, 0)]), 0);
    // Big blind $4, interest $1, two hands left at $1
    assert_eq!(
        blind_reward_money(&c, Some(BlindType::Big), Stake::White, DeckType::Red, 1, 2, &[], 0, 0, 1),
        7
    );
    // above White Stake the Small blind pays no base reward; the Green deck pays no interest
    // and $2 per hand left
    assert_eq!(
        blind_reward_money(&c, Some(BlindType::Small), Stake::Red, DeckType::Green, 1, 2, &[], 0, 0, 1),
        4
    );
}

#[test]
fn test_apply_joker_changes() {
    let mut row = vec![joker(JokerId::Joker), joker(JokerId::Egg)];
    apply_joker_change(&mut row, JokerChange::Unchanged);
    assert_eq!(row.len(), 2);
    apply_joker_change(&mut row, JokerChange::MakeNegative(1));
    assert!(row[1].is_negative);
    apply_joker_change(&mut row, JokerChange::SetEdition(0, Edition::Foil));
    assert_eq!(row[0].edition, Edition::Foil);
    apply_joker_change(&mut row, JokerChange::SetEdition(9, Edition::Foil));
    assert_eq!(row.len(), 2);
    apply_joker_change(&mut row, JokerChange::Add(JokerId::Joker));
    assert_eq!(row.len(), 3);
    assert_eq!(row[2].id, JokerId::Joker);
    assert_eq!(row[2].sell_value, 1);
    assert!(row[2].enabled);
    apply_joker_change(&mut row, JokerChange::KeepTwice(1));
    assert_eq!(row.len(), 2);
    assert_eq!(row[0].id, JokerId::Egg);
    assert_eq!(row[1].id, JokerId::Egg);
    apply_joker_change(&mut row, JokerChange::KeepPolychrome(0));
    assert_eq!(row.len(), 1);
    assert_eq!(row[0].edition, Edition::Polychrome);
}

#[test]
fn test_buy_voucher() {
    let mut offer = Some(VoucherId::Grabber);
    let mut effects = VoucherEffects::new();
    let mut money: i64 = 9;
    assert_eq!(buy_voucher(&mut offer, &mut effects, &mut money, 0), None);
    assert_eq!(offer, Some(VoucherId::Grabber));
    assert_eq!(buy_voucher(&mut offer, &mut effects, &mut money, 1), Some(10));
    assert_eq!(money, -1);
    assert_eq!(effects.owned, vec![VoucherId::Grabber]);
    assert_eq!(effects.extra_hands, 1);
    assert_eq!(offer, None);
    assert_eq!(buy_voucher(&mut offer, &mut effects, &mut money, 100), None);
}

#[test]
fn test_blind_allowance_stake_and_vouchers() {
    // Blue Stake: one discard less; Gold Stake: one hand and one discard less
    assert_eq!(blind_allowance(None, &[], Stake::Blue, 0, 0), (4, 2));
    assert_eq!(blind_allowance(None, &[], Stake::Gold, 0, 0), (3, 2));
    // Grabber and Wasteful: one more each
    assert_eq!(blind_allowance(None, &[], Stake::White, 1, 1), (5, 4));
    // a Burglar still takes every discard
    assert_eq!(blind_allowance(None, &[joker(JokerId::Burglar)], Stake::Blue, 1, 1), (8, 0));
}

#[test]
fn test_step_select_blind_applies_stake() {
    let mut rng = StdRng::seed_from_u64(31);
    let mut s = RunState::new(RunCards::new(), Stake::Blue, DeckType::Red, 8);
    step(&mut s, ACTION_TYPE_SELECT_BLIND, 0, &no_inputs(), &mut rng);
    assert_eq!(s.round.plays_left, 4);
    assert_eq!(s.round.discards_left, 2);
}

#[test]
fn test_step_reports_discard_count() {
    let mut rng = StdRng::seed_from_u64(32);
    let mut s = RunState::new(RunCards::new(), Stake::White, DeckType::Red, 8);
    step(&mut s, ACTION_TYPE_SELECT_BLIND, 0, &no_inputs(), &mut rng);
    step(&mut s, ACTION_TYPE_SELECT, 0b1011, &no_inputs(), &mut rng);
    let out = step(&mut s, ACTION_TYPE_DISCARD, 0, &no_inputs(), &mut rng);
    assert_eq!(out.cards_discarded, 3);
    assert_eq!(s.cards.discarded.len(), 3);
    assert_eq!(s.cards.hand.len() + s.cards.deck.len() + s.cards.discarded.len(), 52);
}

#[test]
fn test_step_uses_planet_in_blind() {
    let mut rng = StdRng::seed_from_u64(21);
    let mut s = RunState::new(RunCards::new(), Stake::White, DeckType::Red, 8);
    step(&mut s, ACTION_TYPE_SELECT_BLIND, 0, &no_inputs(), &mut rng);
    s.cards.consumables.add(Consumable::Planet(PlanetId::Mercury));
    let level = s.cards.hand_levels.get(1);
    step(&mut s, ACTION_TYPE_USE_CONSUMABLE, 0, &no_inputs(), &mut rng);
    assert_eq!(s.cards.hand_levels.get(1), level + 1);
    assert!(s.cards.consumables.items.is_empty());
    assert_eq!(s.usage.planets_used_this_run, 1);
}

fn usage() -> UsageCounters {
    UsageCounters { last_consumable_id: -1, planet_used_hand_types: 0, planets_used_this_run: 0, tarots_used_this_run: 0 }
}

#[test]
fn test_use_consumables_in_shop() {
    let mut c = run(cards(&[(2, 0)]), 0);
    let mut u = usage();
    c.consumables.add(Consumable::Planet(PlanetId::Mercury));
    c.consumables.add(Consumable::Tarot(TarotId::TheFool));
    assert!(!use_consumable_in_shop(&mut c, &mut u, 5));
    assert!(use_consumable_in_shop(&mut c, &mut u, 0));
    assert_eq!(c.hand_levels.get(1), 2);
    assert_eq!(u.planets_used_this_run, 1);
    assert_eq!(u.planet_used_hand_types, 0b10);
    // The Fool brings back the planet
    assert!(use_consumable_in_shop(&mut c, &mut u, 0));
    assert_eq!(u.tarots_used_this_run, 1);
    assert_eq!(c.consumables.items.len(), 1);
    assert!(matches!(c.consumables.items[0], Consumable::Planet(PlanetId::Mercury)));
    assert!(matches!(c.last_used_consumable, Some(Consumable::Planet(PlanetId::Mercury))));
    c.consumables.items.clear();
    c.consumables.add(Consumable::Spectral(SpectralId::BlackHole));
    assert!(use_consumable_in_shop(&mut c, &mut u, 0));
    assert_eq!(c.hand_levels.get(0), 2);
    assert_eq!(c.hand_levels.get(1), 3);
    // cards in hand are untouched in the shop
    assert_eq!(c.hand, cards(&[(2, 0)]));
}

#[test]
fn test_perkeo_copies_consumables() {
    let mut rng = StdRng::seed_from_u64(4);
    let mut c = run(Vec::new(), 0);
    perkeo_copies(&mut c, 2, &mut rng);
    assert!(c.consumables.items.is_empty());
    c.consumables.add(Consumable::Tarot(TarotId::TheFool));
    perkeo_copies(&mut c, 2, &mut rng);
    assert_eq!(c.consumables.items.len(), 3);
    assert!(c.consumables.items.iter().all(|i| matches!(i, Consumable::Tarot(TarotId::TheFool))));
}

#[test]
fn test_score_cards_chips_and_mult() {
    let mut rng = StdRng::seed_from_u64(6);
    let mut cs = cards(&[(2, 0), (13, 1), (1, 2)]);
    let t = score_cards(&cs, None, true, 0, &mut rng);
    // 2 + 10 + 11
    assert_eq!(t.chips, 23);
    assert_eq!(t.mult, 0);
    assert_eq!(t.money, 0);
    cs[0].enhancement = Enhancement::Bonus;
    cs[1].edition = Edition::Foil;
    cs[2].enhancement = Enhancement::Mult;
    cs[2].edition = Edition::Holographic;
    let t = score_cards(&cs, None, true, 0, &mut rng);
    assert_eq!(t.chips, 32 + 60 + 11);
    assert_eq!(t.mult, 14);
}

#[test]
fn test_score_cards_seals_and_seltzer() {
    let mut rng = StdRng::seed_from_u64(7);
    let mut cs = cards(&[(5, 0), (6, 1), (7, 2)]);
    cs[0].seal = Seal::Red;
    cs[1].seal = Seal::Gold;
    let t = score_cards(&cs, None, true, 0, &mut rng);
    assert_eq!(t.chips, 10 + 6 + 7);
    assert_eq!(t.money, 3);
    // Seltzer with two charges: the first two scoring cards count once more
    let t = score_cards(&cs, None, true, 2, &mut rng);
    assert_eq!(t.chips, 15 + 12 + 7);
    assert_eq!(t.selzer_used, 2);
    let t = score_cards(&cs, None, true, 9, &mut rng);
    assert_eq!(t.selzer_used, 3);
}

#[test]
fn test_score_cards_boss_rules() {
    let mut rng = StdRng::seed_from_u64(8);
    let mut cs = cards(&[(5, 0), (12, 1), (7, 2)]);
    // The Club: spades score nothing unless wild
    assert_eq!(score_cards(&cs, Some(BossBlind::TheClub), true, 0, &mut rng).chips, 17);
    cs[0].enhancement = Enhancement::Wild;
    assert_eq!(score_cards(&cs, Some(BossBlind::TheClub), true, 0, &mut rng).chips, 22);
    // The Plant: face cards score nothing
    assert_eq!(score_cards(&cs, Some(BossBlind::ThePlant), true, 0, &mut rng).chips, 12);
    // The Head: hearts only on the first hand
    assert_eq!(score_cards(&cs, Some(BossBlind::TheHead), false, 0, &mut rng).chips, 15);
    assert_eq!(score_cards(&cs, Some(BossBlind::TheHead), true, 0, &mut rng).chips, 22);
    // face-down cards score nothing
    cs[1].face_down = true;
    assert_eq!(score_cards(&cs, None, true, 0, &mut rng).chips, 12);
}

#[test]
fn test_score_cards_glass_and_lucky_bounds() {
    let mut rng = StdRng::seed_from_u64(10);
    let mut cs = cards(&[(5, 0), (6, 1)]);
    cs[0].enhancement = Enhancement::Glass;
    cs[1].enhancement = Enhancement::Lucky;
    for _ in 0..50 {
        let t = score_cards(&cs, None, true, 0, &mut rng);
        assert!(t.glass_to_break.iter().all(|&g| g == 0));
        assert!(t.glass_to_break.len() <= 1);
        assert!(t.mult == 0 || t.mult == 20);
        assert!(t.money == 0 || t.money == 20);
        assert_eq!(20 * t.lucky_triggers as i64, t.mult + t.money);
    }
}

#[test]
fn test_hand_total_flint() {
    assert_eq!(hand_total(10, 5, 3, 2, None), 20);
    assert_eq!(hand_total(10, 5, 3, 3, Some(BossBlind::TheFlint)), 11);
    assert_eq!(hand_total(10, 5, 3, 2, Some(BossBlind::TheFlint)), 10);
}

#[test]
fn test_played_cards_midas_vampire_hiker() {
    let mut rng = StdRng::seed_from_u64(15);
    let mut stage = Stage::Blind;
    let mut r = round(4, 3);
    let mut c = run(cards(&[(12, 0), (5, 1), (13, 2)]), 0b011);
    c.hand[1].enhancement = Enhancement::Bonus;
    let mut jokers = vec![joker(JokerId::MidasMask), joker(JokerId::Hiker), joker(JokerId::Hiker)];
    play_hand(&mut stage, None, Ante::One, &mut r, &mut c, &mut jokers, &played(500, 100), 8, &mut rng);
    assert_eq!(c.hand[0].enhancement, Enhancement::Gold);
    assert_eq!(c.hand[0].bonus_chips, 4);
    assert_eq!(c.hand[1].enhancement, Enhancement::Bonus);
    assert_eq!(c.hand[1].bonus_chips, 4);
    // not selected
    assert_eq!(c.hand[2].enhancement, Enhancement::NoEnhancement);
    assert_eq!(c.hand[2].bonus_chips, 0);
    // Vampire takes the enhancements, the gold from Midas Mask too
    let mut stage = Stage::Blind;
    let mut r = round(4, 3);
    let mut c = run(cards(&[(12, 0), (5, 1)]), 0b11);
    c.hand[1].enhancement = Enhancement::Bonus;
    let mut jokers = vec![joker(JokerId::MidasMask), joker(JokerId::Vampire)];
    play_hand(&mut stage, None, Ante::One, &mut r, &mut c, &mut jokers, &played(500, 100), 8, &mut rng);
    assert_eq!(c.hand[0].enhancement, Enhancement::NoEnhancement);
    assert_eq!(c.hand[1].enhancement, Enhancement::NoEnhancement);
}

#[test]
fn test_select_blind_certificate_adds_sealed_card() {
    let mut rng = StdRng::seed_from_u64(16);
    let mut progress = BlindProgress { stage: Stage::PreBlind, blind_type: None, boss_blind: None, ante: Ante::One };
    let mut r = round(0, 0);
    let mut c = run(Vec::new(), 0);
    let mut jokers = vec![joker(JokerId::Certificate)];
    select_blind(&mut progress, &mut r, &mut c, &mut jokers, &mut usage(), Stake::White, 0, 0, 5, 5, &mut rng);
    assert_eq!(c.hand.len(), 6);
    let extra = c.hand[5];
    assert!((1..=13).contains(&extra.rank));
    assert!(extra.suit < 4);
    assert_ne!(extra.seal, Seal::NoSeal);
}

#[test]
fn test_buy_pack() {
    let mut rng = StdRng::seed_from_u64(17);
    let mut packs = vec![
        BoosterPack { pack_type: BoosterPackType::Standard, cost: 4 },
        BoosterPack { pack_type: BoosterPackType::Buffoon, cost: 30 },
    ];
    let mut c = run(Vec::new(), 0);
    let mut jokers = Vec::new();
    assert_eq!(buy_pack(&mut packs, &mut c, &mut jokers, 1, 5, 0, &mut rng), None);
    assert_eq!(buy_pack(&mut packs, &mut c, &mut jokers, 7, 5, 0, &mut rng), None);
    let deck = c.deck.len();
    assert_eq!(buy_pack(&mut packs, &mut c, &mut jokers, 0, 5, 0, &mut rng), Some(4));
    assert_eq!(c.money, 6);
    assert_eq!(packs.len(), 1);
    // a standard pack gives one playing card
    assert_eq!(c.deck.len(), deck + 1);
    c.money = 30;
    assert_eq!(buy_pack(&mut packs, &mut c, &mut jokers, 0, 5, 0, &mut rng), Some(30));
    assert_eq!(jokers.len(), 1);
    assert!(packs.is_empty());
}

#[test]
fn test_select_blind_jokers_at_blind_start() {
    let mut rng = StdRng::seed_from_u64(21);
    let mut progress = BlindProgress { stage: Stage::PreBlind, blind_type: None, boss_blind: None, ante: Ante::One };
    let mut r = round(0, 0);
    let mut c = run(Vec::new(), 0);
    let mut bean = joker(JokerId::TurtleBean);
    bean.turtle_hand_mod = 1;
    let mut dagger = joker(JokerId::Ceremonial);
    dagger.counter = 5;
    let mut target = joker(JokerId::Joker);
    target.sell_value = 4;
    let mut jokers = vec![bean, dagger, joker(JokerId::MarbleJoker), target];
    select_blind(&mut progress, &mut r, &mut c, &mut jokers, &mut usage(), Stake::White, 0, 0, 8, 5, &mut rng);
    // Turtle Bean runs out of hand size and is used up.
    assert_eq!(jokers[0].turtle_hand_mod, 0);
    assert!(!jokers[0].enabled);
    // Ceremonial Dagger destroys the rightmost other joker and gains twice its sell value.
    assert_eq!(jokers[1].counter, 13);
    assert!(!jokers[3].enabled);
    assert!(jokers[2].enabled);
    // Marble Joker adds a Stone card: ten deck cards and one stone, eight of them dealt.
    assert_eq!(c.hand.len() + c.deck.len(), 11);
    let stones = c.hand.iter().chain(c.deck.iter()).filter(|x| x.enhancement == Enhancement::Stone).count();
    assert_eq!(stones, 1);
}

#[test]
fn test_select_blind_riff_raff_fills_free_slots() {
    let mut rng = StdRng::seed_from_u64(22);
    let mut progress = BlindProgress { stage: Stage::PreBlind, blind_type: None, boss_blind: None, ante: Ante::One };
    let mut r = round(0, 0);
    let mut c = run(Vec::new(), 0);
    let mut jokers = vec![joker(JokerId::RiffRaff), joker(JokerId::Drunkard)];
    select_blind(&mut progress, &mut r, &mut c, &mut jokers, &mut usage(), Stake::White, 0, 0, 8, 3, &mut rng);
    // One free slot: one common joker joins.
    assert_eq!(jokers.len(), 3);
    assert_eq!(jokers[2].id.rarity(), 1);
    assert!(jokers[2].enabled);
    let mut jokers2 = vec![joker(JokerId::RiffRaff)];
    let mut progress2 = BlindProgress { stage: Stage::PreBlind, blind_type: None, boss_blind: None, ante: Ante::One };
    select_blind(&mut progress2, &mut r, &mut c, &mut jokers2, &mut usage(), Stake::White, 0, 0, 8, 5, &mut rng);
    assert_eq!(jokers2.len(), 3);
}

#[test]
fn test_play_hand_brings_tarots_and_spectrals() {
    let mut rng = StdRng::seed_from_u64(31);
    let mut stage = Stage::Blind;
    let mut r = round(4, 3);
    // Two cards played, one of them an 8: Vagabond and 8 Ball each bring a tarot.
    let mut c = run(cards(&[(8, 0), (3, 0), (4, 0)]), 0b011);
    let mut jokers = vec![joker(JokerId::Vagabond), joker(JokerId::EightBall), joker(JokerId::Seance)];
    let out = play_hand(&mut stage, None, Ante::One, &mut r, &mut c, &mut jokers, &played(300, 300), 8, &mut rng);
    assert_eq!(out, PlayOutcome::Cleared);
    assert_eq!(c.consumables.items.len(), 2);
    assert!(c.consumables.items.iter().all(|x| matches!(x, Consumable::Tarot(_))));

    // A Straight Flush (hand type 8) with five cards: Séance brings a spectral card.
    let mut r2 = round(4, 3);
    let mut c2 = run(cards(&[(2, 1), (3, 1), (4, 1), (5, 1), (6, 1)]), 0b11111);
    let mut p = played(300, 300);
    p.hand_type = 8;
    play_hand(&mut stage, None, Ante::One, &mut r2, &mut c2, &mut jokers, &p, 8, &mut rng);
    assert_eq!(c2.consumables.items.len(), 1);
    assert!(matches!(c2.consumables.items[0], Consumable::Spectral(_)));
}

#[test]
fn test_play_hand_space_joker_level_bounds() {
    let mut rng = StdRng::seed_from_u64(32);
    let mut stage = Stage::Blind;
    let mut r = round(4, 3);
    let mut c = run(cards(&[(2, 0), (3, 0)]), 0b1);
    let mut jokers = vec![joker(JokerId::SpaceJoker), joker(JokerId::SpaceJoker)];
    play_hand(&mut stage, None, Ante::One, &mut r, &mut c, &mut jokers, &played(300, 300), 8, &mut rng);
    // Hand type 1 (Pair) starts at level 1 and may rise once per Space Joker.
    let level = c.hand_levels.get(1);
    assert!((1..=3).contains(&level));
    assert_eq!(c.hand_levels.get(0), 1);
}

#[test]
fn test_to_do_list_target_and_payout() {
    let mut shop = Shop::new();
    shop.items.push(ShopItem::new(JokerId::ToDoList, 4));
    let mut jokers = Vec::new();
    let mut money: i64 = 10;
    let mut rng = StdRng::seed_from_u64(41);
    assert_eq!(buy_joker(&mut shop, &mut jokers, &mut money, 0, 5, 0, &mut rng), Some(4));
    assert!((0..13).contains(&jokers[0].counter));

    // A hand of the target type pays $4 and draws a new target.
    jokers[0].counter = 1;
    let mut stage = Stage::Blind;
    let mut r = round(4, 3);
    let mut c = run(cards(&[(2, 0), (2, 1), (4, 0)]), 0b011);
    play_hand(&mut stage, None, Ante::One, &mut r, &mut c, &mut jokers, &played(300, 300), 8, &mut rng);
    assert_eq!(c.money, 14);
    assert!((0..13).contains(&jokers[0].counter));
    // Another hand type pays nothing.
    jokers[0].counter = 5;
    let mut r2 = round(4, 3);
    let mut c2 = run(cards(&[(2, 0), (2, 1), (4, 0)]), 0b011);
    play_hand(&mut stage, None, Ante::One, &mut r2, &mut c2, &mut jokers, &played(300, 300), 8, &mut rng);
    assert_eq!(c2.money, 10);
    assert_eq!(jokers[0].counter, 5);
}

#[test]
fn test_play_hand_uses_selzer_charges() {
    let mut rng = StdRng::seed_from_u64(51);
    let mut stage = Stage::Blind;
    let mut r = round(4, 3);
    let mut c = run(cards(&[(2, 0), (3, 0)]), 0b1);
    let mut jokers = vec![joker(JokerId::Selzer), joker(JokerId::Selzer)];
    jokers[0].counter = 7;
    let mut p = played(300, 300);
    p.selzer_used = 3;
    play_hand(&mut stage, None, Ante::One, &mut r, &mut c, &mut jokers, &p, 8, &mut rng);
    // The first Seltzer has given all ten retriggers and is used up; the second is untouched.
    assert_eq!(jokers[0].counter, 10);
    assert!(!jokers[0].enabled);
    assert_eq!(jokers[1].counter, 0);
    assert!(jokers[1].enabled);
}

#[test]
fn test_select_blind_chicot_disables_boss() {
    let mut rng = StdRng::seed_from_u64(61);
    let mut progress =
        BlindProgress { stage: Stage::PreBlind, blind_type: Some(BlindType::Big), boss_blind: None, ante: Ante::Two };
    let mut r = round(0, 0);
    let mut c = run(Vec::new(), 0);
    let mut jokers = vec![joker(JokerId::Chicot)];
    select_blind(&mut progress, &mut r, &mut c, &mut jokers, &mut usage(), Stake::White, 0, 0, 8, 5, &mut rng);
    assert_eq!(progress.blind_type, Some(BlindType::Boss));
    assert_eq!(progress.boss_blind, None);
    assert_eq!((r.plays_left, r.discards_left), (4, 3));
}
