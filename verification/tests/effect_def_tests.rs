use joker_guide::cards::Card;
use joker_guide::effect_def::{compute_effect, get_effect_def, get_triggers, BonusDef, EffectDef, TriggerEffect};
use joker_guide::hand_types::HandId;
use joker_guide::joker_def::{CardFilter, ComputeContext, Condition, GameEvent};

#[test]
fn test_effect_def_fixed_joker() {
    let effect = get_effect_def(0);
    if let EffectDef::Fixed { chips, mult, x_mult_hundredths, money } = effect {
        assert_eq!(chips, 0);
        assert_eq!(mult, 4);
        assert_eq!(x_mult_hundredths, 100);
        assert_eq!(money, 0);
    } else {
        panic!("Joker should have Fixed effect");
    }
}

#[test]
fn test_effect_def_abstract_joker() {
    let effect = get_effect_def(19);
    assert!(matches!(effect, EffectDef::Stateful));
}

#[test]
fn test_effect_def_bull() {
    let effect = get_effect_def(41);
    assert!(matches!(effect, EffectDef::Stateful));
}

#[test]
fn test_effect_def_stuntman() {
    let effect = get_effect_def(50);
    if let EffectDef::Fixed { chips, mult, x_mult_hundredths, money } = effect {
        assert_eq!(chips, 250);
        assert_eq!(mult, 0);
        assert_eq!(x_mult_hundredths, 100);
        assert_eq!(money, 0);
    } else {
        panic!("Stuntman should have Fixed effect");
    }
}

#[test]
fn test_effect_def_golden_joker() {
    let effect = get_effect_def(40);
    if let EffectDef::Fixed { chips, mult, x_mult_hundredths, money } = effect {
        assert_eq!(chips, 0);
        assert_eq!(mult, 0);
        assert_eq!(x_mult_hundredths, 100);
        assert_eq!(money, 4);
    } else {
        panic!("GoldenJoker should have Fixed effect");
    }
}

#[test]
fn test_effect_def_jolly_joker() {
    let effect = get_effect_def(5);
    if let EffectDef::Conditional { condition, bonus } = effect {
        assert!(matches!(condition, Condition::HandTypeIn(_)));
        assert!(matches!(bonus, BonusDef::Mult(8)));
    } else {
        panic!("JollyJoker should have Conditional effect");
    }
}

#[test]
fn test_compute_effect_fixed() {
    let effect = get_effect_def(0);
    let ctx = ComputeContext::new(&[], &[], HandId::HighCard);
    let bonus = compute_effect(&effect, &ctx);
    assert_eq!(bonus.add_mult, 4);
    assert_eq!(bonus.chip_bonus, 0);
    assert_eq!(bonus.x_mult_hundredths, 100);
}

#[test]
fn test_compute_effect_conditional_pass() {
    let effect = get_effect_def(5);
    let ctx = ComputeContext::new(&[], &[], HandId::Pair);
    let bonus = compute_effect(&effect, &ctx);
    assert_eq!(bonus.add_mult, 8);
}

#[test]
fn test_compute_effect_conditional_fail() {
    let effect = get_effect_def(5);
    let ctx = ComputeContext::new(&[], &[], HandId::HighCard);
    let bonus = compute_effect(&effect, &ctx);
    assert_eq!(bonus.add_mult, 0);
}

#[test]
fn test_compute_effect_timing_final_hand() {
    let effect = get_effect_def(30);
    let mut ctx = ComputeContext::new(&[], &[], HandId::HighCard);
    ctx.is_final_hand = true;
    let bonus = compute_effect(&effect, &ctx);
    assert_eq!(bonus.x_mult_hundredths, 200);
    assert_eq!(bonus.x_mult_times, 1);

    let ctx2 = ComputeContext::new(&[], &[], HandId::HighCard);
    let bonus2 = compute_effect(&effect, &ctx2);
    assert_eq!(bonus2.x_mult_times, 0);
}

#[test]
fn test_compute_effect_stateful() {
    let effect = get_effect_def(19);
    let ctx = ComputeContext::new(&[], &[], HandId::HighCard);
    let bonus = compute_effect(&effect, &ctx);
    assert_eq!(bonus.add_mult, 0);
    assert_eq!(bonus.chip_bonus, 0);
    assert_eq!(bonus.x_mult_times, 0);
}

#[test]
fn test_compute_effect_rule_modifier() {
    let effect = get_effect_def(24);
    let ctx = ComputeContext::new(&[], &[], HandId::HighCard);
    let bonus = compute_effect(&effect, &ctx);
    assert_eq!(bonus.add_mult, 0);
    assert_eq!(bonus.chip_bonus, 0);
    assert_eq!(bonus.x_mult_times, 0);
}

#[test]
fn test_compute_effect_counts_and_powers() {
    let played = vec![Card::new(1, 1), Card::new(8, 1), Card::new(12, 0), Card::new(4, 2)];
    let ctx = ComputeContext::new(&played, &[], HandId::HighCard);
    // Greedy Joker: $3 per Diamond.
    assert_eq!(compute_effect(&get_effect_def(1), &ctx).money_bonus, 6);
    // Fibonacci: +8 Mult per Ace, 2, 3, 5, 8.
    assert_eq!(compute_effect(&get_effect_def(31), &ctx).add_mult, 16);
    // Opal: x1.5 per Diamond, twice.
    let opal = compute_effect(&get_effect_def(57), &ctx);
    assert_eq!(opal.x_mult_hundredths, 150);
    assert_eq!(opal.x_mult_times, 2);
    // Sock and Buskin: one retrigger per face card.
    assert_eq!(compute_effect(&get_effect_def(78), &ctx).retriggers, 1);
    // Square: exactly four played cards.
    assert_eq!(compute_effect(&get_effect_def(94), &ctx).chip_bonus, 4);
    // Half Joker needs three cards or fewer.
    assert_eq!(compute_effect(&get_effect_def(15), &ctx).add_mult, 0);
}

#[test]
fn test_effect_def_table_shapes() {
    assert!(matches!(get_effect_def(24), EffectDef::RuleModifier));
    assert!(matches!(get_effect_def(123), EffectDef::Stateful));
    assert!(matches!(
        get_effect_def(31),
        EffectDef::CountBonus { filter: CardFilter::RankSet(_), .. }
    ));
    assert!(matches!(get_effect_def(113), EffectDef::Conditional { bonus: BonusDef::XMult(400), .. }));
    // An index without an entry has no effect.
    if let EffectDef::Fixed { chips, mult, x_mult_hundredths, money } = get_effect_def(2) {
        panic!("Lusty Joker counts hearts, got fixed {} {} {} {}", chips, mult, x_mult_hundredths, money);
    }
    assert!(matches!(
        get_effect_def(999),
        EffectDef::Fixed { chips: 0, mult: 0, x_mult_hundredths: 100, money: 0 }
    ));
}

#[test]
fn test_get_triggers_table() {
    // Golden Joker earns $4 at the end of a round.
    let golden = get_triggers(40);
    assert_eq!(golden.len(), 1);
    assert_eq!(golden[0].event, GameEvent::RoundEnded);
    assert_eq!(golden[0].effect, TriggerEffect::GainMoney(4));
    // Green Joker gains mult per hand and resets at the end of a round.
    let green = get_triggers(28);
    assert_eq!(green.len(), 2);
    assert_eq!(green[0].effect, TriggerEffect::AddToState { chips: 0, mult: 1, x_mult_hundredths: 0 });
    assert_eq!(green[1].effect, TriggerEffect::ResetState);
    // Ramen loses a hundredth of its multiplier per discard.
    assert_eq!(get_triggers(69)[0].effect, TriggerEffect::AddToState { chips: 0, mult: 0, x_mult_hundredths: -1 });
    // Gros Michel may destroy itself, 1 in 6.
    assert_eq!(get_triggers(105)[0].effect, TriggerEffect::SelfDestruct { chance: 6 });
    // The plain Joker listens to nothing.
    assert!(get_triggers(0).is_empty());
}
