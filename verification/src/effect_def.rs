//! The declarative effect table of the jokers: for each joker index, the shape of what it
//! does (a fixed bonus, a bonus per matching card, a bonus under a condition, a retrigger,
//! a rule change, or an effect that depends on state kept elsewhere).
//!
//! Multiplicative factors are kept in hundredths: a factor of 1.5 is written 150.

use vstd::prelude::*;

use crate::cards::Card;
use crate::hand_types::HandId;
use crate::joker_def::{
    filter_matches, CardFilter, CardScope, ComputeContext, Condition, GameEvent, CLUB, DIAMOND, HEART,
    SPADE,
};

verus! {

/// A bonus of fixed amounts.
#[derive(Clone, Copy, Debug, PartialEq, Eq, Structural)]
pub enum BonusDef {
    /// Chips added.
    Chips(i64),
    /// Mult added.
    Mult(i64),
    /// Mult multiplied by the factor, in hundredths.
    XMult(u32),
    /// Money earned.
    Money(i64),
    /// Several of the above at once.
    Composite { chips: i64, mult: i64, x_mult_hundredths: u32, money: i64 },
}

/// The shape of a joker's effect.
#[derive(Clone, Debug)]
pub enum EffectDef {
    /// Always the same amounts.
    Fixed { chips: i64, mult: i64, x_mult_hundredths: u32, money: i64 },
    /// A bonus for each card of the scope that passes the filter.
    CountBonus { filter: CardFilter, scope: CardScope, per_card: BonusDef },
    /// A bonus when the condition holds.
    Conditional { condition: Condition, bonus: BonusDef },
    /// Depends on state the joker keeps or on the scoring context.
    Stateful,
    /// The cards that pass the filter score `count` more times.
    Retrigger { filter: CardFilter, count: i32 },
    /// Changes a rule of the game and adds nothing itself.
    RuleModifier,
    /// Mult multiplied by `base` (in hundredths) once for each card that passes the filter.
    PowerMultiply { filter: CardFilter, scope: CardScope, base_hundredths: u32 },
}

/// The effect of a joker without one of its own: a fixed bonus of nothing.
pub open spec fn no_effect() -> EffectDef {
    EffectDef::Fixed { chips: 0, mult: 0, x_mult_hundredths: 100, money: 0 }
}

impl Default for EffectDef {
    fn default() -> (r: EffectDef)
        ensures
            r == no_effect(),
    {
        EffectDef::Fixed { chips: 0, mult: 0, x_mult_hundredths: 100, money: 0 }
    }
}

// ---------------------------------------------------------------------------
// Sets of hand types named by the conditions
// ---------------------------------------------------------------------------

/// Hands that contain a pair.
pub open spec fn pair_hands() -> Seq<HandId> {
    seq![HandId::Pair, HandId::TwoPair, HandId::FullHouse, HandId::FlushHouse]
}

/// Hands that contain three of a kind.
pub open spec fn three_kind_hands() -> Seq<HandId> {
    seq![
        HandId::ThreeKind,
        HandId::FullHouse,
        HandId::FourKind,
        HandId::FiveKind,
        HandId::FlushHouse,
        HandId::FlushFive,
    ]
}

/// Two Pair alone.
pub open spec fn two_pair_hands() -> Seq<HandId> {
    seq![HandId::TwoPair]
}

/// Hands that contain a straight.
pub open spec fn straight_hands() -> Seq<HandId> {
    seq![HandId::Straight, HandId::StraightFlush, HandId::RoyalFlush]
}

/// Hands that contain a flush.
pub open spec fn flush_hands() -> Seq<HandId> {
    seq![
        HandId::Flush,
        HandId::StraightFlush,
        HandId::RoyalFlush,
        HandId::FlushHouse,
        HandId::FlushFive,
    ]
}

/// Hands that are both a straight and a flush.
pub open spec fn straight_flush_hands() -> Seq<HandId> {
    seq![HandId::StraightFlush, HandId::RoyalFlush]
}

/// Hands that contain four of a kind.
pub open spec fn four_kind_hands() -> Seq<HandId> {
    seq![HandId::FourKind, HandId::FiveKind]
}

/// Hands made of cards of one rank at least twice.
pub open spec fn any_pair_hands() -> Seq<HandId> {
    seq![
        HandId::Pair,
        HandId::TwoPair,
        HandId::FullHouse,
        HandId::ThreeKind,
        HandId::FourKind,
        HandId::FiveKind,
    ]
}

/// The ranks Fibonacci counts: Ace (as 1 or 14), 2, 3, 5, 8.
pub open spec fn fibonacci_ranks() -> Seq<u8> {
    seq![1u8, 2u8, 3u8, 5u8, 8u8, 14u8]
}

fn hands_with_pair() -> (r: &'static [HandId])
    ensures
        r@ == pair_hands(),
{
    &[HandId::Pair, HandId::TwoPair, HandId::FullHouse, HandId::FlushHouse]
}

fn hands_with_three_kind() -> (r: &'static [HandId])
    ensures
        r@ == three_kind_hands(),
{
    &[
        HandId::ThreeKind,
        HandId::FullHouse,
        HandId::FourKind,
        HandId::FiveKind,
        HandId::FlushHouse,
        HandId::FlushFive,
    ]
}

fn hands_two_pair() -> (r: &'static [HandId])
    ensures
        r@ == two_pair_hands(),
{
    &[HandId::TwoPair]
}

fn hands_with_straight() -> (r: &'static [HandId])
    ensures
        r@ == straight_hands(),
{
    &[HandId::Straight, HandId::StraightFlush, HandId::RoyalFlush]
}

fn hands_with_flush() -> (r: &'static [HandId])
    ensures
        r@ == flush_hands(),
{
    &[
        HandId::Flush,
        HandId::StraightFlush,
        HandId::RoyalFlush,
        HandId::FlushHouse,
        HandId::FlushFive,
    ]
}

fn hands_straight_flush() -> (r: &'static [HandId])
    ensures
        r@ == straight_flush_hands(),
{
    &[HandId::StraightFlush, HandId::RoyalFlush]
}

fn hands_with_four_kind() -> (r: &'static [HandId])
    ensures
        r@ == four_kind_hands(),
{
    &[HandId::FourKind, HandId::FiveKind]
}

fn hands_with_any_pair() -> (r: &'static [HandId])
    ensures
        r@ == any_pair_hands(),
{
    &[
        HandId::Pair,
        HandId::TwoPair,
        HandId::FullHouse,
        HandId::ThreeKind,
        HandId::FourKind,
        HandId::FiveKind,
    ]
}

// ---------------------------------------------------------------------------
// The table
// ---------------------------------------------------------------------------

/// `r` is a bonus given when the hand type is one of `hands`.
pub open spec fn hand_type_effect(r: EffectDef, hands: Seq<HandId>, bonus: BonusDef) -> bool {
    r matches EffectDef::Conditional { condition: Condition::HandTypeIn(s), bonus: b } && s@
        == hands && b == bonus
}

/// `r` is a bonus for each played card of the suit.
pub open spec fn suit_effect(r: EffectDef, suit: u8, per_card: BonusDef) -> bool {
    r == EffectDef::CountBonus {
        filter: CardFilter::Suit(suit),
        scope: CardScope::PlayedCards,
        per_card,
    }
}

/// `r` is a bonus for each played card that passes the filter (one without a rank list).
pub open spec fn played_count_effect(r: EffectDef, filter: CardFilter, per_card: BonusDef) -> bool {
    r == EffectDef::CountBonus { filter, scope: CardScope::PlayedCards, per_card }
}

/// The joker indices whose effect depends on state kept elsewhere.
pub open spec fn is_stateful_index(i: usize) -> bool {
    i == 16 || i == 17 || i == 18 || i == 19 || i == 20 || i == 22 || i == 23 || i == 27
        || i == 28 || i == 35 || i == 38 || i == 41 || i == 51 || i == 53 || i == 54 || i == 60
        || i == 62 || i == 64 || i == 67 || i == 68 || i == 69 || i == 70 || i == 71 || i == 72
        || i == 74 || i == 76 || i == 79 || i == 84 || i == 89 || i == 90 || i == 91 || i == 93
        || i == 97 || i == 99 || i == 100 || i == 105 || i == 109 || i == 110 || i == 116
        || i == 117 || i == 118 || i == 120 || i == 121 || i == 122 || i == 123 || i == 125
        || i == 129 || i == 130 || i == 139 || i == 142 || i == 155 || i == 159
}

/// The joker indices that change a rule: Four Fingers, Shortcut, Splash, Smeared Joker,
/// Pareidolia, Oops! All 6s.
pub open spec fn is_rule_modifier_index(i: usize) -> bool {
    i == 24 || i == 25 || i == 26 || i == 82 || i == 104 || i == 158
}

/// The effect of the joker with index `i`.
pub open spec fn is_effect_def_of(i: usize, r: EffectDef) -> bool {
    if is_stateful_index(i) {
        r == EffectDef::Stateful
    } else if is_rule_modifier_index(i) {
        r == EffectDef::RuleModifier
    } else {
        match i {
            0 => r == EffectDef::Fixed { chips: 0, mult: 4, x_mult_hundredths: 100, money: 0 },
            50 => r == EffectDef::Fixed { chips: 250, mult: 0, x_mult_hundredths: 100, money: 0 },
            40 => r == EffectDef::Fixed { chips: 0, mult: 0, x_mult_hundredths: 100, money: 4 },
            5 => hand_type_effect(r, pair_hands(), BonusDef::Mult(8)),
            6 => hand_type_effect(r, three_kind_hands(), BonusDef::Mult(12)),
            7 => hand_type_effect(r, two_pair_hands(), BonusDef::Mult(10)),
            8 => hand_type_effect(r, straight_hands(), BonusDef::Mult(12)),
            9 => hand_type_effect(r, flush_hands(), BonusDef::Mult(10)),
            10 => hand_type_effect(r, pair_hands(), BonusDef::Chips(50)),
            11 => hand_type_effect(r, three_kind_hands(), BonusDef::Chips(100)),
            12 => hand_type_effect(r, two_pair_hands(), BonusDef::Chips(80)),
            13 => hand_type_effect(r, straight_hands(), BonusDef::Chips(100)),
            14 => hand_type_effect(r, flush_hands(), BonusDef::Chips(80)),
            111 => hand_type_effect(r, any_pair_hands(), BonusDef::XMult(200)),
            112 => hand_type_effect(r, three_kind_hands(), BonusDef::XMult(300)),
            113 => hand_type_effect(r, four_kind_hands(), BonusDef::XMult(400)),
            114 => hand_type_effect(r, straight_hands(), BonusDef::XMult(300)),
            115 => hand_type_effect(r, flush_hands(), BonusDef::XMult(200)),
            29 => hand_type_effect(r, straight_flush_hands(), BonusDef::XMult(200)),
            134 => hand_type_effect(r, two_pair_hands(), BonusDef::Mult(2)),
            141 => hand_type_effect(r, two_pair_hands(), BonusDef::Mult(4)),
            1 => suit_effect(r, DIAMOND, BonusDef::Money(3)),
            2 => suit_effect(r, HEART, BonusDef::Money(3)),
            3 => suit_effect(r, SPADE, BonusDef::Money(3)),
            4 => suit_effect(r, CLUB, BonusDef::Money(3)),
            55 => suit_effect(r, SPADE, BonusDef::Chips(50)),
            56 => suit_effect(r, CLUB, BonusDef::Mult(80)),
            85 => suit_effect(r, DIAMOND, BonusDef::Money(1)),
            57 => r == EffectDef::PowerMultiply {
                filter: CardFilter::Suit(DIAMOND),
                scope: CardScope::PlayedCards,
                base_hundredths: 150,
            },
            31 => r matches EffectDef::CountBonus {
                filter: CardFilter::RankSet(ranks),
                scope: CardScope::PlayedCards,
                per_card: BonusDef::Mult(8),
            } && ranks@ == fibonacci_ranks(),
            32 => played_count_effect(r, CardFilter::FaceCard, BonusDef::Chips(30)),
            33 => played_count_effect(r, CardFilter::Even, BonusDef::Mult(4)),
            34 => played_count_effect(r, CardFilter::Odd, BonusDef::Chips(31)),
            73 => played_count_effect(r, CardFilter::FaceCard, BonusDef::Mult(5)),
            132 => played_count_effect(r, CardFilter::LowNumber, BonusDef::Chips(25)),
            15 => r == EffectDef::Conditional {
                condition: Condition::PlayedCardCount { min: None, max: Some(3) },
                bonus: BonusDef::Mult(20),
            },
            94 => r == EffectDef::Conditional {
                condition: Condition::PlayedCardCount { min: Some(4), max: Some(4) },
                bonus: BonusDef::Chips(4),
            },
            78 => r == EffectDef::Retrigger { filter: CardFilter::FaceCard, count: 1 },
            103 => r == EffectDef::Retrigger { filter: CardFilter::LowNumber, count: 1 },
            30 => r == EffectDef::Conditional {
                condition: Condition::Timing { first_hand: false, final_hand: true },
                bonus: BonusDef::XMult(200),
            },
            77 => r == EffectDef::Conditional {
                condition: Condition::Timing { first_hand: false, final_hand: true },
                bonus: BonusDef::XMult(300),
            },
            61 => r == EffectDef::Conditional {
                condition: Condition::Timing { first_hand: true, final_hand: false },
                bonus: BonusDef::XMult(200),
            },
            _ => r == no_effect(),
        }
    }
}

fn hand_type_bonus(hands: &'static [HandId], bonus: BonusDef) -> (r: EffectDef)
    ensures
        hand_type_effect(r, hands@, bonus),
{
    EffectDef::Conditional { condition: Condition::HandTypeIn(hands), bonus }
}

fn suit_bonus(suit: u8, per_card: BonusDef) -> (r: EffectDef)
    ensures
        suit_effect(r, suit, per_card),
{
    EffectDef::CountBonus { filter: CardFilter::Suit(suit), scope: CardScope::PlayedCards, per_card }
}

/// The effect of the joker with index `id_index` (see `JokerId::to_index`); an index
/// without an entry has no effect.
pub fn get_effect_def(id_index: usize) -> (r: EffectDef)
    ensures
        is_effect_def_of(id_index, r),
{
    match id_index {
        0 => EffectDef::Fixed { chips: 0, mult: 4, x_mult_hundredths: 100, money: 0 },
        50 => EffectDef::Fixed { chips: 250, mult: 0, x_mult_hundredths: 100, money: 0 },
        40 => EffectDef::Fixed { chips: 0, mult: 0, x_mult_hundredths: 100, money: 4 },
        5 => hand_type_bonus(hands_with_pair(), BonusDef::Mult(8)),
        6 => hand_type_bonus(hands_with_three_kind(), BonusDef::Mult(12)),
        7 => hand_type_bonus(hands_two_pair(), BonusDef::Mult(10)),
        8 => hand_type_bonus(hands_with_straight(), BonusDef::Mult(12)),
        9 => hand_type_bonus(hands_with_flush(), BonusDef::Mult(10)),
        10 => hand_type_bonus(hands_with_pair(), BonusDef::Chips(50)),
        11 => hand_type_bonus(hands_with_three_kind(), BonusDef::Chips(100)),
        12 => hand_type_bonus(hands_two_pair(), BonusDef::Chips(80)),
        13 => hand_type_bonus(hands_with_straight(), BonusDef::Chips(100)),
        14 => hand_type_bonus(hands_with_flush(), BonusDef::Chips(80)),
        111 => hand_type_bonus(hands_with_any_pair(), BonusDef::XMult(200)),
        112 => hand_type_bonus(hands_with_three_kind(), BonusDef::XMult(300)),
        113 => hand_type_bonus(hands_with_four_kind(), BonusDef::XMult(400)),
        114 => hand_type_bonus(hands_with_straight(), BonusDef::XMult(300)),
        115 => hand_type_bonus(hands_with_flush(), BonusDef::XMult(200)),
        29 => hand_type_bonus(hands_straight_flush(), BonusDef::XMult(200)),
        134 => hand_type_bonus(hands_two_pair(), BonusDef::Mult(2)),
        141 => hand_type_bonus(hands_two_pair(), BonusDef::Mult(4)),
        1 => suit_bonus(DIAMOND, BonusDef::Money(3)),
        2 => suit_bonus(HEART, BonusDef::Money(3)),
        3 => suit_bonus(SPADE, BonusDef::Money(3)),
        4 => suit_bonus(CLUB, BonusDef::Money(3)),
        55 => suit_bonus(SPADE, BonusDef::Chips(50)),
        56 => suit_bonus(CLUB, BonusDef::Mult(80)),
        85 => suit_bonus(DIAMOND, BonusDef::Money(1)),
        57 => EffectDef::PowerMultiply {
            filter: CardFilter::Suit(DIAMOND),
            scope: CardScope::PlayedCards,
            base_hundredths: 150,
        },
        31 => EffectDef::CountBonus {
            filter: CardFilter::RankSet(&[1u8, 2u8, 3u8, 5u8, 8u8, 14u8]),
            scope: CardScope::PlayedCards,
            per_card: BonusDef::Mult(8),
        },
        32 => EffectDef::CountBonus {
            filter: CardFilter::FaceCard,
            scope: CardScope::PlayedCards,
            per_card: BonusDef::Chips(30),
        },
        33 => EffectDef::CountBonus {
            filter: CardFilter::Even,
            scope: CardScope::PlayedCards,
            per_card: BonusDef::Mult(4),
        },
        34 => EffectDef::CountBonus {
            filter: CardFilter::Odd,
            scope: CardScope::PlayedCards,
            per_card: BonusDef::Chips(31),
        },
        73 => EffectDef::CountBonus {
            filter: CardFilter::FaceCard,
            scope: CardScope::PlayedCards,
            per_card: BonusDef::Mult(5),
        },
        132 => EffectDef::CountBonus {
            filter: CardFilter::LowNumber,
            scope: CardScope::PlayedCards,
            per_card: BonusDef::Chips(25),
        },
        15 => EffectDef::Conditional {
            condition: Condition::PlayedCardCount { min: None, max: Some(3) },
            bonus: BonusDef::Mult(20),
        },
        94 => EffectDef::Conditional {
            condition: Condition::PlayedCardCount { min: Some(4), max: Some(4) },
            bonus: BonusDef::Chips(4),
        },
        78 => EffectDef::Retrigger { filter: CardFilter::FaceCard, count: 1 },
        103 => EffectDef::Retrigger { filter: CardFilter::LowNumber, count: 1 },
        30 => EffectDef::Conditional {
            condition: Condition::Timing { first_hand: false, final_hand: true },
            bonus: BonusDef::XMult(200),
        },
        77 => EffectDef::Conditional {
            condition: Condition::Timing { first_hand: false, final_hand: true },
            bonus: BonusDef::XMult(300),
        },
        61 => EffectDef::Conditional {
            condition: Condition::Timing { first_hand: true, final_hand: false },
            bonus: BonusDef::XMult(200),
        },
        24 | 25 | 26 | 82 | 104 | 158 => EffectDef::RuleModifier,
        16 | 17 | 18 | 19 | 20 | 22 | 23 | 27 | 28 | 35 | 38 | 41 | 51 | 53 | 54 | 60 | 62 | 64
        | 67 | 68 | 69 | 70 | 71 | 72 | 74 | 76 | 79 | 84 | 89 | 90 | 91 | 93 | 97 | 99 | 100
        | 105 | 109 | 110 | 116 | 117 | 118 | 120 | 121 | 122 | 123 | 125 | 129 | 130 | 139
        | 142 | 155 | 159 => EffectDef::Stateful,
        _ => EffectDef::default(),
    }
}


// ---------------------------------------------------------------------------
// Computing an effect
// ---------------------------------------------------------------------------

/// What an effect adds. The mult is multiplied by `x_mult_hundredths / 100`, raised to the
/// power `x_mult_times`.
#[derive(Clone, Copy, Debug, PartialEq, Eq, Structural)]
pub struct EffectBonus {
    pub chip_bonus: i64,
    pub add_mult: i64,
    pub x_mult_hundredths: u32,
    pub x_mult_times: u32,
    pub money_bonus: i64,
    pub retriggers: i32,
}

/// Nothing added, the mult multiplied by one.
pub open spec fn neutral_bonus() -> EffectBonus {
    EffectBonus {
        chip_bonus: 0,
        add_mult: 0,
        x_mult_hundredths: 100,
        x_mult_times: 0,
        money_bonus: 0,
        retriggers: 0,
    }
}

/// Cards of `s` that pass the filter.
pub open spec fn filter_count(s: Seq<Card>, f: CardFilter) -> int
    decreases s.len(),
{
    if s.len() == 0 {
        0
    } else {
        filter_count(s.drop_last(), f) + if filter_matches(f, s.last().suit, s.last().rank) {
            1int
        } else {
            0int
        }
    }
}

/// A bonus definition applied `n` times; a factor applies once whatever `n` is.
pub open spec fn scaled_bonus(b: BonusDef, n: int) -> EffectBonus {
    match b {
        BonusDef::Chips(v) => EffectBonus { chip_bonus: (v * n) as i64, ..neutral_bonus() },
        BonusDef::Mult(v) => EffectBonus { add_mult: (v * n) as i64, ..neutral_bonus() },
        BonusDef::XMult(x) => EffectBonus { x_mult_hundredths: x, x_mult_times: 1, ..neutral_bonus() },
        BonusDef::Money(v) => EffectBonus { money_bonus: (v * n) as i64, ..neutral_bonus() },
        BonusDef::Composite { chips, mult, x_mult_hundredths, money } => EffectBonus {
            chip_bonus: (chips * n) as i64,
            add_mult: (mult * n) as i64,
            x_mult_hundredths,
            x_mult_times: 1,
            money_bonus: (money * n) as i64,
            retriggers: 0,
        },
    }
}

/// Whether a condition holds for the hand; threshold conditions need state the context does
/// not hold and never hold here.
pub open spec fn condition_holds(c: Condition, ctx: ComputeContext) -> bool {
    match c {
        Condition::Always => true,
        Condition::HandTypeIn(hands) => hands@.contains(ctx.hand_id),
        Condition::PlayedCardCount { min, max } => {
            &&& (min matches Some(m) ==> ctx.played_cards@.len() >= m)
            &&& (max matches Some(m) ==> ctx.played_cards@.len() <= m)
        },
        Condition::Timing { first_hand, final_hand } => (first_hand && ctx.is_first_hand) || (
        final_hand && ctx.is_final_hand),
        Condition::StateThreshold { .. } => false,
    }
}

/// The cards a scope names; the deck is not part of the context and counts as no cards.
pub open spec fn scope_cards(scope: CardScope, ctx: ComputeContext) -> Seq<Card> {
    match scope {
        CardScope::PlayedCards => ctx.played_cards@,
        CardScope::HandCards => ctx.hand@,
        CardScope::DeckCards => Seq::empty(),
    }
}

/// What an effect adds to the hand described by `ctx`. Stateful effects and rule changes
/// add nothing here.
pub open spec fn effect_bonus(e: EffectDef, ctx: ComputeContext) -> EffectBonus {
    match e {
        EffectDef::Fixed { chips, mult, x_mult_hundredths, money } => EffectBonus {
            chip_bonus: chips,
            add_mult: mult,
            x_mult_hundredths,
            x_mult_times: 1,
            money_bonus: money,
            retriggers: 0,
        },
        EffectDef::CountBonus { filter, scope, per_card } => {
            let n = filter_count(scope_cards(scope, ctx), filter);
            if n > 0 {
                scaled_bonus(per_card, n)
            } else {
                neutral_bonus()
            }
        },
        EffectDef::Conditional { condition, bonus } => if condition_holds(condition, ctx) {
            scaled_bonus(bonus, 1)
        } else {
            neutral_bonus()
        },
        EffectDef::PowerMultiply { filter, scope, base_hundredths } => {
            let n = filter_count(scope_cards(scope, ctx), filter);
            if n > 0 {
                EffectBonus {
                    x_mult_hundredths: base_hundredths,
                    x_mult_times: n as u32,
                    ..neutral_bonus()
                }
            } else {
                neutral_bonus()
            }
        },
        EffectDef::Retrigger { filter, count } => EffectBonus {
            retriggers: (filter_count(ctx.played_cards@, filter) * count) as i32,
            ..neutral_bonus()
        },
        EffectDef::RuleModifier => neutral_bonus(),
        EffectDef::Stateful => neutral_bonus(),
    }
}

/// Amounts of a bonus definition small enough to be counted up to a million times.
pub open spec fn bonus_def_in_range(b: BonusDef) -> bool {
    match b {
        BonusDef::Chips(v) => -1_000_000_000_000 <= v <= 1_000_000_000_000,
        BonusDef::Mult(v) => -1_000_000_000_000 <= v <= 1_000_000_000_000,
        BonusDef::XMult(_) => true,
        BonusDef::Money(v) => -1_000_000_000_000 <= v <= 1_000_000_000_000,
        BonusDef::Composite { chips, mult, money, .. } => {
            &&& -1_000_000_000_000 <= chips <= 1_000_000_000_000
            &&& -1_000_000_000_000 <= mult <= 1_000_000_000_000
            &&& -1_000_000_000_000 <= money <= 1_000_000_000_000
        },
    }
}

/// Card lists and amounts for which an effect's totals fit their integer types.
pub open spec fn effect_in_range(e: EffectDef, ctx: ComputeContext) -> bool {
    &&& ctx.played_cards@.len() <= 1_000_000
    &&& ctx.hand@.len() <= 1_000_000
    &&& match e {
        EffectDef::CountBonus { per_card, .. } => bonus_def_in_range(per_card),
        EffectDef::Retrigger { count, .. } => -1000 <= count <= 1000,
        _ => true,
    }
}

fn count_filtered(cards: &[Card], f: &CardFilter) -> (r: usize)
    ensures
        r == filter_count(cards@, *f),
        r <= cards@.len(),
{
    let mut r: usize = 0;
    let mut i: usize = 0;
    while i < cards.len()
        invariant
            i <= cards@.len(),
            r == filter_count(cards@.take(i as int), *f),
            r <= i,
        decreases cards@.len() - i,
    {
        proof {
            assert(cards@.take(i as int + 1).drop_last() =~= cards@.take(i as int));
        }
        if f.matches(cards[i].suit, cards[i].rank) {
            r = r + 1;
        }
        i = i + 1;
    }
    proof {
        assert(cards@.take(cards@.len() as int) =~= cards@);
    }
    r
}

fn scope_count(scope: &CardScope, f: &CardFilter, ctx: &ComputeContext) -> (r: usize)
    ensures
        r == filter_count(scope_cards(*scope, *ctx), *f),
        r <= scope_cards(*scope, *ctx).len(),
{
    match scope {
        CardScope::PlayedCards => count_filtered(ctx.played_cards, f),
        CardScope::HandCards => count_filtered(ctx.hand, f),
        CardScope::DeckCards => 0,
    }
}

fn scale_bonus(b: &BonusDef, n: i64) -> (r: EffectBonus)
    requires
        bonus_def_in_range(*b),
        0 <= n <= 1_000_000,
    ensures
        r == scaled_bonus(*b, n as int),
{
    match *b {
        BonusDef::Chips(v) => {
            assert(-1_000_000_000_000_000_000 <= v * n <= 1_000_000_000_000_000_000) by (nonlinear_arith)
                requires
                    -1_000_000_000_000 <= v <= 1_000_000_000_000,
                    0 <= n <= 1_000_000,
            ;
            EffectBonus {
                chip_bonus: v * n,
                add_mult: 0,
                x_mult_hundredths: 100,
                x_mult_times: 0,
                money_bonus: 0,
                retriggers: 0,
            }
        },
        BonusDef::Mult(v) => {
            assert(-1_000_000_000_000_000_000 <= v * n <= 1_000_000_000_000_000_000) by (nonlinear_arith)
                requires
                    -1_000_000_000_000 <= v <= 1_000_000_000_000,
                    0 <= n <= 1_000_000,
            ;
            EffectBonus {
                chip_bonus: 0,
                add_mult: v * n,
                x_mult_hundredths: 100,
                x_mult_times: 0,
                money_bonus: 0,
                retriggers: 0,
            }
        },
        BonusDef::XMult(x) => EffectBonus {
            chip_bonus: 0,
            add_mult: 0,
            x_mult_hundredths: x,
            x_mult_times: 1,
            money_bonus: 0,
            retriggers: 0,
        },
        BonusDef::Money(v) => {
            assert(-1_000_000_000_000_000_000 <= v * n <= 1_000_000_000_000_000_000) by (nonlinear_arith)
                requires
                    -1_000_000_000_000 <= v <= 1_000_000_000_000,
                    0 <= n <= 1_000_000,
            ;
            EffectBonus {
                chip_bonus: 0,
                add_mult: 0,
                x_mult_hundredths: 100,
                x_mult_times: 0,
                money_bonus: v * n,
                retriggers: 0,
            }
        },
        BonusDef::Composite { chips, mult, x_mult_hundredths, money } => {
            assert(-1_000_000_000_000_000_000 <= chips * n <= 1_000_000_000_000_000_000)
                by (nonlinear_arith)
                requires
                    -1_000_000_000_000 <= chips <= 1_000_000_000_000,
                    0 <= n <= 1_000_000,
            ;
            assert(-1_000_000_000_000_000_000 <= mult * n <= 1_000_000_000_000_000_000)
                by (nonlinear_arith)
                requires
                    -1_000_000_000_000 <= mult <= 1_000_000_000_000,
                    0 <= n <= 1_000_000,
            ;
            assert(-1_000_000_000_000_000_000 <= money * n <= 1_000_000_000_000_000_000)
                by (nonlinear_arith)
                requires
                    -1_000_000_000_000 <= money <= 1_000_000_000_000,
                    0 <= n <= 1_000_000,
            ;
            EffectBonus {
                chip_bonus: chips * n,
                add_mult: mult * n,
                x_mult_hundredths,
                x_mult_times: 1,
                money_bonus: money * n,
                retriggers: 0,
            }
        },
    }
}

fn hand_type_listed(hands: &[HandId], h: HandId) -> (r: bool)
    ensures
        r == hands@.contains(h),
{
    let mut i: usize = 0;
    while i < hands.len()
        invariant
            i <= hands@.len(),
            forall|k: int| 0 <= k < i ==> hands@[k] != h,
        decreases hands@.len() - i,
    {
        if hands[i] == h {
            proof {
                assert(hands@[i as int] == h);
            }
            return true;
        }
        i = i + 1;
    }
    false
}

fn holds(c: &Condition, ctx: &ComputeContext) -> (r: bool)
    ensures
        r == condition_holds(*c, *ctx),
{
    match c {
        Condition::Always => true,
        Condition::HandTypeIn(hands) => hand_type_listed(hands, ctx.hand_id),
        Condition::PlayedCardCount { min, max } => {
            let n = ctx.played_cards.len();
            let above = match min {
                Some(m) => n >= *m,
                None => true,
            };
            let below = match max {
                Some(m) => n <= *m,
                None => true,
            };
            above && below
        },
        Condition::Timing { first_hand, final_hand } => (*first_hand && ctx.is_first_hand) || (
        *final_hand && ctx.is_final_hand),
        Condition::StateThreshold { .. } => false,
    }
}

/// What an effect adds to the hand described by `ctx`; stateful effects and rule changes
/// add nothing here.
pub fn compute_effect(effect: &EffectDef, ctx: &ComputeContext) -> (r: EffectBonus)
    requires
        effect_in_range(*effect, *ctx),
    ensures
        r == effect_bonus(*effect, *ctx),
{
    let neutral = EffectBonus {
        chip_bonus: 0,
        add_mult: 0,
        x_mult_hundredths: 100,
        x_mult_times: 0,
        money_bonus: 0,
        retriggers: 0,
    };
    match effect {
        EffectDef::Fixed { chips, mult, x_mult_hundredths, money } => EffectBonus {
            chip_bonus: *chips,
            add_mult: *mult,
            x_mult_hundredths: *x_mult_hundredths,
            x_mult_times: 1,
            money_bonus: *money,
            retriggers: 0,
        },
        EffectDef::CountBonus { filter, scope, per_card } => {
            let n = scope_count(scope, filter, ctx);
            if n > 0 {
                scale_bonus(per_card, n as i64)
            } else {
                neutral
            }
        },
        EffectDef::Conditional { condition, bonus } => {
            if holds(condition, ctx) {
                scale_one(bonus)
            } else {
                neutral
            }
        },
        EffectDef::PowerMultiply { filter, scope, base_hundredths } => {
            let n = scope_count(scope, filter, ctx);
            if n > 0 {
                EffectBonus {
                    chip_bonus: 0,
                    add_mult: 0,
                    x_mult_hundredths: *base_hundredths,
                    x_mult_times: n as u32,
                    money_bonus: 0,
                    retriggers: 0,
                }
            } else {
                neutral
            }
        },
        EffectDef::Retrigger { filter, count } => {
            let n = count_filtered(ctx.played_cards, filter);
            let times: i32 = n as i32;
            assert(-1_000_000_000 <= times * *count <= 1_000_000_000) by (nonlinear_arith)
                requires
                    0 <= times <= 1_000_000,
                    -1000 <= *count <= 1000,
            ;
            EffectBonus {
                chip_bonus: 0,
                add_mult: 0,
                x_mult_hundredths: 100,
                x_mult_times: 0,
                money_bonus: 0,
                retriggers: times * *count,
            }
        },
        EffectDef::RuleModifier => neutral,
        EffectDef::Stateful => neutral,
    }
}

fn scale_one(b: &BonusDef) -> (r: EffectBonus)
    ensures
        r == scaled_bonus(*b, 1),
{
    match *b {
        BonusDef::Chips(v) => EffectBonus {
            chip_bonus: v,
            add_mult: 0,
            x_mult_hundredths: 100,
            x_mult_times: 0,
            money_bonus: 0,
            retriggers: 0,
        },
        BonusDef::Mult(v) => EffectBonus {
            chip_bonus: 0,
            add_mult: v,
            x_mult_hundredths: 100,
            x_mult_times: 0,
            money_bonus: 0,
            retriggers: 0,
        },
        BonusDef::XMult(x) => EffectBonus {
            chip_bonus: 0,
            add_mult: 0,
            x_mult_hundredths: x,
            x_mult_times: 1,
            money_bonus: 0,
            retriggers: 0,
        },
        BonusDef::Money(v) => EffectBonus {
            chip_bonus: 0,
            add_mult: 0,
            x_mult_hundredths: 100,
            x_mult_times: 0,
            money_bonus: v,
            retriggers: 0,
        },
        BonusDef::Composite { chips, mult, x_mult_hundredths, money } => EffectBonus {
            chip_bonus: chips,
            add_mult: mult,
            x_mult_hundredths,
            x_mult_times: 1,
            money_bonus: money,
            retriggers: 0,
        },
    }
}


// ---------------------------------------------------------------------------
// Event triggers
// ---------------------------------------------------------------------------

/// What a joker does when an event it listens to happens.
#[derive(Clone, Copy, Debug, PartialEq, Eq, Structural)]
pub enum TriggerEffect {
    /// Nothing by itself; the caller acts.
    Nothing,
    /// Adds to the joker's chips, mult and multiplier (in hundredths).
    AddToState { chips: i32, mult: i32, x_mult_hundredths: i32 },
    /// Puts the joker's state back to its start.
    ResetState,
    /// Counts one more.
    IncrementCounter,
    /// Earns money.
    GainMoney(i64),
    /// Destroys the joker with chance 1 in `chance`.
    SelfDestruct { chance: u8 },
    /// Makes a negative copy of a consumable (Perkeo).
    CreateNegativeCopy,
    /// Destroys a random other joker (Madness).
    DestroyRandomJoker,
    /// Disables the boss blind (Chicot).
    DisableBossBlind,
    /// Handled by the caller with what it knows of the event.
    Custom,
}

/// An event a joker listens to and what it then does.
#[derive(Clone, Copy, Debug, PartialEq, Eq, Structural)]
pub struct TriggerDef {
    pub event: GameEvent,
    pub effect: TriggerEffect,
}

/// The triggers of the joker with index `i`; most jokers have none.
pub open spec fn triggers_of(i: usize) -> Seq<TriggerDef> {
    match i {
        40 => seq![TriggerDef { event: GameEvent::RoundEnded, effect: TriggerEffect::GainMoney(4) }],
        60 => seq![TriggerDef { event: GameEvent::HandPlayed, effect: TriggerEffect::AddToState { chips: -5i32, mult: 0, x_mult_hundredths: 0 } }],
        67 => seq![TriggerDef { event: GameEvent::RoundEnded, effect: TriggerEffect::AddToState { chips: 0, mult: -4i32, x_mult_hundredths: 0 } }],
        69 => seq![TriggerDef { event: GameEvent::CardDiscarded, effect: TriggerEffect::AddToState { chips: 0, mult: 0, x_mult_hundredths: -1i32 } }],
        74 => seq![TriggerDef { event: GameEvent::JokerSold, effect: TriggerEffect::AddToState { chips: 0, mult: 0, x_mult_hundredths: 25 } }],
        90 => seq![TriggerDef { event: GameEvent::HandPlayed, effect: TriggerEffect::Custom }],
        91 => seq![TriggerDef { event: GameEvent::HandPlayed, effect: TriggerEffect::Custom }],
        97 => seq![TriggerDef { event: GameEvent::EnhancementAbsorbed, effect: TriggerEffect::AddToState { chips: 0, mult: 0, x_mult_hundredths: 10 } }],
        22 => seq![TriggerDef { event: GameEvent::GlassCardBroken, effect: TriggerEffect::AddToState { chips: 0, mult: 0, x_mult_hundredths: 75 } }],
        23 => seq![TriggerDef { event: GameEvent::CardAddedToDeck, effect: TriggerEffect::AddToState { chips: 0, mult: 0, x_mult_hundredths: 25 } }],
        64 => seq![TriggerDef { event: GameEvent::PlanetUsed, effect: TriggerEffect::AddToState { chips: 0, mult: 0, x_mult_hundredths: 10 } }],
        129 => seq![TriggerDef { event: GameEvent::LuckyTriggered, effect: TriggerEffect::AddToState { chips: 0, mult: 0, x_mult_hundredths: 25 } }],
        120 => seq![TriggerDef { event: GameEvent::FaceCardDestroyed, effect: TriggerEffect::AddToState { chips: 0, mult: 0, x_mult_hundredths: 100 } }],
        139 => seq![TriggerDef { event: GameEvent::FaceCardDestroyed, effect: TriggerEffect::AddToState { chips: 0, mult: 0, x_mult_hundredths: 10 } }],
        122 => seq![TriggerDef { event: GameEvent::CardDiscarded, effect: TriggerEffect::IncrementCounter }],
        71 => seq![TriggerDef { event: GameEvent::HandPlayed, effect: TriggerEffect::Custom }],
        142 => seq![TriggerDef { event: GameEvent::HandPlayed, effect: TriggerEffect::IncrementCounter }],
        130 => seq![TriggerDef { event: GameEvent::HandPlayed, effect: TriggerEffect::Custom }],
        93 => seq![TriggerDef { event: GameEvent::BlindSelected, effect: TriggerEffect::DestroyRandomJoker }],
        117 => seq![TriggerDef { event: GameEvent::RoundEnded, effect: TriggerEffect::CreateNegativeCopy }],
        123 => seq![TriggerDef { event: GameEvent::BlindSelected, effect: TriggerEffect::DisableBossBlind }],
        100 => seq![TriggerDef { event: GameEvent::RoundEnded, effect: TriggerEffect::SelfDestruct { chance: 250 } }],
        105 => seq![TriggerDef { event: GameEvent::RoundEnded, effect: TriggerEffect::SelfDestruct { chance: 6 } }],
        28 => seq![TriggerDef { event: GameEvent::HandPlayed, effect: TriggerEffect::AddToState { chips: 0, mult: 1, x_mult_hundredths: 0 } }, TriggerDef { event: GameEvent::RoundEnded, effect: TriggerEffect::ResetState }],
        20 => seq![TriggerDef { event: GameEvent::HandPlayed, effect: TriggerEffect::Custom }],
        110 => seq![TriggerDef { event: GameEvent::CardDiscarded, effect: TriggerEffect::Custom }],
        72 => seq![TriggerDef { event: GameEvent::CardDiscarded, effect: TriggerEffect::Custom }],
        _ => Seq::empty(),
    }
}

/// The triggers of the joker with index `id_index` (see `JokerId::to_index`).
pub fn get_triggers(id_index: usize) -> (r: &'static [TriggerDef])
    ensures
        r@ == triggers_of(id_index),
{
    match id_index {
        40 => &[TriggerDef { event: GameEvent::RoundEnded, effect: TriggerEffect::GainMoney(4) }],
        60 => &[TriggerDef { event: GameEvent::HandPlayed, effect: TriggerEffect::AddToState { chips: -5i32, mult: 0, x_mult_hundredths: 0 } }],
        67 => &[TriggerDef { event: GameEvent::RoundEnded, effect: TriggerEffect::AddToState { chips: 0, mult: -4i32, x_mult_hundredths: 0 } }],
        69 => &[TriggerDef { event: GameEvent::CardDiscarded, effect: TriggerEffect::AddToState { chips: 0, mult: 0, x_mult_hundredths: -1i32 } }],
        74 => &[TriggerDef { event: GameEvent::JokerSold, effect: TriggerEffect::AddToState { chips: 0, mult: 0, x_mult_hundredths: 25 } }],
        90 => &[TriggerDef { event: GameEvent::HandPlayed, effect: TriggerEffect::Custom }],
        91 => &[TriggerDef { event: GameEvent::HandPlayed, effect: TriggerEffect::Custom }],
        97 => &[TriggerDef { event: GameEvent::EnhancementAbsorbed, effect: TriggerEffect::AddToState { chips: 0, mult: 0, x_mult_hundredths: 10 } }],
        22 => &[TriggerDef { event: GameEvent::GlassCardBroken, effect: TriggerEffect::AddToState { chips: 0, mult: 0, x_mult_hundredths: 75 } }],
        23 => &[TriggerDef { event: GameEvent::CardAddedToDeck, effect: TriggerEffect::AddToState { chips: 0, mult: 0, x_mult_hundredths: 25 } }],
        64 => &[TriggerDef { event: GameEvent::PlanetUsed, effect: TriggerEffect::AddToState { chips: 0, mult: 0, x_mult_hundredths: 10 } }],
        129 => &[TriggerDef { event: GameEvent::LuckyTriggered, effect: TriggerEffect::AddToState { chips: 0, mult: 0, x_mult_hundredths: 25 } }],
        120 => &[TriggerDef { event: GameEvent::FaceCardDestroyed, effect: TriggerEffect::AddToState { chips: 0, mult: 0, x_mult_hundredths: 100 } }],
        139 => &[TriggerDef { event: GameEvent::FaceCardDestroyed, effect: TriggerEffect::AddToState { chips: 0, mult: 0, x_mult_hundredths: 10 } }],
        122 => &[TriggerDef { event: GameEvent::CardDiscarded, effect: TriggerEffect::IncrementCounter }],
        71 => &[TriggerDef { event: GameEvent::HandPlayed, effect: TriggerEffect::Custom }],
        142 => &[TriggerDef { event: GameEvent::HandPlayed, effect: TriggerEffect::IncrementCounter }],
        130 => &[TriggerDef { event: GameEvent::HandPlayed, effect: TriggerEffect::Custom }],
        93 => &[TriggerDef { event: GameEvent::BlindSelected, effect: TriggerEffect::DestroyRandomJoker }],
        117 => &[TriggerDef { event: GameEvent::RoundEnded, effect: TriggerEffect::CreateNegativeCopy }],
        123 => &[TriggerDef { event: GameEvent::BlindSelected, effect: TriggerEffect::DisableBossBlind }],
        100 => &[TriggerDef { event: GameEvent::RoundEnded, effect: TriggerEffect::SelfDestruct { chance: 250 } }],
        105 => &[TriggerDef { event: GameEvent::RoundEnded, effect: TriggerEffect::SelfDestruct { chance: 6 } }],
        28 => &[TriggerDef { event: GameEvent::HandPlayed, effect: TriggerEffect::AddToState { chips: 0, mult: 1, x_mult_hundredths: 0 } }, TriggerDef { event: GameEvent::RoundEnded, effect: TriggerEffect::ResetState }],
        20 => &[TriggerDef { event: GameEvent::HandPlayed, effect: TriggerEffect::Custom }],
        110 => &[TriggerDef { event: GameEvent::CardDiscarded, effect: TriggerEffect::Custom }],
        72 => &[TriggerDef { event: GameEvent::CardDiscarded, effect: TriggerEffect::Custom }],
        _ => &[],
    }
}

} // verus!
