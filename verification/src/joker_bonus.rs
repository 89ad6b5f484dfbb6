//! What each joker adds to a scored hand in whole numbers: chips, additive mult, money and
//! retriggers. Multiplying factors are fractional and are worked out by the caller.

use vstd::prelude::*;

use crate::cards::{Card, Enhancement};
use crate::hand_types::HandId;
use crate::joker::{JokerId, ScoringContext};
use crate::joker_def::{CLUB, DIAMOND, HEART, SPADE};

verus! {

// ---------------------------------------------------------------------------
// Counting cards
// ---------------------------------------------------------------------------

/// A test on one card that joker effects count by.
#[derive(Clone, Copy, Debug, PartialEq, Eq, Structural)]
pub enum CardTest {
    /// Of this suit.
    Suit(u8),
    /// Jack, Queen or King.
    Face,
    /// Ace, 2, 3, 5 or 8.
    Fibonacci,
    /// 2, 4, 6, 8 or 10.
    Even,
    /// Ace, 3, 5, 7 or 9.
    Odd,
    /// An Ace.
    Ace,
    /// A gold card.
    Gold,
    /// Of this rank.
    Rank(u8),
    /// 2 to 5.
    Low,
    /// 2 to 7.
    BelowEight,
    /// Below an Ace counted high (every rank up to King).
    BelowAce,
    /// A 10 or a 4.
    TenOrFour,
}

/// Whether a card passes a test.
pub open spec fn passes(c: Card, t: CardTest) -> bool {
    match t {
        CardTest::Suit(s) => c.suit == s,
        CardTest::Face => 11 <= c.rank <= 13,
        CardTest::Fibonacci => c.rank == 1 || c.rank == 2 || c.rank == 3 || c.rank == 5 || c.rank == 8,
        CardTest::Even => c.rank <= 10 && c.rank % 2 == 0,
        CardTest::Odd => c.rank == 1 || (c.rank <= 9 && c.rank % 2 == 1),
        CardTest::Ace => c.rank == 1 || c.rank == 14,
        CardTest::Gold => c.enhancement == Enhancement::Gold,
        CardTest::Rank(r) => c.rank == r,
        CardTest::Low => 2 <= c.rank <= 5,
        CardTest::BelowEight => 2 <= c.rank <= 7,
        CardTest::BelowAce => c.rank < 14,
        CardTest::TenOrFour => c.rank == 10 || c.rank == 4,
    }
}

/// Cards of `s` that pass `t`.
pub open spec fn count_passing(s: Seq<Card>, t: CardTest) -> int
    decreases s.len(),
{
    if s.len() == 0 {
        0
    } else {
        count_passing(s.drop_last(), t) + if passes(s.last(), t) { 1int } else { 0int }
    }
}

fn card_passes(c: &Card, t: CardTest) -> (r: bool)
    ensures
        r == passes(*c, t),
{
    match t {
        CardTest::Suit(s) => c.suit == s,
        CardTest::Face => c.rank >= 11 && c.rank <= 13,
        CardTest::Fibonacci => c.rank == 1 || c.rank == 2 || c.rank == 3 || c.rank == 5 || c.rank == 8,
        CardTest::Even => c.rank <= 10 && c.rank % 2 == 0,
        CardTest::Odd => c.rank == 1 || (c.rank <= 9 && c.rank % 2 == 1),
        CardTest::Ace => c.rank == 1 || c.rank == 14,
        CardTest::Gold => c.enhancement == Enhancement::Gold,
        CardTest::Rank(r) => c.rank == r,
        CardTest::Low => c.rank >= 2 && c.rank <= 5,
        CardTest::BelowEight => c.rank >= 2 && c.rank <= 7,
        CardTest::BelowAce => c.rank < 14,
        CardTest::TenOrFour => c.rank == 10 || c.rank == 4,
    }
}

/// Number of cards that pass a test.
pub fn count_cards(cards: &[Card], t: CardTest) -> (r: usize)
    ensures
        r == count_passing(cards@, t),
        r <= cards@.len(),
{
    let mut r: usize = 0;
    let mut i: usize = 0;
    while i < cards.len()
        invariant
            i <= cards@.len(),
            r == count_passing(cards@.take(i as int), t),
            r <= i,
        decreases cards@.len() - i,
    {
        proof {
            assert(cards@.take(i as int + 1).drop_last() =~= cards@.take(i as int));
        }
        if card_passes(&cards[i], t) {
            r = r + 1;
        }
        i = i + 1;
    }
    proof {
        assert(cards@.take(cards@.len() as int) =~= cards@);
    }
    r
}

/// The lowest rank among `s` (0 for no cards).
pub open spec fn lowest_rank(s: Seq<Card>) -> int
    decreases s.len(),
{
    if s.len() == 0 {
        0
    } else if s.len() == 1 {
        s[0].rank as int
    } else {
        let m = lowest_rank(s.drop_last());
        if s.last().rank < m { s.last().rank as int } else { m }
    }
}

fn lowest_rank_of(cards: &[Card]) -> (r: u8)
    ensures
        r == lowest_rank(cards@),
{
    if cards.len() == 0 {
        return 0;
    }
    let mut m: u8 = cards[0].rank;
    let mut i: usize = 1;
    proof {
        assert(cards@.take(1).drop_last() =~= Seq::<Card>::empty());
    }
    while i < cards.len()
        invariant
            1 <= i <= cards@.len(),
            m == lowest_rank(cards@.take(i as int)),
        decreases cards@.len() - i,
    {
        proof {
            assert(cards@.take(i as int + 1).drop_last() =~= cards@.take(i as int));
        }
        if cards[i].rank < m {
            m = cards[i].rank;
        }
        i = i + 1;
    }
    proof {
        assert(cards@.take(cards@.len() as int) =~= cards@);
    }
    m
}

/// Business Card: $2 for each face card whose bit of the random byte (taken in turn, every
/// eight cards starting over) is clear.
pub open spec fn business_money(faces: nat, rng_value: u8) -> int
    decreases faces,
{
    if faces == 0 {
        0
    } else {
        business_money((faces - 1) as nat, rng_value) + if (rng_value >> ((faces - 1) % 8) as u8) & 1u8 == 0u8 {
            2int
        } else {
            0int
        }
    }
}

fn business_card_money(faces: usize, rng_value: u8) -> (r: i64)
    requires
        faces <= 1_000_000,
    ensures
        r == business_money(faces as nat, rng_value),
        0 <= r <= 2 * faces,
{
    let mut r: i64 = 0;
    let mut i: usize = 0;
    while i < faces
        invariant
            i <= faces <= 1_000_000,
            r == business_money(i as nat, rng_value),
            0 <= r <= 2 * i,
        decreases faces - i,
    {
        let sh: u8 = (i % 8) as u8;
        if (rng_value >> sh) & 1u8 == 0u8 {
            r = r + 2;
        }
        i = i + 1;
    }
    r
}

// ---------------------------------------------------------------------------
// The bonus of one joker
// ---------------------------------------------------------------------------

/// What a joker adds in whole numbers.
#[derive(Clone, Copy, Debug, PartialEq, Eq, Structural)]
pub struct CoreJokerBonus {
    pub chip_bonus: i64,
    pub add_mult: i64,
    pub money_bonus: i64,
    pub retriggers: i32,
}

/// Nothing added.
pub open spec fn no_bonus() -> CoreJokerBonus {
    CoreJokerBonus { chip_bonus: 0, add_mult: 0, money_bonus: 0, retriggers: 0 }
}

pub open spec fn chips_of(n: int) -> CoreJokerBonus {
    CoreJokerBonus { chip_bonus: n as i64, ..no_bonus() }
}

pub open spec fn mult_of(n: int) -> CoreJokerBonus {
    CoreJokerBonus { add_mult: n as i64, ..no_bonus() }
}

pub open spec fn money_of(n: int) -> CoreJokerBonus {
    CoreJokerBonus { money_bonus: n as i64, ..no_bonus() }
}

pub open spec fn retriggers_of(n: int) -> CoreJokerBonus {
    CoreJokerBonus { retriggers: n as i32, ..no_bonus() }
}

/// Hands that hold a pair: Pair, Two Pair, Full House.
pub open spec fn has_pair(h: HandId) -> bool {
    h == HandId::Pair || h == HandId::TwoPair || h == HandId::FullHouse
}

/// Hands that hold three of a kind: Three of a Kind, Full House, Four of a Kind.
pub open spec fn has_three(h: HandId) -> bool {
    h == HandId::ThreeKind || h == HandId::FullHouse || h == HandId::FourKind
}

/// Hands that are straights: Straight, Straight Flush, Royal Flush.
pub open spec fn is_straight_hand(h: HandId) -> bool {
    h == HandId::Straight || h == HandId::StraightFlush || h == HandId::RoyalFlush
}

/// Hands that are flushes: Flush, Straight Flush, Royal Flush.
pub open spec fn is_flush_hand(h: HandId) -> bool {
    h == HandId::Flush || h == HandId::StraightFlush || h == HandId::RoyalFlush
}

/// A whole number divided by 5, rounded toward zero.
pub open spec fn fifth(m: int) -> int {
    if m >= 0 { m / 5 } else { -((-m) / 5) }
}

/// What joker `id` adds to a hand in whole numbers, given the scoring context and a random
/// byte (Misprint, Business Card).
pub open spec fn core_joker_bonus(id: JokerId, ctx: ScoringContext, rng_value: u8) -> CoreJokerBonus {
    let played = ctx.played_cards@;
    let held = ctx.hand@;
    let h = ctx.hand_id;
    match id {
        JokerId::Joker => mult_of(4),
        JokerId::GreedyJoker => money_of(3 * count_passing(played, CardTest::Suit(1))),
        JokerId::LustyJoker => money_of(3 * count_passing(played, CardTest::Suit(2))),
        JokerId::WrathfulJoker => money_of(3 * count_passing(played, CardTest::Suit(0))),
        JokerId::GluttonousJoker => money_of(3 * count_passing(played, CardTest::Suit(3))),
        JokerId::JollyJoker => if has_pair(h) { mult_of(8) } else { no_bonus() },
        JokerId::SlyJoker => if has_pair(h) { chips_of(50) } else { no_bonus() },
        JokerId::ZanyJoker => if has_three(h) { mult_of(12) } else { no_bonus() },
        JokerId::WilyJoker => if has_three(h) { chips_of(100) } else { no_bonus() },
        JokerId::MadJoker => if h == HandId::TwoPair { mult_of(10) } else { no_bonus() },
        JokerId::CleverJoker => if h == HandId::TwoPair { chips_of(80) } else { no_bonus() },
        JokerId::CrazyJoker => if is_straight_hand(h) { mult_of(12) } else { no_bonus() },
        JokerId::DeviousJoker => if is_straight_hand(h) { chips_of(100) } else { no_bonus() },
        JokerId::DrollJoker => if is_flush_hand(h) { mult_of(10) } else { no_bonus() },
        JokerId::CraftyJoker => if is_flush_hand(h) { chips_of(80) } else { no_bonus() },
        JokerId::HalfJoker => if played.len() <= 3 { mult_of(20) } else { no_bonus() },
        JokerId::Banner => chips_of(30 * ctx.discards_remaining),
        JokerId::MysticSummit => if ctx.discards_remaining == 0 { mult_of(15) } else { no_bonus() },
        JokerId::Misprint => mult_of((rng_value % 24) as int),
        JokerId::AbstractJoker => mult_of(3 * ctx.joker_count),
        JokerId::RideTheBus => mult_of(ctx.consecutive_non_face as int),
        JokerId::GoldenJoker => money_of(4),
        JokerId::Bull => chips_of(2 * ctx.money_held),
        JokerId::ToTheMoon => money_of(fifth(ctx.money_held as int)),
        JokerId::Supernova => mult_of(ctx.hands_played_this_run as int),
        JokerId::Erosion => mult_of(4 * if 52 - ctx.deck_size > 0 { 52 - ctx.deck_size } else { 0 }),
        JokerId::SquareJoker => if ctx.deck_size == 52 { mult_of(4 * played.len() as int) } else { no_bonus() },
        JokerId::BlueJoker => chips_of(2 * ctx.deck_size),
        JokerId::Fibonacci => mult_of(8 * count_passing(played, CardTest::Fibonacci)),
        JokerId::ScaryFace => chips_of(30 * count_passing(played, CardTest::Face)),
        JokerId::EvenSteven => mult_of(4 * count_passing(played, CardTest::Even)),
        JokerId::OddTodd => chips_of(31 * count_passing(played, CardTest::Odd)),
        JokerId::Scholar => CoreJokerBonus {
            chip_bonus: (20 * count_passing(played, CardTest::Ace)) as i64,
            add_mult: (4 * count_passing(played, CardTest::Ace)) as i64,
            ..no_bonus()
        },
        JokerId::Smiley => mult_of(5 * count_passing(played, CardTest::Face)),
        JokerId::BusinessCard => money_of(business_money(count_passing(played, CardTest::Face) as nat, rng_value)),
        JokerId::Arrowhead => chips_of(50 * count_passing(played, CardTest::Suit(0))),
        JokerId::Onyx => mult_of(80 * count_passing(played, CardTest::Suit(3))),
        JokerId::RoughGem => money_of(count_passing(played, CardTest::Suit(1))),
        JokerId::Ticket => money_of(count_passing(played, CardTest::Gold)),
        JokerId::Walkie => if count_passing(played, CardTest::TenOrFour) > 0 { mult_of(10) } else { no_bonus() },
        JokerId::FortuneTeller => mult_of(ctx.tarots_used_this_run as int),
        JokerId::SockAndBuskin => retriggers_of(count_passing(played, CardTest::Face)),
        JokerId::HangingChad => if played.len() > 0 { retriggers_of(1) } else { no_bonus() },
        JokerId::Hack => retriggers_of(count_passing(played, CardTest::Low)),
        JokerId::RedCard => mult_of(3 * ctx.blinds_skipped),
        JokerId::Flash => mult_of(2 * ctx.rerolls_this_run),
        JokerId::ShootTheMoon => mult_of(13 * count_passing(held, CardTest::Rank(12)) * if ctx.has_mime { 2int } else { 1int }),
        JokerId::Swashbuckler => mult_of(2 * count_passing(held, CardTest::BelowEight)),
        JokerId::RaisedFist => if held.len() > 0 { mult_of(2 * lowest_rank(held)) } else { no_bonus() },
        JokerId::Courier => chips_of(25 * count_passing(held, CardTest::BelowAce)),
        JokerId::Trousers | JokerId::Spare_Trousers => if h == HandId::TwoPair { mult_of(4) } else { no_bonus() },
        JokerId::Square => if played.len() == 4 { chips_of(4) } else { no_bonus() },
        JokerId::Runner => if is_straight_hand(h) { chips_of(15) } else { no_bonus() },
        JokerId::Stuntman => chips_of(250),
        JokerId::Bootstraps => if ctx.money_held > 0 { mult_of(2 * (ctx.money_held / 5)) } else { no_bonus() },
        JokerId::Stone => chips_of(25 * ctx.stone_cards_in_deck),
        JokerId::Gros_Michel => mult_of(15),
        JokerId::Matador => if ctx.boss_ability_triggered { money_of(8) } else { no_bonus() },
        _ => no_bonus(),
    }
}

/// A bonus of the given chips, mult, money and retriggers.
pub open spec fn bonus_parts(chips: int, mult: int, money: int, retriggers: int) -> CoreJokerBonus {
    CoreJokerBonus {
        chip_bonus: chips as i64,
        add_mult: mult as i64,
        money_bonus: money as i64,
        retriggers: retriggers as i32,
    }
}

/// The jokers that reward a kind of hand pay exactly on these hands: Jolly (+8 mult) and Sly
/// (+50 chips) on a Pair, Two Pair or Full House; Zany (+12 mult) and Wily (+100 chips) on
/// Three of a Kind, Full House or Four of a Kind; Mad (+10 mult), Clever (+80 chips) and
/// Spare Trousers (+4 mult) on Two Pair; Crazy (+12 mult), Devious (+100 chips) and Runner
/// (+15 chips) on a Straight, Straight Flush or Royal Flush; Droll (+10 mult) and Crafty
/// (+80 chips) on a Flush, Straight Flush or Royal Flush. On any other hand they add nothing.
pub proof fn lemma_hand_kind_jokers(ctx: ScoringContext, v: u8)
    ensures
        ({
            let h = ctx.hand_id;
            let pair = h == HandId::Pair || h == HandId::TwoPair || h == HandId::FullHouse;
            let three = h == HandId::ThreeKind || h == HandId::FullHouse || h == HandId::FourKind;
            let two_pair = h == HandId::TwoPair;
            let straight = h == HandId::Straight || h == HandId::StraightFlush || h == HandId::RoyalFlush;
            let flush = h == HandId::Flush || h == HandId::StraightFlush || h == HandId::RoyalFlush;
            &&& core_joker_bonus(JokerId::JollyJoker, ctx, v) == bonus_parts(0, if pair { 8 } else { 0 }, 0, 0)
            &&& core_joker_bonus(JokerId::SlyJoker, ctx, v) == bonus_parts(if pair { 50 } else { 0 }, 0, 0, 0)
            &&& core_joker_bonus(JokerId::ZanyJoker, ctx, v) == bonus_parts(0, if three { 12 } else { 0 }, 0, 0)
            &&& core_joker_bonus(JokerId::WilyJoker, ctx, v) == bonus_parts(if three { 100 } else { 0 }, 0, 0, 0)
            &&& core_joker_bonus(JokerId::MadJoker, ctx, v) == bonus_parts(0, if two_pair { 10 } else { 0 }, 0, 0)
            &&& core_joker_bonus(JokerId::CleverJoker, ctx, v) == bonus_parts(if two_pair { 80 } else { 0 }, 0, 0, 0)
            &&& core_joker_bonus(JokerId::Spare_Trousers, ctx, v) == bonus_parts(0, if two_pair { 4 } else { 0 }, 0, 0)
            &&& core_joker_bonus(JokerId::CrazyJoker, ctx, v) == bonus_parts(0, if straight { 12 } else { 0 }, 0, 0)
            &&& core_joker_bonus(JokerId::DeviousJoker, ctx, v) == bonus_parts(if straight { 100 } else { 0 }, 0, 0, 0)
            &&& core_joker_bonus(JokerId::Runner, ctx, v) == bonus_parts(if straight { 15 } else { 0 }, 0, 0, 0)
            &&& core_joker_bonus(JokerId::DrollJoker, ctx, v) == bonus_parts(0, if flush { 10 } else { 0 }, 0, 0)
            &&& core_joker_bonus(JokerId::CraftyJoker, ctx, v) == bonus_parts(if flush { 80 } else { 0 }, 0, 0, 0)
        }),
{
}

/// Jokers paying on a kind of hand pay together: the mult and the chips joker of each kind
/// fire on the same hands, whatever the context.
pub proof fn lemma_hand_kind_jokers_agree(ctx: ScoringContext, v: u8, w: u8)
    ensures
        (core_joker_bonus(JokerId::JollyJoker, ctx, v).add_mult > 0) == (core_joker_bonus(JokerId::SlyJoker, ctx, w).chip_bonus > 0),
        (core_joker_bonus(JokerId::ZanyJoker, ctx, v).add_mult > 0) == (core_joker_bonus(JokerId::WilyJoker, ctx, w).chip_bonus > 0),
        (core_joker_bonus(JokerId::MadJoker, ctx, v).add_mult > 0) == (core_joker_bonus(JokerId::CleverJoker, ctx, w).chip_bonus > 0),
        (core_joker_bonus(JokerId::CrazyJoker, ctx, v).add_mult > 0) == (core_joker_bonus(JokerId::DeviousJoker, ctx, w).chip_bonus > 0),
        (core_joker_bonus(JokerId::DrollJoker, ctx, v).add_mult > 0) == (core_joker_bonus(JokerId::CraftyJoker, ctx, w).chip_bonus > 0),
{
}

/// Jokers that count played cards pay per card that passes their test: Greedy, Lusty,
/// Wrathful and Gluttonous $3 per Diamond, Heart, Spade and Club; Scary Face +30 chips and
/// Smiley +5 mult per face card; Fibonacci +8 mult per Ace, 2, 3, 5 or 8; Even Steven +4
/// mult per even card up to 10; Odd Todd +31 chips per odd card up to 9 or Ace; Arrowhead
/// +50 chips per Spade; Onyx +80 mult per Club; Rough Gem $1 per Diamond. Half Joker adds
/// +20 mult when three cards or fewer are played, Banner +30 chips per discard left, and
/// Misprint between 0 and 23 mult.
pub proof fn lemma_card_counting_jokers(ctx: ScoringContext, v: u8)
    ensures
        ({
            let p = ctx.played_cards@;
            &&& core_joker_bonus(JokerId::GreedyJoker, ctx, v) == bonus_parts(0, 0, 3 * count_passing(p, CardTest::Suit(DIAMOND)), 0)
            &&& core_joker_bonus(JokerId::LustyJoker, ctx, v) == bonus_parts(0, 0, 3 * count_passing(p, CardTest::Suit(HEART)), 0)
            &&& core_joker_bonus(JokerId::WrathfulJoker, ctx, v) == bonus_parts(0, 0, 3 * count_passing(p, CardTest::Suit(SPADE)), 0)
            &&& core_joker_bonus(JokerId::GluttonousJoker, ctx, v) == bonus_parts(0, 0, 3 * count_passing(p, CardTest::Suit(CLUB)), 0)
            &&& core_joker_bonus(JokerId::ScaryFace, ctx, v) == bonus_parts(30 * count_passing(p, CardTest::Face), 0, 0, 0)
            &&& core_joker_bonus(JokerId::Smiley, ctx, v) == bonus_parts(0, 5 * count_passing(p, CardTest::Face), 0, 0)
            &&& core_joker_bonus(JokerId::Fibonacci, ctx, v) == bonus_parts(0, 8 * count_passing(p, CardTest::Fibonacci), 0, 0)
            &&& core_joker_bonus(JokerId::EvenSteven, ctx, v) == bonus_parts(0, 4 * count_passing(p, CardTest::Even), 0, 0)
            &&& core_joker_bonus(JokerId::OddTodd, ctx, v) == bonus_parts(31 * count_passing(p, CardTest::Odd), 0, 0, 0)
            &&& core_joker_bonus(JokerId::Arrowhead, ctx, v) == bonus_parts(50 * count_passing(p, CardTest::Suit(SPADE)), 0, 0, 0)
            &&& core_joker_bonus(JokerId::Onyx, ctx, v) == bonus_parts(0, 80 * count_passing(p, CardTest::Suit(CLUB)), 0, 0)
            &&& core_joker_bonus(JokerId::RoughGem, ctx, v) == bonus_parts(0, 0, count_passing(p, CardTest::Suit(DIAMOND)), 0)
            &&& core_joker_bonus(JokerId::HalfJoker, ctx, v) == bonus_parts(0, if p.len() <= 3 { 20 } else { 0 }, 0, 0)
            &&& core_joker_bonus(JokerId::Banner, ctx, v) == bonus_parts(30 * ctx.discards_remaining, 0, 0, 0)
            &&& 0 <= core_joker_bonus(JokerId::Misprint, ctx, v).add_mult <= 23
            &&& core_joker_bonus(JokerId::Joker, ctx, v) == bonus_parts(0, 4, 0, 0)
        }),
{
}

/// Jokers that read the game's counters: Abstract Joker +3 mult per joker, Bull +2 chips per
/// dollar held, Blue Joker +2 chips per deck card, Erosion +4 mult per card the deck is
/// below 52, Supernova +1 mult per hand played this run, Ride the Bus +1 mult per
/// consecutive hand without a face card, Fortune Teller +1 mult per tarot used, Red Card +3
/// mult per blind skipped, Flash Card +2 mult per reroll, Stone Joker +25 chips per Stone
/// card in the deck, Mystic Summit +15 mult with no discard left, Golden Joker $4, Matador
/// $8 when the boss's ability fired, Stuntman +250 chips, Gros Michel +15 mult.
pub proof fn lemma_counter_jokers(ctx: ScoringContext, v: u8)
    ensures
        core_joker_bonus(JokerId::AbstractJoker, ctx, v) == bonus_parts(0, 3 * ctx.joker_count, 0, 0),
        core_joker_bonus(JokerId::Bull, ctx, v) == bonus_parts(2 * ctx.money_held, 0, 0, 0),
        core_joker_bonus(JokerId::BlueJoker, ctx, v) == bonus_parts(2 * ctx.deck_size, 0, 0, 0),
        core_joker_bonus(JokerId::Erosion, ctx, v) == bonus_parts(
            0,
            if ctx.deck_size < 52 { 4 * (52 - ctx.deck_size) } else { 0 },
            0,
            0,
        ),
        core_joker_bonus(JokerId::Supernova, ctx, v) == bonus_parts(0, ctx.hands_played_this_run as int, 0, 0),
        core_joker_bonus(JokerId::RideTheBus, ctx, v) == bonus_parts(0, ctx.consecutive_non_face as int, 0, 0),
        core_joker_bonus(JokerId::FortuneTeller, ctx, v) == bonus_parts(0, ctx.tarots_used_this_run as int, 0, 0),
        core_joker_bonus(JokerId::RedCard, ctx, v) == bonus_parts(0, 3 * ctx.blinds_skipped, 0, 0),
        core_joker_bonus(JokerId::Flash, ctx, v) == bonus_parts(0, 2 * ctx.rerolls_this_run, 0, 0),
        core_joker_bonus(JokerId::Stone, ctx, v) == bonus_parts(25 * ctx.stone_cards_in_deck, 0, 0, 0),
        core_joker_bonus(JokerId::MysticSummit, ctx, v) == bonus_parts(
            0,
            if ctx.discards_remaining == 0 { 15 } else { 0 },
            0,
            0,
        ),
        core_joker_bonus(JokerId::GoldenJoker, ctx, v) == bonus_parts(0, 0, 4, 0),
        core_joker_bonus(JokerId::Matador, ctx, v) == bonus_parts(0, 0, if ctx.boss_ability_triggered { 8 } else { 0 }, 0),
        core_joker_bonus(JokerId::Stuntman, ctx, v) == bonus_parts(250, 0, 0, 0),
        core_joker_bonus(JokerId::Gros_Michel, ctx, v) == bonus_parts(0, 15, 0, 0),
{
}

/// Jokers that look at single cards: Scholar +20 chips and +4 mult per Ace played, Golden
/// Ticket $1 per Gold card played, Walkie Talkie +10 mult when a 10 or 4 is played, Sock and
/// Buskin one retrigger per face card played, Hack one per 2 to 5 played, Hanging Chad one
/// when any card is played, Square Joker +4 chips on exactly four cards, Shoot the Moon +13
/// mult per Queen held (twice with Mime), Courier +25 chips per held card below an Ace.
pub proof fn lemma_single_card_jokers(ctx: ScoringContext, v: u8)
    ensures
        ({
            let p = ctx.played_cards@;
            let held = ctx.hand@;
            &&& core_joker_bonus(JokerId::Scholar, ctx, v) == bonus_parts(
                20 * count_passing(p, CardTest::Ace),
                4 * count_passing(p, CardTest::Ace),
                0,
                0,
            )
            &&& core_joker_bonus(JokerId::Ticket, ctx, v) == bonus_parts(0, 0, count_passing(p, CardTest::Gold), 0)
            &&& core_joker_bonus(JokerId::Walkie, ctx, v) == bonus_parts(
                0,
                if count_passing(p, CardTest::Rank(10)) + count_passing(p, CardTest::Rank(4)) > 0 { 10 } else { 0 },
                0,
                0,
            )
            &&& core_joker_bonus(JokerId::SockAndBuskin, ctx, v) == bonus_parts(0, 0, 0, count_passing(p, CardTest::Face))
            &&& core_joker_bonus(JokerId::Hack, ctx, v) == bonus_parts(0, 0, 0, count_passing(p, CardTest::Low))
            &&& core_joker_bonus(JokerId::HangingChad, ctx, v) == bonus_parts(0, 0, 0, if p.len() > 0 { 1 } else { 0 })
            &&& core_joker_bonus(JokerId::Square, ctx, v) == bonus_parts(if p.len() == 4 { 4 } else { 0 }, 0, 0, 0)
            &&& core_joker_bonus(JokerId::ShootTheMoon, ctx, v) == bonus_parts(
                0,
                13 * count_passing(held, CardTest::Rank(12)) * if ctx.has_mime { 2int } else { 1int },
                0,
                0,
            )
            &&& core_joker_bonus(JokerId::Courier, ctx, v) == bonus_parts(25 * count_passing(held, CardTest::BelowAce), 0, 0, 0)
        }),
{
    let p = ctx.played_cards@;
    lemma_ten_or_four_split(p);
}

proof fn lemma_ten_or_four_split(s: Seq<Card>)
    ensures
        count_passing(s, CardTest::TenOrFour) == count_passing(s, CardTest::Rank(10)) + count_passing(
            s,
            CardTest::Rank(4),
        ),
    decreases s.len(),
{
    if s.len() > 0 {
        lemma_ten_or_four_split(s.drop_last());
    }
}

proof fn lemma_lowest_rank_is_least(s: Seq<Card>)
    requires
        s.len() > 0,
    ensures
        forall|j: int| 0 <= j < s.len() ==> lowest_rank(s) <= #[trigger] s[j].rank,
        exists|i: int| 0 <= i < s.len() && lowest_rank(s) == #[trigger] s[i].rank,
    decreases s.len(),
{
    if s.len() > 1 {
        let t = s.drop_last();
        lemma_lowest_rank_is_least(t);
        assert forall|j: int| 0 <= j < s.len() implies lowest_rank(s) <= #[trigger] s[j].rank by {
            if j < t.len() {
                assert(s[j] == t[j]);
            }
        }
        let i = choose|i: int| 0 <= i < t.len() && lowest_rank(t) == #[trigger] t[i].rank;
        assert(s[i] == t[i]);
        if s.last().rank < lowest_rank(t) {
            assert(lowest_rank(s) == s[s.len() - 1].rank);
        } else {
            assert(lowest_rank(s) == s[i].rank);
        }
    } else {
        assert(lowest_rank(s) == s[0].rank);
    }
}

proof fn lemma_business_money_bounds(faces: nat, v: u8)
    ensures
        0 <= business_money(faces, v) <= 2 * faces,
        business_money(faces, v) % 2 == 0,
    decreases faces,
{
    if faces > 0 {
        lemma_business_money_bounds((faces - 1) as nat, v);
    }
}

/// Jokers of money and held cards: Raised Fist adds twice the lowest rank held (nothing with
/// no card held); Swashbuckler +2 mult per held card of rank 2 to 7; Business Card pays $2 on
/// some of the played face cards, never more than $2 each; To the Moon pays $1 per $5 held;
/// Bootstraps +2 mult per $5 held; Square Joker +4 mult per played card with a full 52-card
/// deck; Trousers +4 mult on Two Pair.
pub proof fn lemma_money_and_held_jokers(ctx: ScoringContext, v: u8)
    requires
        context_in_range(ctx),
    ensures
        ({
            let p = ctx.played_cards@;
            let held = ctx.hand@;
            let fist = core_joker_bonus(JokerId::RaisedFist, ctx, v);
            &&& held.len() == 0 ==> fist == bonus_parts(0, 0, 0, 0)
            &&& held.len() > 0 ==> {
                &&& forall|j: int| 0 <= j < held.len() ==> fist.add_mult <= 2 * #[trigger] held[j].rank
                &&& exists|i: int| 0 <= i < held.len() && fist.add_mult == 2 * #[trigger] held[i].rank
                &&& fist.chip_bonus == 0 && fist.money_bonus == 0 && fist.retriggers == 0
            }
            &&& core_joker_bonus(JokerId::Swashbuckler, ctx, v) == bonus_parts(0, 2 * count_passing(held, CardTest::BelowEight), 0, 0)
            &&& 0 <= core_joker_bonus(JokerId::BusinessCard, ctx, v).money_bonus <= 2 * count_passing(p, CardTest::Face)
            &&& core_joker_bonus(JokerId::BusinessCard, ctx, v).money_bonus % 2 == 0
            &&& ctx.money_held >= 0 ==> {
                let m = core_joker_bonus(JokerId::ToTheMoon, ctx, v).money_bonus;
                5 * m <= ctx.money_held < 5 * m + 5
            }
            &&& core_joker_bonus(JokerId::Bootstraps, ctx, v) == bonus_parts(
                0,
                if ctx.money_held > 0 { 2 * (ctx.money_held / 5) } else { 0 },
                0,
                0,
            )
            &&& core_joker_bonus(JokerId::SquareJoker, ctx, v) == bonus_parts(0, if ctx.deck_size == 52 { 4 * p.len() as int } else { 0 }, 0, 0)
            &&& core_joker_bonus(JokerId::Trousers, ctx, v) == bonus_parts(0, if ctx.hand_id == HandId::TwoPair { 4 } else { 0 }, 0, 0)
        }),
{
    let p = ctx.played_cards@;
    let held = ctx.hand@;
    if held.len() > 0 {
        lemma_lowest_rank_is_least(held);
        let i = choose|i: int| 0 <= i < held.len() && lowest_rank(held) == #[trigger] held[i].rank;
        assert(core_joker_bonus(JokerId::RaisedFist, ctx, v).add_mult == 2 * held[i].rank);
    }
    lemma_count_passing_bounds(p, CardTest::Face);
    lemma_business_money_bounds(count_passing(p, CardTest::Face) as nat, v);
    assert(0 <= core_joker_bonus(JokerId::BusinessCard, ctx, v).money_bonus <= 2 * count_passing(p, CardTest::Face));
    if ctx.money_held >= 0 {
        let m = core_joker_bonus(JokerId::ToTheMoon, ctx, v).money_bonus;
        assert(m == ctx.money_held / 5);
        assert(5 * m <= ctx.money_held < 5 * m + 5);
    }
}

proof fn lemma_count_passing_bounds(s: Seq<Card>, t: CardTest)
    ensures
        0 <= count_passing(s, t) <= s.len(),
    decreases s.len(),
{
    if s.len() > 0 {
        lemma_count_passing_bounds(s.drop_last(), t);
    }
}

/// Card lists and amounts of a context that keep every bonus in range.
pub open spec fn context_in_range(ctx: ScoringContext) -> bool {
    &&& ctx.played_cards@.len() <= 1_000_000
    &&& ctx.hand@.len() <= 1_000_000
    &&& -1_000_000_000_000_000 <= ctx.money_held <= 1_000_000_000_000_000
    &&& ctx.joker_count <= 1_000_000_000
}

/// What joker `id` adds to a hand in whole numbers (see `core_joker_bonus`).
#[verifier::spinoff_prover]
pub fn compute_core_joker_bonus(id: JokerId, ctx: &ScoringContext, rng_value: u8) -> (r: CoreJokerBonus)
    requires
        context_in_range(*ctx),
    ensures
        r == core_joker_bonus(id, *ctx, rng_value),
{
    let zero = CoreJokerBonus { chip_bonus: 0, add_mult: 0, money_bonus: 0, retriggers: 0 };
    let h = ctx.hand_id;
    let pair = h == HandId::Pair || h == HandId::TwoPair || h == HandId::FullHouse;
    let three = h == HandId::ThreeKind || h == HandId::FullHouse || h == HandId::FourKind;
    let straight = h == HandId::Straight || h == HandId::StraightFlush || h == HandId::RoyalFlush;
    let flush = h == HandId::Flush || h == HandId::StraightFlush || h == HandId::RoyalFlush;
    let played = ctx.played_cards;
    let held = ctx.hand;
    match id {
        JokerId::Joker => CoreJokerBonus { add_mult: 4, ..zero },
        JokerId::GreedyJoker => CoreJokerBonus { money_bonus: 3 * count_cards(played, CardTest::Suit(1)) as i64, ..zero },
        JokerId::LustyJoker => CoreJokerBonus { money_bonus: 3 * count_cards(played, CardTest::Suit(2)) as i64, ..zero },
        JokerId::WrathfulJoker => CoreJokerBonus { money_bonus: 3 * count_cards(played, CardTest::Suit(0)) as i64, ..zero },
        JokerId::GluttonousJoker => CoreJokerBonus { money_bonus: 3 * count_cards(played, CardTest::Suit(3)) as i64, ..zero },
        JokerId::JollyJoker => if pair { CoreJokerBonus { add_mult: 8, ..zero } } else { zero },
        JokerId::SlyJoker => if pair { CoreJokerBonus { chip_bonus: 50, ..zero } } else { zero },
        JokerId::ZanyJoker => if three { CoreJokerBonus { add_mult: 12, ..zero } } else { zero },
        JokerId::WilyJoker => if three { CoreJokerBonus { chip_bonus: 100, ..zero } } else { zero },
        JokerId::MadJoker => if h == HandId::TwoPair { CoreJokerBonus { add_mult: 10, ..zero } } else { zero },
        JokerId::CleverJoker => if h == HandId::TwoPair { CoreJokerBonus { chip_bonus: 80, ..zero } } else { zero },
        JokerId::CrazyJoker => if straight { CoreJokerBonus { add_mult: 12, ..zero } } else { zero },
        JokerId::DeviousJoker => if straight { CoreJokerBonus { chip_bonus: 100, ..zero } } else { zero },
        JokerId::DrollJoker => if flush { CoreJokerBonus { add_mult: 10, ..zero } } else { zero },
        JokerId::CraftyJoker => if flush { CoreJokerBonus { chip_bonus: 80, ..zero } } else { zero },
        JokerId::HalfJoker => if played.len() <= 3 { CoreJokerBonus { add_mult: 20, ..zero } } else { zero },
        JokerId::Banner => CoreJokerBonus { chip_bonus: ctx.discards_remaining as i64 * 30, ..zero },
        JokerId::MysticSummit => if ctx.discards_remaining == 0 { CoreJokerBonus { add_mult: 15, ..zero } } else { zero },
        JokerId::Misprint => CoreJokerBonus { add_mult: (rng_value % 24) as i64, ..zero },
        JokerId::AbstractJoker => CoreJokerBonus { add_mult: ctx.joker_count as i64 * 3, ..zero },
        JokerId::RideTheBus => CoreJokerBonus { add_mult: ctx.consecutive_non_face as i64, ..zero },
        JokerId::GoldenJoker => CoreJokerBonus { money_bonus: 4, ..zero },
        JokerId::Bull => CoreJokerBonus { chip_bonus: ctx.money_held * 2, ..zero },
        JokerId::ToTheMoon => CoreJokerBonus { money_bonus: ctx.money_held / 5, ..zero },
        JokerId::Supernova => CoreJokerBonus { add_mult: ctx.hands_played_this_run as i64, ..zero },
        JokerId::Erosion => {
            let below: i64 = if 52 - (ctx.deck_size as i64) > 0 { 52 - ctx.deck_size as i64 } else { 0 };
            CoreJokerBonus { add_mult: below * 4, ..zero }
        },
        JokerId::SquareJoker => if ctx.deck_size == 52 { CoreJokerBonus { add_mult: played.len() as i64 * 4, ..zero } } else { zero },
        JokerId::BlueJoker => CoreJokerBonus { chip_bonus: ctx.deck_size as i64 * 2, ..zero },
        JokerId::Fibonacci => CoreJokerBonus { add_mult: count_cards(played, CardTest::Fibonacci) as i64 * 8, ..zero },
        JokerId::ScaryFace => CoreJokerBonus { chip_bonus: count_cards(played, CardTest::Face) as i64 * 30, ..zero },
        JokerId::EvenSteven => CoreJokerBonus { add_mult: count_cards(played, CardTest::Even) as i64 * 4, ..zero },
        JokerId::OddTodd => CoreJokerBonus { chip_bonus: count_cards(played, CardTest::Odd) as i64 * 31, ..zero },
        JokerId::Scholar => {
            let aces = count_cards(played, CardTest::Ace) as i64;
            CoreJokerBonus { chip_bonus: aces * 20, add_mult: aces * 4, ..zero }
        },
        JokerId::Smiley => CoreJokerBonus { add_mult: count_cards(played, CardTest::Face) as i64 * 5, ..zero },
        JokerId::BusinessCard => {
            let faces = count_cards(played, CardTest::Face);
            CoreJokerBonus { money_bonus: business_card_money(faces, rng_value), ..zero }
        },
        JokerId::Arrowhead => CoreJokerBonus { chip_bonus: count_cards(played, CardTest::Suit(0)) as i64 * 50, ..zero },
        JokerId::Onyx => CoreJokerBonus { add_mult: count_cards(played, CardTest::Suit(3)) as i64 * 80, ..zero },
        JokerId::RoughGem => CoreJokerBonus { money_bonus: count_cards(played, CardTest::Suit(1)) as i64, ..zero },
        JokerId::Ticket => CoreJokerBonus { money_bonus: count_cards(played, CardTest::Gold) as i64, ..zero },
        JokerId::Walkie => if count_cards(played, CardTest::TenOrFour) > 0 { CoreJokerBonus { add_mult: 10, ..zero } } else { zero },
        JokerId::FortuneTeller => CoreJokerBonus { add_mult: ctx.tarots_used_this_run as i64, ..zero },
        JokerId::SockAndBuskin => CoreJokerBonus { retriggers: count_cards(played, CardTest::Face) as i32, ..zero },
        JokerId::HangingChad => if played.len() > 0 { CoreJokerBonus { retriggers: 1, ..zero } } else { zero },
        JokerId::Hack => CoreJokerBonus { retriggers: count_cards(played, CardTest::Low) as i32, ..zero },
        JokerId::RedCard => CoreJokerBonus { add_mult: ctx.blinds_skipped as i64 * 3, ..zero },
        JokerId::Flash => CoreJokerBonus { add_mult: ctx.rerolls_this_run as i64 * 2, ..zero },
        JokerId::ShootTheMoon => {
            let queens = count_cards(held, CardTest::Rank(12)) as i64;
            let times: i64 = if ctx.has_mime { 2 } else { 1 };
            CoreJokerBonus { add_mult: queens * 13 * times, ..zero }
        },
        JokerId::Swashbuckler => CoreJokerBonus { add_mult: count_cards(held, CardTest::BelowEight) as i64 * 2, ..zero },
        JokerId::RaisedFist => if held.len() > 0 {
            CoreJokerBonus { add_mult: lowest_rank_of(held) as i64 * 2, ..zero }
        } else {
            zero
        },
        JokerId::Courier => CoreJokerBonus { chip_bonus: count_cards(held, CardTest::BelowAce) as i64 * 25, ..zero },
        JokerId::Trousers | JokerId::Spare_Trousers => if h == HandId::TwoPair { CoreJokerBonus { add_mult: 4, ..zero } } else { zero },
        JokerId::Square => if played.len() == 4 { CoreJokerBonus { chip_bonus: 4, ..zero } } else { zero },
        JokerId::Runner => if straight { CoreJokerBonus { chip_bonus: 15, ..zero } } else { zero },
        JokerId::Stuntman => CoreJokerBonus { chip_bonus: 250, ..zero },
        JokerId::Bootstraps => if ctx.money_held > 0 { CoreJokerBonus { add_mult: (ctx.money_held / 5) * 2, ..zero } } else { zero },
        JokerId::Stone => CoreJokerBonus { chip_bonus: ctx.stone_cards_in_deck as i64 * 25, ..zero },
        JokerId::Gros_Michel => CoreJokerBonus { add_mult: 15, ..zero },
        JokerId::Matador => if ctx.boss_ability_triggered { CoreJokerBonus { money_bonus: 8, ..zero } } else { zero },
        _ => zero,
    }
}

} // verus!
