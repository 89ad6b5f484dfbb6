//! Building blocks of declarative joker definitions: card filters, conditions, events,
//! rarities, and the contexts and results that joker effects work with.

use vstd::prelude::*;

use crate::cards::Card;
use crate::hand_types::HandId;

verus! {

pub const SPADE: u8 = 0;
pub const DIAMOND: u8 = 1;
pub const HEART: u8 = 2;
pub const CLUB: u8 = 3;

/// Which cards an effect counts.
#[derive(Clone, Debug, PartialEq)]
pub enum CardFilter {
    /// One suit.
    Suit(u8),
    /// Ranks from `min` to `max`, both included.
    RankRange { min: u8, max: u8 },
    /// Any rank of a set.
    RankSet(&'static [u8]),
    /// Jack, Queen, King.
    FaceCard,
    /// 2, 4, 6, 8, 10.
    Even,
    /// Ace, 3, 5, 7, 9 (an Ace may be written 1 or 14).
    Odd,
    /// Every card.
    Any,
    /// 2 to 5.
    LowNumber,
}

/// Whether a card of the given suit and rank passes a filter.
pub open spec fn filter_matches(f: CardFilter, suit: u8, rank: u8) -> bool {
    match f {
        CardFilter::Suit(s) => suit == s,
        CardFilter::RankRange { min, max } => min <= rank <= max,
        CardFilter::RankSet(ranks) => ranks@.contains(rank),
        CardFilter::FaceCard => 11 <= rank <= 13,
        CardFilter::Even => rank == 2 || rank == 4 || rank == 6 || rank == 8 || rank == 10,
        CardFilter::Odd => rank == 1 || rank == 3 || rank == 5 || rank == 7 || rank == 9 || rank == 14,
        CardFilter::Any => true,
        CardFilter::LowNumber => 2 <= rank <= 5,
    }
}

impl CardFilter {
    /// Whether a card of the given suit and rank passes the filter.
    pub fn matches(&self, suit: u8, rank: u8) -> (r: bool)
        ensures
            r == filter_matches(*self, suit, rank),
    {
        match *self {
            CardFilter::Suit(s) => suit == s,
            CardFilter::RankRange { min, max } => rank >= min && rank <= max,
            CardFilter::RankSet(ranks) => {
                let mut i: usize = 0;
                while i < ranks.len()
                    invariant
                        i <= ranks@.len(),
                        *self == CardFilter::RankSet(ranks),
                        forall|k: int| 0 <= k < i ==> ranks@[k] != rank,
                    decreases ranks.len() - i,
                {
                    if ranks[i] == rank {
                        proof {
                            assert(ranks@[i as int] == rank);
                        }
                        return true;
                    }
                    i = i + 1;
                }
                false
            },
            CardFilter::FaceCard => rank >= 11 && rank <= 13,
            CardFilter::Even => matches!(rank, 2 | 4 | 6 | 8 | 10),
            CardFilter::Odd => matches!(rank, 1 | 3 | 5 | 7 | 9 | 14),
            CardFilter::Any => true,
            CardFilter::LowNumber => rank >= 2 && rank <= 5,
        }
    }
}

/// When an effect applies.
#[derive(Clone, Debug, PartialEq)]
pub enum Condition {
    /// Always.
    Always,
    /// When the hand is one of these types.
    HandTypeIn(&'static [HandId]),
    /// When the number of played cards is within bounds.
    PlayedCardCount { min: Option<usize>, max: Option<usize> },
    /// On the first or the final hand of a round.
    Timing { first_hand: bool, final_hand: bool },
    /// When a game statistic compares as given with a value.
    StateThreshold { field: StateField, op: CompareOp, value: i64 },
}

/// A game statistic that conditions may test.
#[derive(Clone, Copy, Debug, PartialEq, Eq, Structural)]
pub enum StateField {
    DiscardsRemaining,
    Money,
    JokerCount,
    DeckSize,
    HandsPlayedThisRound,
    HandsPlayedThisRun,
    EnhancedCardsInDeck,
}

/// Comparison used by a threshold condition.
#[derive(Clone, Copy, Debug, PartialEq, Eq, Structural)]
pub enum CompareOp {
    Eq,
    Gt,
    Lt,
    Gte,
    Lte,
}

/// Which cards a counting effect looks at.
#[derive(Clone, Debug, PartialEq, Default)]
pub enum CardScope {
    /// The played cards.
    #[default]
    PlayedCards,
    /// The cards held in hand.
    HandCards,
    /// The whole deck.
    DeckCards,
}

/// Events that joker triggers respond to.
#[derive(Clone, Copy, Debug, PartialEq, Eq, Structural, Hash)]
pub enum GameEvent {
    BlindSelected,
    BlindSkipped,
    HandPlayed,
    CardDiscarded,
    EnhancementAbsorbed,
    FaceCardDestroyed,
    GlassCardBroken,
    CardAddedToDeck,
    LuckyTriggered,
    TarotUsed,
    PlanetUsed,
    SpectralUsed,
    BlindCleared,
    BossBlindCleared,
    RoundEnded,
    JokerSold,
    CardSold,
    Rerolled,
    JokerPurchased,
    PackOpened,
}

/// Joker rarity.
#[derive(Clone, Copy, Debug, PartialEq, Eq, Structural, Hash)]
pub enum Rarity {
    Common,
    Uncommon,
    Rare,
    Legendary,
}

/// The rarity a number stands for: 1 to 4, anything else common.
pub open spec fn rarity_of_number(value: u8) -> Rarity {
    if value == 2 {
        Rarity::Uncommon
    } else if value == 3 {
        Rarity::Rare
    } else if value == 4 {
        Rarity::Legendary
    } else {
        Rarity::Common
    }
}

/// The number of a rarity, 1 to 4.
pub open spec fn rarity_number(r: Rarity) -> u8 {
    match r {
        Rarity::Common => 1,
        Rarity::Uncommon => 2,
        Rarity::Rare => 3,
        Rarity::Legendary => 4,
    }
}

impl From<u8> for Rarity {
    fn from(value: u8) -> (r: Self) {
        match value {
            1 => Rarity::Common,
            2 => Rarity::Uncommon,
            3 => Rarity::Rare,
            4 => Rarity::Legendary,
            _ => Rarity::Common,
        }
    }
}

impl vstd::std_specs::convert::FromSpecImpl<u8> for Rarity {
    open spec fn obeys_from_spec() -> bool {
        true
    }

    open spec fn from_spec(value: u8) -> Rarity {
        rarity_of_number(value)
    }
}

impl From<Rarity> for u8 {
    fn from(value: Rarity) -> (r: Self) {
        match value {
            Rarity::Common => 1,
            Rarity::Uncommon => 2,
            Rarity::Rare => 3,
            Rarity::Legendary => 4,
        }
    }
}

impl vstd::std_specs::convert::FromSpecImpl<Rarity> for u8 {
    open spec fn obeys_from_spec() -> bool {
        true
    }

    open spec fn from_spec(value: Rarity) -> u8 {
        rarity_number(value)
    }
}

/// A rarity turned into its number and back is the same rarity.
pub proof fn lemma_rarity_number_roundtrip(r: Rarity)
    ensures
        rarity_of_number(rarity_number(r)) == r,
        1 <= rarity_number(r) <= 4,
{
}

/// What an effect computation needs to know of the hand being scored.
#[derive(Clone, Debug)]
pub struct ComputeContext<'a> {
    /// The played cards.
    pub played_cards: &'a [Card],
    /// The cards held in hand.
    pub hand: &'a [Card],
    /// The hand type.
    pub hand_id: HandId,
    /// Whether this is the first hand of the round.
    pub is_first_hand: bool,
    /// Whether this is the final hand of the round.
    pub is_final_hand: bool,
}

impl<'a> ComputeContext<'a> {
    /// A context for neither the first nor the final hand.
    pub fn new(played_cards: &'a [Card], hand: &'a [Card], hand_id: HandId) -> (r: Self)
        ensures
            r.played_cards@ == played_cards@,
            r.hand@ == hand@,
            r.hand_id == hand_id,
            !r.is_first_hand,
            !r.is_final_hand,
    {
        ComputeContext { played_cards, hand, hand_id, is_first_hand: false, is_final_hand: false }
    }
}

/// A context with the game statistics that stateful effects read.
#[derive(Clone, Debug)]
pub struct ComputeContextV2<'a> {
    pub played_cards: &'a [Card],
    pub hand: &'a [Card],
    pub hand_id: HandId,
    pub is_first_hand: bool,
    pub is_final_hand: bool,
    /// Money held.
    pub money_held: i64,
    /// Jokers held.
    pub joker_count: usize,
    /// Joker slots.
    pub joker_slot_limit: usize,
    /// Discards left.
    pub discards_remaining: i32,
    /// Hands played this round.
    pub hands_played_this_round: i32,
    /// Hands played this run.
    pub hands_played_this_run: i32,
    /// Cards in the deck.
    pub deck_size: i32,
    /// Enhanced cards in the deck.
    pub enhanced_cards_in_deck: i32,
    /// Uncommon jokers held.
    pub uncommon_joker_count: usize,
}

impl<'a> ComputeContextV2<'a> {
    /// The basic context with default statistics: no money or jokers, five slots, a full
    /// 52-card deck, nothing played or discarded.
    pub fn from_basic(ctx: &ComputeContext<'a>) -> (r: Self)
        ensures
            r.played_cards@ == ctx.played_cards@,
            r.hand@ == ctx.hand@,
            r.hand_id == ctx.hand_id,
            r.is_first_hand == ctx.is_first_hand,
            r.is_final_hand == ctx.is_final_hand,
            r.money_held == 0,
            r.joker_count == 0,
            r.joker_slot_limit == 5,
            r.discards_remaining == 0,
            r.hands_played_this_round == 0,
            r.hands_played_this_run == 0,
            r.deck_size == 52,
            r.enhanced_cards_in_deck == 0,
            r.uncommon_joker_count == 0,
    {
        ComputeContextV2 {
            played_cards: ctx.played_cards,
            hand: ctx.hand,
            hand_id: ctx.hand_id,
            is_first_hand: ctx.is_first_hand,
            is_final_hand: ctx.is_final_hand,
            money_held: 0,
            joker_count: 0,
            joker_slot_limit: 5,
            discards_remaining: 0,
            hands_played_this_round: 0,
            hands_played_this_run: 0,
            deck_size: 52,
            enhanced_cards_in_deck: 0,
            uncommon_joker_count: 0,
        }
    }

    /// The basic part of the context.
    pub fn to_basic(&self) -> (r: ComputeContext<'a>)
        ensures
            r.played_cards@ == self.played_cards@,
            r.hand@ == self.hand@,
            r.hand_id == self.hand_id,
            r.is_first_hand == self.is_first_hand,
            r.is_final_hand == self.is_final_hand,
    {
        ComputeContext {
            played_cards: self.played_cards,
            hand: self.hand,
            hand_id: self.hand_id,
            is_first_hand: self.is_first_hand,
            is_final_hand: self.is_final_hand,
        }
    }
}

/// What firing joker triggers asks the game to do.
#[derive(Clone, Debug, Default)]
pub struct TriggerResult {
    /// Money gained or lost.
    pub money_delta: i64,
    /// Slots of jokers to destroy.
    pub jokers_to_destroy: Vec<usize>,
    /// Whether the boss blind is disabled.
    pub disable_boss_blind: bool,
    /// Whether a negative copy of a consumable is created.
    pub create_negative_copy: bool,
}

impl TriggerResult {
    /// Nothing to do.
    pub fn new() -> (r: TriggerResult)
        ensures
            r.money_delta == 0,
            r.jokers_to_destroy@.len() == 0,
            !r.disable_boss_blind,
            !r.create_negative_copy,
    {
        TriggerResult {
            money_delta: 0,
            jokers_to_destroy: Vec::new(),
            disable_boss_blind: false,
            create_negative_copy: false,
        }
    }

    /// Adds another result: money adds up, destroy lists join, flags combine by "or".
    pub fn merge(&mut self, other: &TriggerResult)
        requires
            i64::MIN <= old(self).money_delta + other.money_delta <= i64::MAX,
        ensures
            final(self).money_delta == old(self).money_delta + other.money_delta,
            final(self).jokers_to_destroy@ == old(self).jokers_to_destroy@ + other.jokers_to_destroy@,
            final(self).disable_boss_blind == (old(self).disable_boss_blind || other.disable_boss_blind),
            final(self).create_negative_copy == (old(self).create_negative_copy
                || other.create_negative_copy),
    {
        self.money_delta = self.money_delta + other.money_delta;
        let mut i: usize = 0;
        let ghost start = self.jokers_to_destroy@;
        while i < other.jokers_to_destroy.len()
            invariant
                i <= other.jokers_to_destroy@.len(),
                self.jokers_to_destroy@ == start + other.jokers_to_destroy@.take(i as int),
                self.money_delta == old(self).money_delta + other.money_delta,
                self.disable_boss_blind == old(self).disable_boss_blind,
                self.create_negative_copy == old(self).create_negative_copy,
            decreases other.jokers_to_destroy.len() - i,
        {
            self.jokers_to_destroy.push(other.jokers_to_destroy[i]);
            i = i + 1;
            proof {
                assert(self.jokers_to_destroy@ =~= start + other.jokers_to_destroy@.take(i as int));
            }
        }
        proof {
            assert(other.jokers_to_destroy@.take(i as int) =~= other.jokers_to_destroy@);
        }
        self.disable_boss_blind = self.disable_boss_blind || other.disable_boss_blind;
        self.create_negative_copy = self.create_negative_copy || other.create_negative_copy;
    }
}

} // verus!
