//! Poker hand types and their base chips and mult.

use vstd::prelude::*;

verus! {

/// Poker hand type.
#[derive(Clone, Copy, Debug, PartialEq, Eq, Structural)]
pub enum HandId {
    HighCard,
    Pair,
    TwoPair,
    ThreeKind,
    Straight,
    Flush,
    FullHouse,
    FourKind,
    StraightFlush,
    RoyalFlush,
    FiveKind,
    FlushHouse,
    FlushFive,
}

/// Base (chips, mult) of a hand type.
pub open spec fn hand_base_values(h: HandId) -> (int, int) {
    match h {
        HandId::HighCard => (5, 1),
        HandId::Pair => (10, 2),
        HandId::TwoPair => (20, 2),
        HandId::ThreeKind => (30, 3),
        HandId::Straight => (30, 4),
        HandId::Flush => (35, 4),
        HandId::FullHouse => (40, 4),
        HandId::FourKind => (60, 7),
        HandId::StraightFlush => (100, 8),
        HandId::RoyalFlush => (100, 8),
        HandId::FiveKind => (120, 12),
        HandId::FlushHouse => (140, 14),
        HandId::FlushFive => (160, 16),
    }
}

/// Observation index of a hand type (declaration order).
pub open spec fn hand_index(h: HandId) -> int {
    match h {
        HandId::HighCard => 0,
        HandId::Pair => 1,
        HandId::TwoPair => 2,
        HandId::ThreeKind => 3,
        HandId::Straight => 4,
        HandId::Flush => 5,
        HandId::FullHouse => 6,
        HandId::FourKind => 7,
        HandId::StraightFlush => 8,
        HandId::RoyalFlush => 9,
        HandId::FiveKind => 10,
        HandId::FlushHouse => 11,
        HandId::FlushFive => 12,
    }
}

/// Balatro's base chips of the hand types in declaration order (High Card to Flush Five).
pub open spec fn base_chips_table() -> Seq<int> {
    seq![5, 10, 20, 30, 30, 35, 40, 60, 100, 100, 120, 140, 160]
}

/// Balatro's base mult of the hand types in declaration order (High Card to Flush Five).
pub open spec fn base_mult_table() -> Seq<int> {
    seq![1, 2, 2, 3, 4, 4, 4, 7, 8, 8, 12, 14, 16]
}

/// Each hand type's base chips and mult are the table's entries at its index, the indices
/// are 0 to 12 and distinct, and a later hand type never has fewer base chips or less mult.
pub proof fn lemma_hand_base_values(a: HandId, b: HandId)
    ensures
        0 <= hand_index(a) < 13,
        hand_base_values(a).0 == base_chips_table()[hand_index(a)],
        hand_base_values(a).1 == base_mult_table()[hand_index(a)],
        hand_index(a) == hand_index(b) ==> a == b,
        hand_index(a) <= hand_index(b) ==> hand_base_values(a).0 <= hand_base_values(b).0
            && hand_base_values(a).1 <= hand_base_values(b).1,
{
}

impl HandId {
    pub fn base_values(&self) -> (r: (i64, i64))
        ensures
            r.0 == hand_base_values(*self).0,
            r.1 == hand_base_values(*self).1,
    {
        match self {
            HandId::HighCard => (5, 1),
            HandId::Pair => (10, 2),
            HandId::TwoPair => (20, 2),
            HandId::ThreeKind => (30, 3),
            HandId::Straight => (30, 4),
            HandId::Flush => (35, 4),
            HandId::FullHouse => (40, 4),
            HandId::FourKind => (60, 7),
            HandId::StraightFlush => (100, 8),
            HandId::RoyalFlush => (100, 8),
            HandId::FiveKind => (120, 12),
            HandId::FlushHouse => (140, 14),
            HandId::FlushFive => (160, 16),
        }
    }

    pub fn to_index(&self) -> (r: usize)
        ensures
            r == hand_index(*self),
    {
        match self {
            HandId::HighCard => 0,
            HandId::Pair => 1,
            HandId::TwoPair => 2,
            HandId::ThreeKind => 3,
            HandId::Straight => 4,
            HandId::Flush => 5,
            HandId::FullHouse => 6,
            HandId::FourKind => 7,
            HandId::StraightFlush => 8,
            HandId::RoyalFlush => 9,
            HandId::FiveKind => 10,
            HandId::FlushHouse => 11,
            HandId::FlushFive => 12,
        }
    }
}

/// A hand type with its base chips and mult.
#[derive(Clone, Copy, Debug)]
pub struct HandScore {
    pub base_chips: i64,
    pub base_mult: i64,
    pub id: HandId,
}

/// The score record of a hand type at base values.
pub open spec fn hand_score_of(h: HandId) -> HandScore {
    HandScore { base_chips: hand_base_values(h).0 as i64, base_mult: hand_base_values(h).1 as i64, id: h }
}

impl HandScore {
    pub fn new(id: HandId) -> (r: HandScore)
        ensures
            r == hand_score_of(id),
    {
        let (base_chips, base_mult) = id.base_values();
        HandScore { base_chips, base_mult, id }
    }

    /// Chips times mult, before jokers.
    pub fn raw_score(&self) -> (r: i64)
        requires
            i64::MIN <= self.base_chips * self.base_mult <= i64::MAX,
        ensures
            r == self.base_chips * self.base_mult,
    {
        self.base_chips * self.base_mult
    }
}

/// Hand indices identify hand types.
pub proof fn lemma_hand_index_injective(a: HandId, b: HandId)
    requires
        hand_index(a) == hand_index(b),
    ensures
        a == b,
{
}

} // verus!
