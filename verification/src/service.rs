//! Helpers of the environment service: choosing played cards by bit mask, and the booster
//! packs offered in the shop.

use vstd::prelude::*;

use rand::rngs::StdRng;

use crate::cards::Card;
use crate::packs::PackType;
use crate::rng::choose_from;

verus! {

/// Whether bit `i` of `mask` is set.
pub open spec fn bit_set(mask: u32, i: u32) -> bool {
    (mask >> i) & 1u32 == 1u32
}

/// The cards among the first `n` of `hand` whose bit is set in `mask`, in hand order.
pub open spec fn masked_cards(hand: Seq<Card>, mask: u32, n: int) -> Seq<Card>
    decreases n,
{
    if n <= 0 {
        Seq::empty()
    } else if bit_set(mask, (n - 1) as u32) {
        masked_cards(hand, mask, n - 1).push(hand[n - 1])
    } else {
        masked_cards(hand, mask, n - 1)
    }
}

/// The cards of `hand` whose bit is set in `mask`, in hand order; an empty mask selects
/// nothing. A hand has at most 32 cards, one per bit.
pub fn build_selected_hand(hand: &[Card], mask: u32) -> (r: Vec<Card>)
    requires
        hand@.len() <= 32,
    ensures
        r@ == masked_cards(hand@, mask, hand@.len() as int),
{
    let mut selected: Vec<Card> = Vec::new();
    let mut idx: usize = 0;
    while idx < hand.len()
        invariant
            idx <= hand@.len() <= 32,
            selected@ == masked_cards(hand@, mask, idx as int),
        decreases hand.len() - idx,
    {
        let sh = idx as u32;
        if ((mask >> sh) & 1) == 1 {
            selected.push(hand[idx]);
        }
        idx = idx + 1;
    }
    selected
}

/// Booster pack kind offered in the shop.
#[derive(Clone, Copy, Debug, PartialEq, Eq, Structural)]
pub enum BoosterPackType {
    Arcana,
    Celestial,
    Spectral,
    Standard,
    Buffoon,
}

/// The pack kind whose contents a shop pack holds.
pub open spec fn booster_pack_kind(t: BoosterPackType) -> PackType {
    match t {
        BoosterPackType::Arcana => PackType::Arcana,
        BoosterPackType::Celestial => PackType::Celestial,
        BoosterPackType::Spectral => PackType::Spectral,
        BoosterPackType::Standard => PackType::Standard,
        BoosterPackType::Buffoon => PackType::Buffoon,
    }
}

/// Price of a shop pack: $6 for Buffoon, $4 otherwise.
pub open spec fn booster_cost(t: BoosterPackType) -> int {
    match t {
        BoosterPackType::Buffoon => 6,
        _ => 4,
    }
}

impl BoosterPackType {
    /// The pack kind used to generate the contents.
    pub fn to_pack_type(self) -> (r: PackType)
        ensures
            r == booster_pack_kind(self),
    {
        match self {
            BoosterPackType::Arcana => PackType::Arcana,
            BoosterPackType::Celestial => PackType::Celestial,
            BoosterPackType::Spectral => PackType::Spectral,
            BoosterPackType::Standard => PackType::Standard,
            BoosterPackType::Buffoon => PackType::Buffoon,
        }
    }
}

/// A booster pack for sale.
#[derive(Clone, Debug)]
pub struct BoosterPack {
    pub pack_type: BoosterPackType,
    pub cost: i64,
}

impl BoosterPack {
    /// The shop pack of a kind, at its price.
    fn of_kind(pack_type: BoosterPackType) -> (r: BoosterPack)
        ensures
            r.pack_type == pack_type,
            r.cost == booster_cost(pack_type),
    {
        let cost: i64 = match pack_type {
            BoosterPackType::Arcana => 4,
            BoosterPackType::Celestial => 4,
            BoosterPackType::Spectral => 4,
            BoosterPackType::Standard => 4,
            BoosterPackType::Buffoon => 6,
        };
        BoosterPack { pack_type, cost }
    }

    /// A random shop pack, each kind equally likely, at its price.
    pub fn random(rng: &mut StdRng) -> (r: BoosterPack)
        ensures
            r.cost == booster_cost(r.pack_type),
    {
        let types: [BoosterPackType; 5] = [
            BoosterPackType::Arcana,
            BoosterPackType::Celestial,
            BoosterPackType::Spectral,
            BoosterPackType::Standard,
            BoosterPackType::Buffoon,
        ];
        let pack_type = match choose_from(rng, types.as_slice()) {
            Some(t) => t,
            None => BoosterPackType::Arcana,
        };
        Self::of_kind(pack_type)
    }
}

} // verus!
