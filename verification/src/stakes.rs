//! Stake difficulty levels and the penalties each one adds.

use vstd::prelude::*;

verus! {

/// Number of stakes.
pub const STAKE_COUNT: usize = 8;

/// Difficulty level; each stake keeps the penalties of those below it.
#[derive(Clone, Copy, Debug, PartialEq, Eq, Structural, Default)]
pub enum Stake {
    #[default]
    White,
    /// Small blind gives no reward.
    Red,
    /// Required scores +25%.
    Green,
    /// Shop jokers may be eternal.
    Black,
    /// One discard fewer.
    Blue,
    /// Hand size one smaller.
    Purple,
    /// Booster packs cost $1 more; shop jokers may be perishable.
    Orange,
    /// One hand fewer.
    Gold,
}

/// Position of a stake, 0 (White) to 7 (Gold).
pub open spec fn stake_index(s: Stake) -> int {
    match s {
        Stake::White => 0,
        Stake::Red => 1,
        Stake::Green => 2,
        Stake::Black => 3,
        Stake::Blue => 4,
        Stake::Purple => 5,
        Stake::Orange => 6,
        Stake::Gold => 7,
    }
}

/// Display name of a stake.
pub open spec fn stake_name(s: Stake) -> &'static str {
    match s {
        Stake::White => "White Stake",
        Stake::Red => "Red Stake",
        Stake::Green => "Green Stake",
        Stake::Black => "Black Stake",
        Stake::Blue => "Blue Stake",
        Stake::Purple => "Purple Stake",
        Stake::Orange => "Orange Stake",
        Stake::Gold => "Gold Stake",
    }
}

/// Change to discards per round.
pub open spec fn stake_discard_mod(s: Stake) -> int {
    match s {
        Stake::Blue | Stake::Purple | Stake::Orange | Stake::Gold => -1,
        _ => 0,
    }
}

/// Change to hands per round.
pub open spec fn stake_hand_mod(s: Stake) -> int {
    match s {
        Stake::Gold => -1,
        _ => 0,
    }
}

/// Change to hand size.
pub open spec fn stake_hand_size_mod(s: Stake) -> int {
    match s {
        Stake::Purple | Stake::Orange | Stake::Gold => -1,
        _ => 0,
    }
}

/// Whether the small blind pays its reward.
pub open spec fn stake_small_reward(s: Stake) -> bool {
    match s {
        Stake::White => true,
        _ => false,
    }
}

/// Change to booster pack prices.
pub open spec fn stake_booster_mod(s: Stake) -> int {
    match s {
        Stake::Orange | Stake::Gold => 1,
        _ => 0,
    }
}

/// Whether shop jokers may be eternal.
pub open spec fn stake_eternal(s: Stake) -> bool {
    match s {
        Stake::Black | Stake::Blue | Stake::Purple | Stake::Orange | Stake::Gold => true,
        _ => false,
    }
}

/// Whether shop jokers may be perishable.
pub open spec fn stake_perishable(s: Stake) -> bool {
    match s {
        Stake::Orange | Stake::Gold => true,
        _ => false,
    }
}

impl Stake {
    /// Every stake, in increasing difficulty.
    pub fn all() -> (r: &'static [Stake])
        ensures
            r@.len() == STAKE_COUNT,
            forall|i: int| 0 <= i < STAKE_COUNT ==> stake_index(#[trigger] r@[i]) == i,
    {
        let r: &'static [Stake] = &[
            Stake::White,
            Stake::Red,
            Stake::Green,
            Stake::Black,
            Stake::Blue,
            Stake::Purple,
            Stake::Orange,
            Stake::Gold,
        ];
        r
    }

    pub fn name(&self) -> (r: &'static str)
        ensures
            r == stake_name(*self),
    {
        match self {
            Stake::White => "White Stake",
            Stake::Red => "Red Stake",
            Stake::Green => "Green Stake",
            Stake::Black => "Black Stake",
            Stake::Blue => "Blue Stake",
            Stake::Purple => "Purple Stake",
            Stake::Orange => "Orange Stake",
            Stake::Gold => "Gold Stake",
        }
    }

    /// Change to discards per round: -1 from Blue up.
    pub fn discard_modifier(&self) -> (r: i32)
        ensures
            r == stake_discard_mod(*self),
    {
        match self {
            Stake::Blue | Stake::Purple | Stake::Orange | Stake::Gold => -1,
            _ => 0,
        }
    }

    /// Change to hands per round: -1 at Gold.
    pub fn hand_modifier(&self) -> (r: i32)
        ensures
            r == stake_hand_mod(*self),
    {
        match self {
            Stake::Gold => -1,
            _ => 0,
        }
    }

    /// Change to hand size: -1 from Purple up.
    pub fn hand_size_modifier(&self) -> (r: i32)
        ensures
            r == stake_hand_size_mod(*self),
    {
        match self {
            Stake::Purple | Stake::Orange | Stake::Gold => -1,
            _ => 0,
        }
    }

    /// Whether the small blind pays its reward: only at White.
    pub fn small_blind_gives_reward(&self) -> (r: bool)
        ensures
            r == stake_small_reward(*self),
    {
        matches!(self, Stake::White)
    }

    /// Change to booster pack prices: +$1 from Orange up.
    pub fn booster_cost_modifier(&self) -> (r: i64)
        ensures
            r == stake_booster_mod(*self),
    {
        match self {
            Stake::Orange | Stake::Gold => 1,
            _ => 0,
        }
    }

    /// Shop jokers may be eternal: from Black up.
    pub fn has_eternal_jokers(&self) -> (r: bool)
        ensures
            r == stake_eternal(*self),
    {
        matches!(self, Stake::Black | Stake::Blue | Stake::Purple | Stake::Orange | Stake::Gold)
    }

    /// Shop jokers may be perishable: from Orange up.
    pub fn has_perishable_jokers(&self) -> (r: bool)
        ensures
            r == stake_perishable(*self),
    {
        matches!(self, Stake::Orange | Stake::Gold)
    }

    pub fn to_index(&self) -> (r: usize)
        ensures
            r == stake_index(*self),
    {
        match self {
            Stake::White => 0,
            Stake::Red => 1,
            Stake::Green => 2,
            Stake::Black => 3,
            Stake::Blue => 4,
            Stake::Purple => 5,
            Stake::Orange => 6,
            Stake::Gold => 7,
        }
    }

    /// The stake at a position, if the position is below `STAKE_COUNT`.
    pub fn from_index(index: usize) -> (r: Option<Stake>)
        ensures
            index < STAKE_COUNT ==> r is Some && stake_index(r.unwrap()) == index,
            index >= STAKE_COUNT ==> r is None,
    {
        let all = Self::all();
        if index < all.len() {
            Some(all[index])
        } else {
            None
        }
    }
}

/// Stake positions identify stakes.
pub proof fn lemma_stake_index_injective(a: Stake, b: Stake)
    requires
        stake_index(a) == stake_index(b),
    ensures
        a == b,
{
}

/// Stakes only add penalties: a harder stake never gives more discards, hands, hand size
/// or small-blind reward, nor cheaper packs, and keeps eternal and perishable jokers.
pub proof fn lemma_stake_penalties_accumulate(easier: Stake, harder: Stake)
    requires
        stake_index(easier) <= stake_index(harder),
    ensures
        stake_discard_mod(harder) <= stake_discard_mod(easier),
        stake_hand_mod(harder) <= stake_hand_mod(easier),
        stake_hand_size_mod(harder) <= stake_hand_size_mod(easier),
        stake_small_reward(harder) ==> stake_small_reward(easier),
        stake_booster_mod(easier) <= stake_booster_mod(harder),
        stake_eternal(easier) ==> stake_eternal(harder),
        stake_perishable(easier) ==> stake_perishable(harder),
{
}

/// Each stake's penalty starts at its own stake and stays for every harder one: from Red
/// Stake the Small blind pays nothing, from Black shop jokers may be eternal, from Blue one
/// discard fewer, from Purple a hand size one smaller, from Orange packs cost $1 more and
/// jokers may be perishable, and at Gold one hand fewer.
pub proof fn lemma_stake_thresholds(s: Stake)
    ensures
        0 <= stake_index(s) < 8,
        stake_small_reward(s) == (stake_index(s) < stake_index(Stake::Red)),
        stake_eternal(s) == (stake_index(s) >= stake_index(Stake::Black)),
        stake_discard_mod(s) == (if stake_index(s) >= stake_index(Stake::Blue) { -1int } else { 0 }),
        stake_hand_size_mod(s) == (if stake_index(s) >= stake_index(Stake::Purple) { -1int } else { 0 }),
        stake_booster_mod(s) == (if stake_index(s) >= stake_index(Stake::Orange) { 1int } else { 0 }),
        stake_perishable(s) == (stake_index(s) >= stake_index(Stake::Orange)),
        stake_hand_mod(s) == (if stake_index(s) >= stake_index(Stake::Gold) { -1int } else { 0 }),
{
}

} // verus!
