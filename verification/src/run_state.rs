//! The cards, money and consumables of a run, and what the game does to them: tarot,
//! spectral and planet cards, tags cashed in at the shop, discards and deals, boss blinds that
//! move cards, money from jokers, skipping blinds and moving on between antes. Changes to the
//! joker row are handed back (`JokerChange`, a list of jokers to add) for the owner of the
//! jokers to carry out.

use vstd::prelude::*;

use rand::rngs::StdRng;

use crate::cards::{card_index_of, is_face_rank, plain_card, standard_deck, Card, Edition, Enhancement, Seal};
use crate::consumables::{
    consumable_global_index, planet_hand_type, Consumable, ConsumableSlots, ConsumableType, HandLevels,
    PlanetId, SpectralId, TarotId, CONSUMABLE_SLOTS, HAND_LEVEL_SLOTS,
};
use crate::joker::{
    available_jokers_upto, jokers_of_rarity, lemma_rarity_pool_members, lemma_rarity_pools_nonempty, offered_with_rarity, JokerId,
    JOKER_COUNT,
};
use crate::rng::{choose_from, gen_below, shuffle_vec};
use crate::service::{bit_set, masked_cards};
use crate::blinds::{ante_number, boss_index, Ante, BlindType, BossBlind, Stage};
use crate::constants::{HAND_SIZE, STARTING_MONEY};
use crate::decks::{abandoned_cards, checkered_cards, deck_money_mod, DeckConfig, DeckType};
use crate::tags::{tag_index, tag_money, Tag, TagId, TAG_COUNT};
use crate::stakes::{stake_hand_size_mod, Stake};

verus! {

// ---------------------------------------------------------------------------
// Selected cards
// ---------------------------------------------------------------------------

/// Positions below `n` whose bit is set in `mask`, in increasing order.
pub open spec fn selected_positions(mask: u32, n: int) -> Seq<usize>
    decreases n,
{
    if n <= 0 {
        Seq::empty()
    } else if bit_set(mask, (n - 1) as u32) {
        selected_positions(mask, n - 1).push((n - 1) as usize)
    } else {
        selected_positions(mask, n - 1)
    }
}

/// Positions in strictly increasing order, each below `n`.
pub open spec fn increasing_below(s: Seq<usize>, n: int) -> bool {
    &&& forall|i: int| 0 <= i < s.len() ==> #[trigger] s[i] < n
    &&& forall|i: int, j: int| 0 <= i < j < s.len() ==> s[i] < s[j]
}

/// The selected positions are increasing and point into the hand.
pub proof fn lemma_selected_positions_increasing(mask: u32, n: int)
    requires
        0 <= n <= usize::MAX,
    ensures
        increasing_below(selected_positions(mask, n), n),
    decreases n,
{
    if n > 0 {
        lemma_selected_positions_increasing(mask, n - 1);
        let prev = selected_positions(mask, n - 1);
        if bit_set(mask, (n - 1) as u32) {
            let cur = prev.push((n - 1) as usize);
            assert forall|i: int, j: int| 0 <= i < j < cur.len() implies cur[i] < cur[j] by {
                if j == prev.len() {
                    assert(prev[i] < n - 1);
                    assert(cur[i] == prev[i]);
                    assert(cur[j] == n - 1);
                } else {
                    assert(cur[i] == prev[i] && cur[j] == prev[j]);
                }
            }
            assert forall|i: int| 0 <= i < cur.len() implies #[trigger] cur[i] < n by {
                if i < prev.len() {
                    assert(cur[i] == prev[i]);
                }
            }
        }
    }
}

/// The first `k` entries of `s`, or all of them when there are fewer.
pub open spec fn first_of(s: Seq<usize>, k: int) -> Seq<usize> {
    if s.len() <= k {
        s
    } else {
        s.take(k)
    }
}

/// Positions of the hand cards whose bit is set in the selection mask, in hand order.
pub fn selected_indices(hand_len: usize, mask: u32) -> (r: Vec<usize>)
    requires
        hand_len <= 32,
    ensures
        r@ == selected_positions(mask, hand_len as int),
{
    let mut r: Vec<usize> = Vec::new();
    let mut i: usize = 0;
    while i < hand_len
        invariant
            i <= hand_len <= 32,
            r@ == selected_positions(mask, i as int),
        decreases hand_len - i,
    {
        let sh = i as u32;
        if ((mask >> sh) & 1) == 1 {
            r.push(i);
        }
        i = i + 1;
    }
    r
}

// ---------------------------------------------------------------------------
// Card edits
// ---------------------------------------------------------------------------

/// A change made to single cards.
#[derive(Clone, Copy, Debug, PartialEq, Eq, Structural)]
pub enum CardEdit {
    Enhance(Enhancement),
    Suit(u8),
    Seal(Seal),
    Edition(Edition),
    /// One rank up, Kings stay Kings.
    RaiseRank,
    /// A given rank.
    Rank(u8),
}

/// A card after an edit.
pub open spec fn edited(c: Card, e: CardEdit) -> Card {
    match e {
        CardEdit::Enhance(x) => Card {
            rank: c.rank,
            suit: c.suit,
            enhancement: x,
            seal: c.seal,
            edition: c.edition,
            face_down: c.face_down,
            bonus_chips: c.bonus_chips,
        },
        CardEdit::Suit(s) => Card {
            rank: c.rank,
            suit: s,
            enhancement: c.enhancement,
            seal: c.seal,
            edition: c.edition,
            face_down: c.face_down,
            bonus_chips: c.bonus_chips,
        },
        CardEdit::Seal(s) => Card {
            rank: c.rank,
            suit: c.suit,
            enhancement: c.enhancement,
            seal: s,
            edition: c.edition,
            face_down: c.face_down,
            bonus_chips: c.bonus_chips,
        },
        CardEdit::Edition(x) => Card {
            rank: c.rank,
            suit: c.suit,
            enhancement: c.enhancement,
            seal: c.seal,
            edition: x,
            face_down: c.face_down,
            bonus_chips: c.bonus_chips,
        },
        CardEdit::Rank(x) => Card {
            rank: x,
            suit: c.suit,
            enhancement: c.enhancement,
            seal: c.seal,
            edition: c.edition,
            face_down: c.face_down,
            bonus_chips: c.bonus_chips,
        },
        CardEdit::RaiseRank => if c.rank < 13 {
            Card {
                rank: (c.rank + 1) as u8,
                suit: c.suit,
                enhancement: c.enhancement,
                seal: c.seal,
                edition: c.edition,
                face_down: c.face_down,
                bonus_chips: c.bonus_chips,
            }
        } else {
            c
        },
    }
}

/// `hand` with `e` made to the cards at `positions`.
pub open spec fn edit_at(hand: Seq<Card>, positions: Seq<usize>, e: CardEdit) -> Seq<Card> {
    Seq::new(
        hand.len(),
        |i: int|
            if positions.contains(i as usize) {
                edited(hand[i], e)
            } else {
                hand[i]
            },
    )
}

/// `hand` without the cards at `gone`, the others in order.
pub open spec fn without_positions(hand: Seq<Card>, gone: Seq<usize>) -> Seq<Card>
    decreases hand.len(),
{
    if hand.len() == 0 {
        Seq::empty()
    } else if gone.contains((hand.len() - 1) as usize) {
        without_positions(hand.drop_last(), gone)
    } else {
        without_positions(hand.drop_last(), gone).push(hand.last())
    }
}

/// Every card of `hand` with `e` made to it.
pub open spec fn edit_all(hand: Seq<Card>, e: CardEdit) -> Seq<Card> {
    Seq::new(hand.len(), |i: int| edited(hand[i], e))
}

fn edit_card(c: Card, e: CardEdit) -> (r: Card)
    ensures
        r == edited(c, e),
{
    let mut r = c;
    match e {
        CardEdit::Enhance(x) => {
            r.enhancement = x;
        },
        CardEdit::Suit(s) => {
            r.suit = s;
        },
        CardEdit::Seal(s) => {
            r.seal = s;
        },
        CardEdit::Edition(x) => {
            r.edition = x;
        },
        CardEdit::Rank(x) => {
            r.rank = x;
        },
        CardEdit::RaiseRank => {
            if r.rank < 13 {
                r.rank = r.rank + 1;
            }
        },
    }
    r
}

/// Makes `e` to the cards at the first `count` of `positions`.
fn edit_selected(hand: &mut Vec<Card>, positions: &[usize], count: usize, e: CardEdit)
    requires
        increasing_below(positions@, old(hand)@.len() as int),
    ensures
        final(hand)@ == edit_at(old(hand)@, first_of(positions@, count as int), e),
{
    let m: usize = if positions.len() <= count {
        positions.len()
    } else {
        count
    };
    let ghost start = hand@;
    let hl = hand.len();
    let mut j: usize = 0;
    while j < m
        invariant
            start.len() == hl,
            j <= m <= positions@.len(),
            m == first_of(positions@, count as int).len(),
            increasing_below(positions@, start.len() as int),
            hand@ == edit_at(start, positions@.take(j as int), e),
        decreases m - j,
    {
        let idx = positions[j];
        let c = hand[idx];
        hand.set(idx, edit_card(c, e));
        proof {
            let before = positions@.take(j as int);
            let after = positions@.take(j as int + 1);
            assert(after =~= before.push(idx));
            assert(!before.contains(idx)) by {
                if before.contains(idx) {
                    let k = choose|k: int| 0 <= k < before.len() && before[k] == idx;
                    assert(positions@[k] < positions@[j as int]);
                }
            }
            assert forall|i: int| 0 <= i < start.len() implies (#[trigger] after.contains(i as usize) <==> (
            before.contains(i as usize) || i == idx)) by {
                if after.contains(i as usize) && i != idx {
                    let k = choose|k: int| 0 <= k < after.len() && after[k] == i as usize;
                    assert(after[before.len() as int] == idx);
                    assert(k < before.len());
                    assert(before[k] == i as usize);
                }
                if before.contains(i as usize) {
                    let k = choose|k: int| 0 <= k < before.len() && before[k] == i as usize;
                    assert(after[k] == i as usize);
                }
                if i == idx {
                    assert(after[j as int] == idx);
                }
            }
            assert(hand@ =~= edit_at(start, after, e));
        }
        j = j + 1;
    }
    proof {
        assert(positions@.take(m as int) =~= first_of(positions@, count as int));
    }
}

/// Makes `e` to every card of `hand`.
fn edit_every(hand: &mut Vec<Card>, e: CardEdit)
    ensures
        final(hand)@ == edit_all(old(hand)@, e),
{
    let ghost start = hand@;
    let mut i: usize = 0;
    while i < hand.len()
        invariant
            i <= hand@.len() == start.len(),
            forall|k: int| 0 <= k < i ==> #[trigger] hand@[k] == edited(start[k], e),
            forall|k: int| i <= k < start.len() ==> #[trigger] hand@[k] == start[k],
        decreases hand@.len() - i,
    {
        let c = hand[i];
        hand.set(i, edit_card(c, e));
        i = i + 1;
    }
    proof {
        assert(hand@ =~= edit_all(start, e));
    }
}

/// Whether `i` is among the first `k` of `ps`.
fn listed(ps: &[usize], k: usize, i: usize) -> (r: bool)
    requires
        k <= ps@.len(),
    ensures
        r == ps@.take(k as int).contains(i),
{
    let mut j: usize = 0;
    while j < k
        invariant
            j <= k <= ps@.len(),
            forall|t: int| 0 <= t < j ==> ps@[t] != i,
        decreases k - j,
    {
        if ps[j] == i {
            proof {
                assert(ps@.take(k as int)[j as int] == i);
            }
            return true;
        }
        j = j + 1;
    }
    proof {
        if ps@.take(k as int).contains(i) {
            let t = choose|t: int| 0 <= t < k && ps@.take(k as int)[t] == i;
            assert(ps@[t] == i);
        }
    }
    false
}

/// Takes the cards at the first `count` of `positions` out of `hand`, keeping the order of
/// the others.
fn remove_selected(hand: &mut Vec<Card>, positions: &[usize], count: usize)
    ensures
        final(hand)@ == without_positions(old(hand)@, first_of(positions@, count as int)),
{
    let m: usize = if positions.len() <= count {
        positions.len()
    } else {
        count
    };
    proof {
        assert(positions@.take(m as int) =~= first_of(positions@, count as int));
    }
    let ghost gone = first_of(positions@, count as int);
    let mut kept: Vec<Card> = Vec::new();
    let mut i: usize = 0;
    while i < hand.len()
        invariant
            i <= hand@.len(),
            m <= positions@.len(),
            positions@.take(m as int) == gone,
            kept@ == without_positions(hand@.take(i as int), gone),
        decreases hand@.len() - i,
    {
        let out = listed(positions, m, i);
        proof {
            let t = hand@.take(i as int + 1);
            assert(t.drop_last() =~= hand@.take(i as int));
            assert(t.last() == hand@[i as int]);
        }
        if !out {
            kept.push(hand[i]);
        }
        i = i + 1;
    }
    proof {
        assert(hand@.take(hand@.len() as int) =~= hand@);
    }
    *hand = kept;
}

// ---------------------------------------------------------------------------
// The run and the joker row
// ---------------------------------------------------------------------------

/// The parts of a run that tarot and spectral cards change.
#[derive(Clone, Debug)]
pub struct RunCards {
    pub hand: Vec<Card>,
    pub deck: Vec<Card>,
    /// Cards played or discarded this round.
    pub discarded: Vec<Card>,
    /// Bit `i` set: the card at position `i` of the hand is selected.
    pub selected_mask: u32,
    pub money: i64,
    pub consumables: ConsumableSlots,
    pub hand_levels: HandLevels,
    /// Permanent change to the hand size (Ouija, Ectoplasm).
    pub hand_size_modifier: i32,
    /// The last tarot or spectral card used (what The Fool brings back).
    pub last_used_consumable: Option<Consumable>,
}

/// What the effects read of a joker in the row.
#[derive(Clone, Copy, Debug, PartialEq, Eq, Structural)]
pub struct JokerFacts {
    pub id: JokerId,
    pub enabled: bool,
    pub is_negative: bool,
    pub sell_value: i64,
    /// Hand size change carried by Turtle Bean.
    pub turtle_hand_mod: i32,
    /// Extra money carried by Rocket; rounds held by Invisible Joker; the target hand type
    /// of To Do List; what Ceremonial Dagger has gathered.
    pub counter: i32,
    /// Cannot be sold.
    pub is_eternal: bool,
    /// Leaves the row when its rounds run out.
    pub is_perishable: bool,
    /// Rounds left to a perishable joker.
    pub perishable_rounds: i32,
    /// Costs $3 at the end of each round.
    pub is_rental: bool,
    pub edition: Edition,
}

/// A change to the joker row asked for by an effect; positions refer to the row as it was.
#[derive(Clone, Copy, Debug, PartialEq, Eq, Structural)]
pub enum JokerChange {
    Unchanged,
    /// A new joker joins the row.
    Add(JokerId),
    /// The joker at a position gets an edition.
    SetEdition(usize, Edition),
    /// The joker at a position becomes negative.
    MakeNegative(usize),
    /// Only the joker at a position stays, twice over (Ankh).
    KeepTwice(usize),
    /// Only the joker at a position stays, made polychrome (Hex).
    KeepPolychrome(usize),
}

/// Joker slots: the base, the voucher bonus, and one more per negative joker.
pub open spec fn joker_slots_of(base: int, voucher_bonus: int, jokers: Seq<JokerFacts>) -> int {
    base + voucher_bonus + negative_count(jokers)
}

/// Negative jokers in the row.
pub open spec fn negative_count(jokers: Seq<JokerFacts>) -> int
    decreases jokers.len(),
{
    if jokers.len() == 0 {
        0
    } else {
        negative_count(jokers.drop_last()) + if jokers.last().is_negative { 1int } else { 0int }
    }
}

/// Sell value of the enabled jokers together.
pub open spec fn enabled_sell_total(jokers: Seq<JokerFacts>) -> int
    decreases jokers.len(),
{
    if jokers.len() == 0 {
        0
    } else {
        enabled_sell_total(jokers.drop_last()) + if jokers.last().enabled {
            jokers.last().sell_value as int
        } else {
            0int
        }
    }
}

/// Joker slots available: the base, the voucher bonus, and one more per negative joker.
pub fn effective_joker_slot_limit(base: usize, voucher_bonus: i32, jokers: &[JokerFacts]) -> (r: usize)
    requires
        voucher_bonus >= 0,
        base + voucher_bonus + jokers@.len() <= usize::MAX,
    ensures
        r == joker_slots_of(base as int, voucher_bonus as int, jokers@),
{
    let mut negatives: usize = 0;
    let mut i: usize = 0;
    while i < jokers.len()
        invariant
            i <= jokers@.len(),
            negatives == negative_count(jokers@.take(i as int)),
            negatives <= i,
        decreases jokers@.len() - i,
    {
        proof {
            assert(jokers@.take(i as int + 1).drop_last() =~= jokers@.take(i as int));
        }
        if jokers[i].is_negative {
            negatives = negatives + 1;
        }
        i = i + 1;
    }
    proof {
        assert(jokers@.take(jokers@.len() as int) =~= jokers@);
    }
    base + voucher_bonus as usize + negatives
}

/// Sum of the enabled jokers' sell values.
fn sell_total(jokers: &[JokerFacts]) -> (r: i64)
    requires
        forall|k: int|
            0 <= k <= jokers@.len() ==> i64::MIN <= #[trigger] enabled_sell_total(jokers@.take(k))
                <= i64::MAX,
    ensures
        r == enabled_sell_total(jokers@),
{
    let mut total: i64 = 0;
    let mut i: usize = 0;
    while i < jokers.len()
        invariant
            i <= jokers@.len(),
            total == enabled_sell_total(jokers@.take(i as int)),
            forall|k: int|
                0 <= k <= jokers@.len() ==> i64::MIN <= #[trigger] enabled_sell_total(jokers@.take(k))
                    <= i64::MAX,
        decreases jokers@.len() - i,
    {
        proof {
            assert(jokers@.take(i as int + 1).drop_last() =~= jokers@.take(i as int));
            assert(i64::MIN <= enabled_sell_total(jokers@.take(i as int + 1)) <= i64::MAX);
        }
        if jokers[i].enabled {
            total = total + jokers[i].sell_value;
        }
        i = i + 1;
    }
    proof {
        assert(jokers@.take(jokers@.len() as int) =~= jokers@);
    }
    total
}

/// A joker that an effect may pick: enabled, and not negative when `skip_negative`.
pub open spec fn joker_eligible(j: JokerFacts, skip_negative: bool) -> bool {
    j.enabled && !(skip_negative && j.is_negative)
}

/// A random position of an eligible joker, none when no joker is eligible.
fn random_eligible_joker(rng: &mut StdRng, jokers: &[JokerFacts], skip_negative: bool) -> (r: Option<usize>)
    ensures
        r is None <==> (forall|i: int| 0 <= i < jokers@.len() ==> !joker_eligible(#[trigger] jokers@[i], skip_negative)),
        r matches Some(i) ==> i < jokers@.len() && joker_eligible(jokers@[i as int], skip_negative),
{
    let mut eligible: Vec<usize> = Vec::new();
    let mut i: usize = 0;
    while i < jokers.len()
        invariant
            i <= jokers@.len(),
            forall|k: int| 0 <= k < eligible@.len() ==> #[trigger] eligible@[k] < jokers@.len()
                && joker_eligible(jokers@[eligible@[k] as int], skip_negative),
            forall|t: int| 0 <= t < i && joker_eligible(#[trigger] jokers@[t], skip_negative) ==> eligible@.contains(t as usize),
        decreases jokers@.len() - i,
    {
        let ghost before = eligible@;
        if jokers[i].enabled && !(skip_negative && jokers[i].is_negative) {
            eligible.push(i);
        }
        proof {
            assert forall|t: int| 0 <= t < i + 1 && joker_eligible(#[trigger] jokers@[t], skip_negative) implies eligible@.contains(t as usize) by {
                if t == i {
                    assert(eligible@[eligible@.len() - 1] == i);
                } else {
                    assert(before.contains(t as usize));
                    let k = choose|k: int| 0 <= k < before.len() && before[k] == t as usize;
                    assert(eligible@[k] == t as usize);
                }
            }
        }
        i = i + 1;
    }
    let r = choose_from(rng, eligible.as_slice());
    proof {
        if r is None {
            assert forall|t: int| 0 <= t < jokers@.len() implies !joker_eligible(#[trigger] jokers@[t], skip_negative) by {
                if joker_eligible(jokers@[t], skip_negative) {
                    assert(eligible@.contains(t as usize));
                }
            }
        }
        if let Some(x) = r {
            let k = choose|k: int| 0 <= k < eligible@.len() && eligible@[k] == x;
            assert(eligible@[k] == x);
        }
    }
    r
}

// ---------------------------------------------------------------------------
// Random draws of new jokers and consumables
// ---------------------------------------------------------------------------

/// A random joker of a rarity that can be offered (common, rare or legendary).
fn random_joker_of_rarity(rng: &mut StdRng, rarity: u8) -> (r: JokerId)
    requires
        rarity == 1 || rarity == 3 || rarity == 4,
    ensures
        offered_with_rarity(r, rarity as int),
{
    let pool = JokerId::by_rarity(rarity);
    proof {
        lemma_rarity_pools_nonempty(rarity as int);
    }
    match choose_from(rng, pool.as_slice()) {
        Some(j) => {
            proof {
                lemma_rarity_pool_members(available_jokers_upto(JOKER_COUNT as int), rarity as int, j);
            }
            j
        },
        None => {
            proof {
                assert(false);
            }
            JokerId::Joker
        },
    }
}

/// The kind of a consumable.
pub open spec fn kind_of(c: Consumable) -> ConsumableType {
    match c {
        Consumable::Tarot(_) => ConsumableType::Tarot,
        Consumable::Planet(_) => ConsumableType::Planet,
        Consumable::Spectral(_) => ConsumableType::Spectral,
    }
}

/// `after` is `before` with up to `n` cards of one kind added while slots were free.
pub open spec fn topped_up(
    before: Seq<Consumable>,
    after: Seq<Consumable>,
    capacity: int,
    n: int,
    kind: ConsumableType,
) -> bool {
    let room = if before.len() < capacity {
        capacity - before.len()
    } else {
        0
    };
    let added = if room < n {
        room
    } else {
        n
    };
    &&& after.len() == before.len() + added
    &&& after.subrange(0, before.len() as int) == before
    &&& forall|i: int| before.len() <= i < after.len() ==> kind_of(#[trigger] after[i]) == kind
}

/// Adds random planet cards (or tarot cards) twice over, each while a slot is free.
fn add_two_random(slots: &mut ConsumableSlots, planets: bool, rng: &mut StdRng)
    ensures
        final(slots).capacity == old(slots).capacity,
        topped_up(
            old(slots).items@,
            final(slots).items@,
            old(slots).capacity as int,
            2,
            if planets {
                ConsumableType::Planet
            } else {
                ConsumableType::Tarot
            },
        ),
{
    let ghost start = slots.items@;
    let ghost kind = if planets {
        ConsumableType::Planet
    } else {
        ConsumableType::Tarot
    };
    proof {
        assert(start.subrange(0, start.len() as int) =~= start);
    }
    let mut n: usize = 0;
    while n < 2
        invariant
            n <= 2,
            slots.capacity == old(slots).capacity,
            start == old(slots).items@,
            kind == (if planets {
                ConsumableType::Planet
            } else {
                ConsumableType::Tarot
            }),
            topped_up(start, slots.items@, slots.capacity as int, n as int, kind),
        decreases 2 - n,
    {
        let ghost before = slots.items@;
        if !slots.is_full() {
            let c = if planets {
                let all = PlanetId::all();
                let idx = gen_below(rng, all.len());
                Consumable::Planet(all[idx])
            } else {
                let all = TarotId::all();
                let idx = gen_below(rng, all.len());
                Consumable::Tarot(all[idx])
            };
            slots.add(c);
            proof {
                assert(slots.items@ == before.push(c));
                assert(slots.items@.subrange(0, start.len() as int) =~= start) by {
                    assert(before.subrange(0, start.len() as int) == start);
                }
            }
        }
        n = n + 1;
    }
}

// ---------------------------------------------------------------------------
// Tarot cards
// ---------------------------------------------------------------------------

/// The hand after a tarot card, given the selected positions.
pub open spec fn tarot_hand(hand: Seq<Card>, sel: Seq<usize>, t: TarotId) -> Seq<Card> {
    match t {
        TarotId::TheMagician => edit_at(hand, first_of(sel, 2), CardEdit::Enhance(Enhancement::Lucky)),
        TarotId::TheEmpress => edit_at(hand, first_of(sel, 2), CardEdit::Enhance(Enhancement::Mult)),
        TarotId::TheHierophant => edit_at(hand, first_of(sel, 2), CardEdit::Enhance(Enhancement::Bonus)),
        TarotId::TheLovers => edit_at(hand, first_of(sel, 1), CardEdit::Enhance(Enhancement::Wild)),
        TarotId::TheChariot => edit_at(hand, first_of(sel, 1), CardEdit::Enhance(Enhancement::Steel)),
        TarotId::Justice => edit_at(hand, first_of(sel, 1), CardEdit::Enhance(Enhancement::Glass)),
        TarotId::TheDevil => edit_at(hand, first_of(sel, 1), CardEdit::Enhance(Enhancement::Gold)),
        TarotId::TheTower => edit_at(hand, first_of(sel, 1), CardEdit::Enhance(Enhancement::Stone)),
        TarotId::Strength => edit_at(hand, first_of(sel, 2), CardEdit::RaiseRank),
        TarotId::TheStar => edit_at(hand, first_of(sel, 3), CardEdit::Suit(1)),
        TarotId::TheMoon => edit_at(hand, first_of(sel, 3), CardEdit::Suit(0)),
        TarotId::TheSun => edit_at(hand, first_of(sel, 3), CardEdit::Suit(2)),
        TarotId::TheWorld => edit_at(hand, first_of(sel, 3), CardEdit::Suit(3)),
        TarotId::TheHangedMan => without_positions(hand, first_of(sel, 2)),
        TarotId::Death => if sel.len() >= 2 {
            hand.update(sel[0] as int, hand[sel[1] as int])
        } else {
            hand
        },
        _ => hand,
    }
}

/// Money after a tarot card: The Hermit doubles it (at most +$20), Temperance pays the
/// enabled jokers' sell value (at most $50).
pub open spec fn tarot_money(money: int, t: TarotId, jokers: Seq<JokerFacts>) -> int {
    match t {
        TarotId::TheHermit => if 2 * money <= money + 20 {
            2 * money
        } else {
            money + 20
        },
        TarotId::Temperance => money + if enabled_sell_total(jokers) <= 50 {
            enabled_sell_total(jokers)
        } else {
            50
        },
        _ => money,
    }
}

/// The consumables after a tarot card: two random planets (The High Priestess) or tarots
/// (The Emperor) while slots are free, or the last card used again (The Fool) if a slot is free.
pub open spec fn tarot_consumables(
    before: Seq<Consumable>,
    after: Seq<Consumable>,
    capacity: int,
    t: TarotId,
    last: Option<Consumable>,
) -> bool {
    match t {
        TarotId::TheHighPriestess => topped_up(before, after, capacity, 2, ConsumableType::Planet),
        TarotId::TheEmperor => topped_up(before, after, capacity, 2, ConsumableType::Tarot),
        TarotId::TheFool => after == match last {
            Some(c) => if before.len() < capacity {
                before.push(c)
            } else {
                before
            },
            None => before,
        },
        _ => after == before,
    }
}

/// The joker change a tarot card asks for: Judgement adds a common joker when a slot is
/// free; The Wheel of Fortune may give a joker a foil, holographic or polychrome edition.
pub open spec fn tarot_joker_change(r: JokerChange, t: TarotId, jokers: Seq<JokerFacts>, limit: int) -> bool {
    match t {
        TarotId::Judgement => if jokers.len() < limit {
            r matches JokerChange::Add(j) && offered_with_rarity(j, 1)
        } else {
            r == JokerChange::Unchanged
        },
        TarotId::TheWheelOfFortune => r == JokerChange::Unchanged || (r matches JokerChange::SetEdition(
            i,
            e,
        ) && i < jokers.len() && (e == Edition::Foil || e == Edition::Holographic || e
            == Edition::Polychrome)),
        _ => r == JokerChange::Unchanged,
    }
}

/// A tarot card can be used without overflow: at most 32 hand cards (one bit each), The
/// Hermit's doubled money and Temperance's payment fit in an `i64`.
pub open spec fn tarot_effect_allowed(state: RunCards, tarot_id: TarotId, jokers: Seq<JokerFacts>) -> bool {
    &&& state.hand@.len() <= 32
    &&& tarot_id == TarotId::TheHermit ==> i64::MIN <= 2 * state.money <= i64::MAX && state.money + 20
        <= i64::MAX
    &&& tarot_id == TarotId::Temperance ==> (forall|k: int|
        0 <= k <= jokers.len() ==> i64::MIN <= #[trigger] enabled_sell_total(jokers.take(k)) <= i64::MAX)
        && i64::MIN <= tarot_money(state.money as int, tarot_id, jokers) <= i64::MAX
}

/// Uses a tarot card on the run. The selected hand cards are those whose bit is set in
/// `selected_mask`; `jokers` describes the joker row and `joker_slot_limit` its size limit.
/// Changes to the joker row come back as the result.
pub fn execute_tarot_effect(
    state: &mut RunCards,
    tarot_id: TarotId,
    consumable: &Consumable,
    jokers: &[JokerFacts],
    joker_slot_limit: usize,
    rng: &mut StdRng,
) -> (r: JokerChange)
    requires
        tarot_effect_allowed(*old(state), tarot_id, jokers@),
    ensures
        final(state).hand@ == tarot_hand(
            old(state).hand@,
            selected_positions(old(state).selected_mask, old(state).hand@.len() as int),
            tarot_id,
        ),
        final(state).money == tarot_money(old(state).money as int, tarot_id, jokers@),
        final(state).consumables.capacity == old(state).consumables.capacity,
        tarot_consumables(
            old(state).consumables.items@,
            final(state).consumables.items@,
            old(state).consumables.capacity as int,
            tarot_id,
            old(state).last_used_consumable,
        ),
        final(state).last_used_consumable == if tarot_id == TarotId::TheFool {
            old(state).last_used_consumable
        } else {
            Some(*consumable)
        },
        final(state).deck@ == old(state).deck@,
        final(state).discarded@ == old(state).discarded@,
        final(state).hand_levels@ == old(state).hand_levels@,
        final(state).hand_size_modifier == old(state).hand_size_modifier,
        final(state).selected_mask == old(state).selected_mask,
        tarot_joker_change(r, tarot_id, jokers@, joker_slot_limit as int),
{
    let sel = selected_indices(state.hand.len(), state.selected_mask);
    proof {
        lemma_selected_positions_increasing(state.selected_mask, state.hand@.len() as int);
    }
    let mut change = JokerChange::Unchanged;
    match tarot_id {
        TarotId::TheMagician => edit_selected(
            &mut state.hand,
            sel.as_slice(),
            2,
            CardEdit::Enhance(Enhancement::Lucky),
        ),
        TarotId::TheEmpress => edit_selected(
            &mut state.hand,
            sel.as_slice(),
            2,
            CardEdit::Enhance(Enhancement::Mult),
        ),
        TarotId::TheHierophant => edit_selected(
            &mut state.hand,
            sel.as_slice(),
            2,
            CardEdit::Enhance(Enhancement::Bonus),
        ),
        TarotId::TheLovers => edit_selected(
            &mut state.hand,
            sel.as_slice(),
            1,
            CardEdit::Enhance(Enhancement::Wild),
        ),
        TarotId::TheChariot => edit_selected(
            &mut state.hand,
            sel.as_slice(),
            1,
            CardEdit::Enhance(Enhancement::Steel),
        ),
        TarotId::Justice => edit_selected(
            &mut state.hand,
            sel.as_slice(),
            1,
            CardEdit::Enhance(Enhancement::Glass),
        ),
        TarotId::TheDevil => edit_selected(
            &mut state.hand,
            sel.as_slice(),
            1,
            CardEdit::Enhance(Enhancement::Gold),
        ),
        TarotId::TheTower => edit_selected(
            &mut state.hand,
            sel.as_slice(),
            1,
            CardEdit::Enhance(Enhancement::Stone),
        ),
        TarotId::TheHermit => {
            let doubled = state.money * 2;
            let capped = state.money + 20;
            state.money = if doubled <= capped {
                doubled
            } else {
                capped
            };
        },
        TarotId::Strength => edit_selected(&mut state.hand, sel.as_slice(), 2, CardEdit::RaiseRank),
        TarotId::TheHighPriestess => add_two_random(&mut state.consumables, true, rng),
        TarotId::TheEmperor => add_two_random(&mut state.consumables, false, rng),
        TarotId::Temperance => {
            let total = sell_total(jokers);
            let paid = if total <= 50 {
                total
            } else {
                50
            };
            state.money = state.money + paid;
        },
        TarotId::TheStar => edit_selected(&mut state.hand, sel.as_slice(), 3, CardEdit::Suit(1)),
        TarotId::TheMoon => edit_selected(&mut state.hand, sel.as_slice(), 3, CardEdit::Suit(0)),
        TarotId::TheSun => edit_selected(&mut state.hand, sel.as_slice(), 3, CardEdit::Suit(2)),
        TarotId::TheWorld => edit_selected(&mut state.hand, sel.as_slice(), 3, CardEdit::Suit(3)),
        TarotId::TheHangedMan => remove_selected(&mut state.hand, sel.as_slice(), 2),
        TarotId::Death => {
            if sel.len() >= 2 {
                let left = sel[0];
                let right = sel[1];
                let c = state.hand[right];
                state.hand.set(left, c);
            }
        },
        TarotId::Judgement => {
            if jokers.len() < joker_slot_limit {
                change = JokerChange::Add(random_joker_of_rarity(rng, 1));
            }
        },
        TarotId::TheWheelOfFortune => {
            if jokers.len() > 0 && gen_below(rng, 4) == 0 {
                let idx = gen_below(rng, jokers.len());
                let edition = match gen_below(rng, 3) {
                    0 => Edition::Foil,
                    1 => Edition::Holographic,
                    _ => Edition::Polychrome,
                };
                change = JokerChange::SetEdition(idx, edition);
            }
        },
        TarotId::TheFool => {
            if let Some(last) = state.last_used_consumable {
                if !state.consumables.is_full() {
                    state.consumables.add(last);
                }
            }
        },
    }
    if tarot_id != TarotId::TheFool {
        state.last_used_consumable = Some(*consumable);
    }
    change
}

// ---------------------------------------------------------------------------
// Spectral cards
// ---------------------------------------------------------------------------

/// `after` is `before` with `n` plain cards added at the end, ranks `lo` to `hi`, any suit.
pub open spec fn grown_by(before: Seq<Card>, after: Seq<Card>, n: int, lo: int, hi: int) -> bool {
    &&& after.len() == before.len() + n
    &&& after.subrange(0, before.len() as int) == before
    &&& forall|i: int|
        before.len() <= i < after.len() ==> lo <= (#[trigger] after[i]).rank <= hi && after[i].suit < 4
            && after[i] == plain_card(after[i].rank, after[i].suit)
}

/// Adds `n` random plain cards to the deck, ranks `lo` to `hi`, any suit.
fn add_random_cards(deck: &mut Vec<Card>, n: usize, lo: u8, hi: u8, rng: &mut StdRng)
    requires
        1 <= lo <= hi <= 13,
    ensures
        grown_by(old(deck)@, final(deck)@, n as int, lo as int, hi as int),
{
    let ghost start = deck@;
    proof {
        assert(start.subrange(0, start.len() as int) =~= start);
    }
    let mut k: usize = 0;
    while k < n
        invariant
            k <= n,
            1 <= lo <= hi <= 13,
            start == old(deck)@,
            grown_by(start, deck@, k as int, lo as int, hi as int),
        decreases n - k,
    {
        let span = (hi - lo + 1) as usize;
        let rank = lo + gen_below(rng, span) as u8;
        let suit = gen_below(rng, 4) as u8;
        let ghost before = deck@;
        deck.push(Card::new(rank, suit));
        proof {
            assert(deck@.subrange(0, start.len() as int) =~= start) by {
                assert(before.subrange(0, start.len() as int) == start);
            }
        }
        k = k + 1;
    }
}

/// The hand after a spectral card, given the selected positions.
pub open spec fn spectral_hand(hand: Seq<Card>, sel: Seq<usize>, s: SpectralId, after: Seq<Card>) -> bool {
    match s {
        SpectralId::Familiar | SpectralId::Grim | SpectralId::Incantation => after == if sel.len() > 0 {
            without_positions(hand, first_of(sel, 1))
        } else {
            hand
        },
        SpectralId::Talisman => after == edit_at(hand, first_of(sel, 1), CardEdit::Seal(Seal::Gold)),
        SpectralId::DejaVu => after == edit_at(hand, first_of(sel, 1), CardEdit::Seal(Seal::Red)),
        SpectralId::Trance => after == edit_at(hand, first_of(sel, 1), CardEdit::Seal(Seal::Blue)),
        SpectralId::Medium => after == edit_at(hand, first_of(sel, 1), CardEdit::Seal(Seal::Purple)),
        SpectralId::Aura => if sel.len() > 0 {
            exists|e: Edition|
                (e == Edition::Foil || e == Edition::Holographic || e == Edition::Polychrome) && after
                    == #[trigger] edit_at(hand, first_of(sel, 1), CardEdit::Edition(e))
        } else {
            after == hand
        },
        SpectralId::Sigil => exists|x: u8| x < 4 && after == #[trigger] edit_all(hand, CardEdit::Suit(x)),
        SpectralId::Ouija => exists|x: u8|
            1 <= x <= 13 && after == #[trigger] edit_all(hand, CardEdit::Rank(x)),
        SpectralId::Immolate => after == without_positions(hand, first_of(sel, 5)),
        _ => after == hand,
    }
}

/// The deck after a spectral card: Familiar, Grim and Incantation (with a card selected) add
/// three face cards, two Aces or four number cards; Cryptid adds two copies of the first
/// selected card.
pub open spec fn spectral_deck(
    hand: Seq<Card>,
    deck: Seq<Card>,
    sel: Seq<usize>,
    s: SpectralId,
    after: Seq<Card>,
) -> bool {
    if sel.len() == 0 {
        after == deck
    } else {
        match s {
            SpectralId::Familiar => grown_by(deck, after, 3, 11, 13),
            SpectralId::Grim => grown_by(deck, after, 2, 1, 1),
            SpectralId::Incantation => grown_by(deck, after, 4, 2, 10),
            SpectralId::Cryptid => after == deck.push(hand[sel[0] as int]).push(hand[sel[0] as int]),
            _ => after == deck,
        }
    }
}

/// Money after a spectral card: Wraith takes it all, Immolate pays $20.
pub open spec fn spectral_money(money: int, s: SpectralId) -> int {
    match s {
        SpectralId::Wraith => 0,
        SpectralId::Immolate => money + 20,
        _ => money,
    }
}

/// Change to the hand size after a spectral card: Ouija and Ectoplasm take one away.
pub open spec fn spectral_hand_size(modifier: int, s: SpectralId) -> int {
    match s {
        SpectralId::Ouija | SpectralId::Ectoplasm => modifier - 1,
        _ => modifier,
    }
}

/// Some joker of the row is eligible.
pub open spec fn some_eligible(jokers: Seq<JokerFacts>, skip_negative: bool) -> bool {
    exists|i: int| 0 <= i < jokers.len() && joker_eligible(#[trigger] jokers[i], skip_negative)
}

/// The joker change a spectral card asks for: Wraith and The Soul add a rare or legendary
/// joker when a slot is free; Ectoplasm makes an enabled, non-negative joker negative; Ankh
/// keeps one enabled joker twice over; Hex keeps one enabled joker, made polychrome.
pub open spec fn spectral_joker_change(r: JokerChange, s: SpectralId, jokers: Seq<JokerFacts>, limit: int) -> bool {
    match s {
        SpectralId::Wraith => if jokers.len() < limit {
            r matches JokerChange::Add(j) && offered_with_rarity(j, 3)
        } else {
            r == JokerChange::Unchanged
        },
        SpectralId::TheSoul => if jokers.len() < limit {
            r matches JokerChange::Add(j) && offered_with_rarity(j, 4)
        } else {
            r == JokerChange::Unchanged
        },
        SpectralId::Ectoplasm => if some_eligible(jokers, true) {
            r matches JokerChange::MakeNegative(i) && i < jokers.len() && joker_eligible(
                jokers[i as int],
                true,
            )
        } else {
            r == JokerChange::Unchanged
        },
        SpectralId::Ankh => if some_eligible(jokers, false) {
            r matches JokerChange::KeepTwice(i) && i < jokers.len() && joker_eligible(jokers[i as int], false)
        } else {
            r == JokerChange::Unchanged
        },
        SpectralId::Hex => if some_eligible(jokers, false) {
            r matches JokerChange::KeepPolychrome(i) && i < jokers.len() && joker_eligible(
                jokers[i as int],
                false,
            )
        } else {
            r == JokerChange::Unchanged
        },
        _ => r == JokerChange::Unchanged,
    }
}

/// A spectral card can be used without overflow: at most 32 hand cards (one bit each), hand
/// levels below the maximum for Black Hole, room below the hand size change for Ouija and
/// Ectoplasm, room for $20 for Immolate.
pub open spec fn spectral_effect_allowed(state: RunCards, spectral_id: SpectralId) -> bool {
    &&& state.hand@.len() <= 32
    &&& spectral_id == SpectralId::BlackHole ==> forall|h: int|
        0 <= h < state.hand_levels@.len() ==> #[trigger] state.hand_levels@[h] < u32::MAX
    &&& spectral_id == SpectralId::Ouija || spectral_id == SpectralId::Ectoplasm
        ==> state.hand_size_modifier > i32::MIN
    &&& spectral_id == SpectralId::Immolate ==> state.money + 20 <= i64::MAX
}

/// Uses a spectral card on the run. The selected hand cards are those whose bit is set in
/// `selected_mask`; `jokers` describes the joker row and `joker_slot_limit` its size limit.
/// Changes to the joker row come back as the result.
pub fn execute_spectral_effect(
    state: &mut RunCards,
    spectral_id: SpectralId,
    consumable: &Consumable,
    jokers: &[JokerFacts],
    joker_slot_limit: usize,
    rng: &mut StdRng,
) -> (r: JokerChange)
    requires
        spectral_effect_allowed(*old(state), spectral_id),
    ensures
        spectral_hand(
            old(state).hand@,
            selected_positions(old(state).selected_mask, old(state).hand@.len() as int),
            spectral_id,
            final(state).hand@,
        ),
        spectral_deck(
            old(state).hand@,
            old(state).deck@,
            selected_positions(old(state).selected_mask, old(state).hand@.len() as int),
            spectral_id,
            final(state).deck@,
        ),
        final(state).money == spectral_money(old(state).money as int, spectral_id),
        final(state).hand_size_modifier == spectral_hand_size(
            old(state).hand_size_modifier as int,
            spectral_id,
        ),
        spectral_id == SpectralId::BlackHole ==> final(state).hand_levels@.len()
            == old(state).hand_levels@.len() && forall|h: int|
            0 <= h < old(state).hand_levels@.len() ==> #[trigger] final(state).hand_levels@[h]
                == old(state).hand_levels@[h] + 1,
        spectral_id != SpectralId::BlackHole ==> final(state).hand_levels@ == old(state).hand_levels@,
        final(state).consumables == old(state).consumables,
        final(state).discarded@ == old(state).discarded@,
        final(state).last_used_consumable == Some(*consumable),
        final(state).selected_mask == old(state).selected_mask,
        spectral_joker_change(r, spectral_id, jokers@, joker_slot_limit as int),
{
    let sel = selected_indices(state.hand.len(), state.selected_mask);
    proof {
        lemma_selected_positions_increasing(state.selected_mask, state.hand@.len() as int);
    }
    let mut change = JokerChange::Unchanged;
    match spectral_id {
        SpectralId::BlackHole => {
            state.hand_levels.upgrade_all();
        },
        SpectralId::Familiar => {
            if sel.len() > 0 {
                remove_selected(&mut state.hand, sel.as_slice(), 1);
                add_random_cards(&mut state.deck, 3, 11, 13, rng);
            }
        },
        SpectralId::Grim => {
            if sel.len() > 0 {
                remove_selected(&mut state.hand, sel.as_slice(), 1);
                add_random_cards(&mut state.deck, 2, 1, 1, rng);
            }
        },
        SpectralId::Incantation => {
            if sel.len() > 0 {
                remove_selected(&mut state.hand, sel.as_slice(), 1);
                add_random_cards(&mut state.deck, 4, 2, 10, rng);
            }
        },
        SpectralId::Talisman => edit_selected(&mut state.hand, sel.as_slice(), 1, CardEdit::Seal(Seal::Gold)),
        SpectralId::Aura => {
            if sel.len() > 0 {
                let editions = Edition::all_common();
                let edition = editions[gen_below(rng, editions.len())];
                edit_selected(&mut state.hand, sel.as_slice(), 1, CardEdit::Edition(edition));
            }
        },
        SpectralId::Wraith => {
            if jokers.len() < joker_slot_limit {
                change = JokerChange::Add(random_joker_of_rarity(rng, 3));
            }
            state.money = 0;
        },
        SpectralId::Sigil => {
            let suit = gen_below(rng, 4) as u8;
            edit_every(&mut state.hand, CardEdit::Suit(suit));
        },
        SpectralId::Ouija => {
            let rank = gen_below(rng, 13) as u8 + 1;
            edit_every(&mut state.hand, CardEdit::Rank(rank));
            state.hand_size_modifier = state.hand_size_modifier - 1;
        },
        SpectralId::Ectoplasm => {
            if let Some(i) = random_eligible_joker(rng, jokers, true) {
                change = JokerChange::MakeNegative(i);
            }
            state.hand_size_modifier = state.hand_size_modifier - 1;
        },
        SpectralId::Immolate => {
            remove_selected(&mut state.hand, sel.as_slice(), 5);
            state.money = state.money + 20;
        },
        SpectralId::Ankh => {
            if let Some(i) = random_eligible_joker(rng, jokers, false) {
                change = JokerChange::KeepTwice(i);
            }
        },
        SpectralId::DejaVu => edit_selected(&mut state.hand, sel.as_slice(), 1, CardEdit::Seal(Seal::Red)),
        SpectralId::Hex => {
            if let Some(i) = random_eligible_joker(rng, jokers, false) {
                change = JokerChange::KeepPolychrome(i);
            }
        },
        SpectralId::Trance => edit_selected(&mut state.hand, sel.as_slice(), 1, CardEdit::Seal(Seal::Blue)),
        SpectralId::Medium => edit_selected(
            &mut state.hand,
            sel.as_slice(),
            1,
            CardEdit::Seal(Seal::Purple),
        ),
        SpectralId::Cryptid => {
            if sel.len() > 0 {
                let card = state.hand[sel[0]];
                state.deck.push(card);
                state.deck.push(card);
            }
        },
        SpectralId::TheSoul => {
            if jokers.len() < joker_slot_limit {
                change = JokerChange::Add(random_joker_of_rarity(rng, 4));
            }
        },
    }
    state.last_used_consumable = Some(*consumable);
    change
}

// ---------------------------------------------------------------------------
// Card moves of a round
// ---------------------------------------------------------------------------

/// The cards among the first `n` of `hand` whose bit is not set in `mask`, in hand order.
pub open spec fn unmasked_cards(hand: Seq<Card>, mask: u32, n: int) -> Seq<Card>
    decreases n,
{
    if n <= 0 {
        Seq::empty()
    } else if bit_set(mask, (n - 1) as u32) {
        unmasked_cards(hand, mask, n - 1)
    } else {
        unmasked_cards(hand, mask, n - 1).push(hand[n - 1])
    }
}

/// Purple-sealed cards in `s`.
pub open spec fn purple_count(s: Seq<Card>) -> int
    decreases s.len(),
{
    if s.len() == 0 {
        0
    } else {
        purple_count(s.drop_last()) + if s.last().seal == Seal::Purple { 1int } else { 0int }
    }
}

/// Gold-enhanced cards in `s`.
pub open spec fn gold_count(s: Seq<Card>) -> int
    decreases s.len(),
{
    if s.len() == 0 {
        0
    } else {
        gold_count(s.drop_last()) + if s.last().enhancement == Enhancement::Gold { 1int } else { 0int }
    }
}

/// The top `d` cards of `deck` in the order they are drawn (the last card first).
pub open spec fn drawn(deck: Seq<Card>, d: int) -> Seq<Card> {
    Seq::new(d as nat, |k: int| deck[deck.len() - 1 - k])
}

/// Cards drawn to refill a hand of `held` cards up to `hand_size` from a deck of `available`.
pub open spec fn refill_count(hand_size: int, held: int, available: int) -> int {
    let want = if hand_size > held {
        hand_size - held
    } else {
        0
    };
    if want <= available {
        want
    } else {
        available
    }
}

/// Face cards at the positions named by `indices`: each position in range counts once,
/// however often it is named.
pub open spec fn destroyed_faces(hand: Seq<Card>, indices: Seq<usize>) -> int
    decreases indices.len(),
{
    if indices.len() == 0 {
        0
    } else {
        destroyed_faces(hand, indices.drop_last()) + if indices.last() < hand.len() && is_face_rank(
            hand[indices.last() as int].rank,
        ) && !indices.drop_last().contains(indices.last()) {
            1int
        } else {
            0int
        }
    }
}

/// The cards of `hand` named by `indices` that are in range, in the order named.
pub open spec fn named_cards(hand: Seq<Card>, indices: Seq<usize>) -> Seq<Card>
    decreases indices.len(),
{
    if indices.len() == 0 {
        Seq::empty()
    } else if indices.last() < hand.len() {
        named_cards(hand, indices.drop_last()).push(hand[indices.last() as int])
    } else {
        named_cards(hand, indices.drop_last())
    }
}

/// Positions of the selected cards whose turn among the selected cards is listed in `glass`.
pub open spec fn glass_positions(sel: Seq<usize>, glass: Seq<usize>) -> Seq<usize>
    decreases sel.len(),
{
    if sel.len() == 0 {
        Seq::empty()
    } else if glass.contains((sel.len() - 1) as usize) {
        glass_positions(sel.drop_last(), glass).push(sel.last())
    } else {
        glass_positions(sel.drop_last(), glass)
    }
}

/// Makes `e` to the cards at the positions listed (positions out of range are ignored).
fn edit_listed(hand: &mut Vec<Card>, indices: &[usize], e: CardEdit)
    requires
        !(e is RaiseRank),
    ensures
        final(hand)@ == edit_at(old(hand)@, indices@, e),
{
    let ghost start = hand@;
    let hl = hand.len();
    let mut j: usize = 0;
    while j < indices.len()
        invariant
            !(e is RaiseRank),
            start.len() == hl,
            j <= indices@.len(),
            hand@ == edit_at(start, indices@.take(j as int), e),
        decreases indices@.len() - j,
    {
        let idx = indices[j];
        proof {
            let before = indices@.take(j as int);
            let after = indices@.take(j as int + 1);
            assert(after =~= before.push(idx));
            assert forall|i: int| 0 <= i < start.len() implies (#[trigger] after.contains(i as usize) <==> (
            before.contains(i as usize) || i == idx)) by {
                if after.contains(i as usize) && i != idx {
                    let k = choose|k: int| 0 <= k < after.len() && after[k] == i as usize;
                    assert(after[before.len() as int] == idx);
                    assert(before[k] == i as usize);
                }
                if before.contains(i as usize) {
                    let k = choose|k: int| 0 <= k < before.len() && before[k] == i as usize;
                    assert(after[k] == i as usize);
                }
                if i == idx {
                    assert(after[j as int] == idx);
                }
            }
        }
        if idx < hand.len() {
            let c = hand[idx];
            hand.set(idx, edit_card(c, e));
            proof {
                assert(edited(edited(start[idx as int], e), e) == edited(start[idx as int], e));
                assert(hand@ =~= edit_at(start, indices@.take(j as int + 1), e));
            }
        } else {
            proof {
                assert(hand@ =~= edit_at(start, indices@.take(j as int + 1), e));
            }
        }
        j = j + 1;
    }
    proof {
        assert(indices@.take(indices@.len() as int) =~= indices@);
    }
}

impl RunCards {
    /// Discards the cards whose bit is set in `mask` and refills the hand from the top of
    /// the deck up to `hand_size`; tells how many discarded cards had a purple seal.
    pub fn discard_with_seals(&mut self, mask: u32, hand_size: usize) -> (r: i32)
        requires
            old(self).hand@.len() <= 32,
        ensures
            r == purple_count(masked_cards(old(self).hand@, mask, old(self).hand@.len() as int)),
            final(self).discarded@ == old(self).discarded@ + masked_cards(
                old(self).hand@,
                mask,
                old(self).hand@.len() as int,
            ),
            final(self).hand@ == unmasked_cards(old(self).hand@, mask, old(self).hand@.len() as int)
                + drawn(
                old(self).deck@,
                refill_count(
                    hand_size as int,
                    unmasked_cards(old(self).hand@, mask, old(self).hand@.len() as int).len() as int,
                    old(self).deck@.len() as int,
                ),
            ),
            final(self).deck@ == old(self).deck@.take(
                old(self).deck@.len() - refill_count(
                    hand_size as int,
                    unmasked_cards(old(self).hand@, mask, old(self).hand@.len() as int).len() as int,
                    old(self).deck@.len() as int,
                ),
            ),
            final(self).money == old(self).money,
            final(self).selected_mask == old(self).selected_mask,
    {
        let ghost hand0 = self.hand@;
        let ghost disc0 = self.discarded@;
        let ghost deck0 = self.deck@;
        let mut purple: i32 = 0;
        let mut new_hand: Vec<Card> = Vec::new();
        let mut idx: usize = 0;
        while idx < self.hand.len()
            invariant
                idx <= self.hand@.len() <= 32,
                self.hand@ == hand0,
                self.deck@ == deck0,
                new_hand@ == unmasked_cards(hand0, mask, idx as int),
                self.discarded@ == disc0 + masked_cards(hand0, mask, idx as int),
                purple == purple_count(masked_cards(hand0, mask, idx as int)),
                0 <= purple <= idx,
                self.money == old(self).money,
                self.selected_mask == old(self).selected_mask,
            decreases self.hand@.len() - idx,
        {
            let card = self.hand[idx];
            let sh = idx as u32;
            if ((mask >> sh) & 1) == 1 {
                proof {
                    let m = masked_cards(hand0, mask, idx as int + 1);
                    assert(m == masked_cards(hand0, mask, idx as int).push(card));
                    assert(m.drop_last() =~= masked_cards(hand0, mask, idx as int));
                }
                if card.seal == Seal::Purple {
                    purple = purple + 1;
                }
                self.discarded.push(card);
                proof {
                    assert(self.discarded@ =~= disc0 + masked_cards(hand0, mask, idx as int + 1));
                }
            } else {
                new_hand.push(card);
            }
            idx = idx + 1;
        }
        let d: usize = if hand_size > new_hand.len() {
            let want = hand_size - new_hand.len();
            if want <= self.deck.len() {
                want
            } else {
                self.deck.len()
            }
        } else {
            0
        };
        let ghost kept = new_hand@;
        let mut k: usize = 0;
        while k < d
            invariant
                k <= d <= deck0.len(),
                self.discarded@ == disc0 + masked_cards(hand0, mask, hand0.len() as int),
                self.money == old(self).money,
                self.selected_mask == old(self).selected_mask,
                self.deck@ == deck0.take(deck0.len() - k),
                new_hand@ == kept + drawn(deck0, k as int),
            decreases d - k,
        {
            let ghost before = self.deck@;
            match self.deck.pop() {
                Some(card) => {
                    proof {
                        assert(card == deck0[deck0.len() - 1 - k]);
                    }
                    new_hand.push(card);
                },
                None => {},
            }
            k = k + 1;
            proof {
                assert(self.deck@ =~= deck0.take(deck0.len() - k));
                assert(new_hand@ =~= kept + drawn(deck0, k as int));
            }
        }
        self.hand = new_hand;
        purple
    }

    /// Money from Gold cards held at the end of a round: $3 each.
    pub fn gold_card_money(&self) -> (r: i64)
        requires
            self.hand@.len() <= i64::MAX / 3,
        ensures
            r == 3 * gold_count(self.hand@),
    {
        let mut count: i64 = 0;
        let mut i: usize = 0;
        while i < self.hand.len()
            invariant
                i <= self.hand@.len() <= i64::MAX / 3,
                count == gold_count(self.hand@.take(i as int)),
                0 <= count <= i,
            decreases self.hand@.len() - i,
        {
            proof {
                assert(self.hand@.take(i as int + 1).drop_last() =~= self.hand@.take(i as int));
            }
            if self.hand[i].enhancement == Enhancement::Gold {
                count = count + 1;
            }
            i = i + 1;
        }
        proof {
            assert(self.hand@.take(self.hand@.len() as int) =~= self.hand@);
        }
        count * 3
    }

    /// Destroys the hand cards at `indices` (out-of-range ones are ignored) and tells how many
    /// face cards were destroyed.
    pub fn destroy_cards_from_hand(&mut self, indices: &[usize]) -> (r: i32)
        requires
            indices@.len() <= i32::MAX,
        ensures
            r == destroyed_faces(old(self).hand@, indices@),
            final(self).hand@ == without_positions(old(self).hand@, indices@),
            final(self).deck@ == old(self).deck@,
            final(self).discarded@ == old(self).discarded@,
            final(self).money == old(self).money,
    {
        let mut faces: i32 = 0;
        let mut j: usize = 0;
        while j < indices.len()
            invariant
                j <= indices@.len() <= i32::MAX,
                faces == destroyed_faces(self.hand@, indices@.take(j as int)),
                0 <= faces <= j,
            decreases indices@.len() - j,
        {
            proof {
                assert(indices@.take(j as int + 1).drop_last() =~= indices@.take(j as int));
            }
            let idx = indices[j];
            if idx < self.hand.len() && self.hand[idx].is_face() && !listed(indices, j, idx) {
                faces = faces + 1;
            }
            j = j + 1;
        }
        proof {
            assert(indices@.take(indices@.len() as int) =~= indices@);
            assert(first_of(indices@, indices@.len() as int) == indices@);
        }
        remove_selected(&mut self.hand, indices, indices.len());
        faces
    }

    /// Adds cards to the deck and tells how many were added.
    pub fn add_cards_to_deck(&mut self, cards: Vec<Card>) -> (r: usize)
        ensures
            r == cards@.len(),
            final(self).deck@ == old(self).deck@ + cards@,
            final(self).hand@ == old(self).hand@,
    {
        let count = cards.len();
        let mut cards = cards;
        self.deck.append(&mut cards);
        count
    }

    /// Gives the hand cards at `indices` an enhancement (out-of-range positions are ignored).
    pub fn enhance_cards(&mut self, indices: &[usize], enhancement: Enhancement)
        ensures
            final(self).hand@ == edit_at(old(self).hand@, indices@, CardEdit::Enhance(enhancement)),
            final(self).deck@ == old(self).deck@,
    {
        edit_listed(&mut self.hand, indices, CardEdit::Enhance(enhancement));
    }

    /// Gives the hand cards at `indices` a seal (out-of-range positions are ignored).
    pub fn add_seals_to_cards(&mut self, indices: &[usize], seal: Seal)
        ensures
            final(self).hand@ == edit_at(old(self).hand@, indices@, CardEdit::Seal(seal)),
            final(self).deck@ == old(self).deck@,
    {
        edit_listed(&mut self.hand, indices, CardEdit::Seal(seal));
    }

    /// Gives the hand cards at `indices` a suit (out-of-range positions are ignored).
    pub fn change_card_suits(&mut self, indices: &[usize], suit: u8)
        ensures
            final(self).hand@ == edit_at(old(self).hand@, indices@, CardEdit::Suit(suit)),
            final(self).deck@ == old(self).deck@,
    {
        edit_listed(&mut self.hand, indices, CardEdit::Suit(suit));
    }

    /// Gives every hand card one suit (Sigil).
    pub fn convert_all_hand_to_suit(&mut self, suit: u8)
        ensures
            final(self).hand@ == edit_all(old(self).hand@, CardEdit::Suit(suit)),
            final(self).deck@ == old(self).deck@,
    {
        edit_every(&mut self.hand, CardEdit::Suit(suit));
    }

    /// Gives every hand card one rank (Ouija).
    pub fn convert_all_hand_to_rank(&mut self, rank: u8)
        ensures
            final(self).hand@ == edit_all(old(self).hand@, CardEdit::Rank(rank)),
            final(self).deck@ == old(self).deck@,
    {
        edit_every(&mut self.hand, CardEdit::Rank(rank));
    }

    /// Adds copies of the hand cards at `indices` (in range) to the deck; tells how many.
    pub fn copy_cards_to_deck(&mut self, indices: &[usize]) -> (r: usize)
        ensures
            final(self).deck@ == old(self).deck@ + named_cards(old(self).hand@, indices@),
            r == named_cards(old(self).hand@, indices@).len(),
            final(self).hand@ == old(self).hand@,
    {
        let mut copies: Vec<Card> = Vec::new();
        let mut j: usize = 0;
        while j < indices.len()
            invariant
                j <= indices@.len(),
                copies@ == named_cards(self.hand@, indices@.take(j as int)),
                copies@.len() <= j,
            decreases indices@.len() - j,
        {
            proof {
                assert(indices@.take(j as int + 1).drop_last() =~= indices@.take(j as int));
            }
            let idx = indices[j];
            if idx < self.hand.len() {
                copies.push(self.hand[idx]);
            }
            j = j + 1;
        }
        proof {
            assert(indices@.take(indices@.len() as int) =~= indices@);
        }
        self.add_cards_to_deck(copies)
    }

    /// Destroys the hand card at `destroy_idx` and adds `add_count` random face cards to the
    /// deck (Familiar); tells how many face cards were destroyed and how many cards were added.
    pub fn familiar_effect(&mut self, destroy_idx: usize, add_count: usize, rng: &mut StdRng) -> (r: (i32, usize))
        ensures
            r.0 == destroyed_faces(old(self).hand@, seq![destroy_idx]),
            r.1 == add_count,
            final(self).hand@ == without_positions(old(self).hand@, seq![destroy_idx]),
            grown_by(old(self).deck@, final(self).deck@, add_count as int, 11, 13),
    {
        let gone: [usize; 1] = [destroy_idx];
        proof {
            assert(gone@ == seq![destroy_idx]);
        }
        let destroyed = self.destroy_cards_from_hand(&gone);
        add_random_cards(&mut self.deck, add_count, 11, 13, rng);
        (destroyed, add_count)
    }

    /// Destroys the hand card at `destroy_idx` and adds `add_count` random Aces to the deck
    /// (Grim); tells how many face cards were destroyed and how many cards were added.
    pub fn grim_effect(&mut self, destroy_idx: usize, add_count: usize, rng: &mut StdRng) -> (r: (i32, usize))
        ensures
            r.0 == destroyed_faces(old(self).hand@, seq![destroy_idx]),
            r.1 == add_count,
            final(self).hand@ == without_positions(old(self).hand@, seq![destroy_idx]),
            grown_by(old(self).deck@, final(self).deck@, add_count as int, 1, 1),
    {
        let gone: [usize; 1] = [destroy_idx];
        proof {
            assert(gone@ == seq![destroy_idx]);
        }
        let destroyed = self.destroy_cards_from_hand(&gone);
        add_random_cards(&mut self.deck, add_count, 1, 1, rng);
        (destroyed, add_count)
    }

    /// Destroys the hand card at `destroy_idx` and adds `add_count` random number cards (2 to
    /// 10) to the deck (Incantation); tells how many face cards were destroyed and how many
    /// cards were added.
    pub fn incantation_effect(&mut self, destroy_idx: usize, add_count: usize, rng: &mut StdRng) -> (r: (
        i32,
        usize,
    ))
        ensures
            r.0 == destroyed_faces(old(self).hand@, seq![destroy_idx]),
            r.1 == add_count,
            final(self).hand@ == without_positions(old(self).hand@, seq![destroy_idx]),
            grown_by(old(self).deck@, final(self).deck@, add_count as int, 2, 10),
    {
        let gone: [usize; 1] = [destroy_idx];
        proof {
            assert(gone@ == seq![destroy_idx]);
        }
        let destroyed = self.destroy_cards_from_hand(&gone);
        add_random_cards(&mut self.deck, add_count, 2, 10, rng);
        (destroyed, add_count)
    }

    /// Destroys the hand cards at `indices` and pays $20 (Immolate); tells how many face cards
    /// were destroyed.
    pub fn immolate_effect(&mut self, indices: &[usize]) -> (r: i32)
        requires
            indices@.len() <= i32::MAX,
            old(self).money + 20 <= i64::MAX,
        ensures
            r == destroyed_faces(old(self).hand@, indices@),
            final(self).hand@ == without_positions(old(self).hand@, indices@),
            final(self).money == old(self).money + 20,
            final(self).deck@ == old(self).deck@,
    {
        let destroyed = self.destroy_cards_from_hand(indices);
        self.money = self.money + 20;
        destroyed
    }

    /// Glass cards that broke: of the cards selected by `selected_mask`, those whose turn among
    /// the selected cards is listed in `glass_indices` leave the hand.
    pub fn break_glass_cards(&mut self, selected_mask: u32, glass_indices: &[usize])
        requires
            old(self).hand@.len() <= 32,
        ensures
            final(self).hand@ == without_positions(
                old(self).hand@,
                glass_positions(selected_positions(selected_mask, old(self).hand@.len() as int), glass_indices@),
            ),
            final(self).deck@ == old(self).deck@,
            final(self).discarded@ == old(self).discarded@,
            final(self).money == old(self).money,
            final(self).selected_mask == old(self).selected_mask,
            final(self).hand_levels == old(self).hand_levels,
            final(self).consumables == old(self).consumables,
    {
        let sel = selected_indices(self.hand.len(), selected_mask);
        let mut gone: Vec<usize> = Vec::new();
        let mut k: usize = 0;
        while k < sel.len()
            invariant
                k <= sel@.len(),
                gone@ == glass_positions(sel@.take(k as int), glass_indices@),
            decreases sel@.len() - k,
        {
            proof {
                assert(sel@.take(k as int + 1).drop_last() =~= sel@.take(k as int));
            }
            if listed(glass_indices, glass_indices.len(), k) {
                proof {
                    assert(glass_indices@.take(glass_indices@.len() as int) =~= glass_indices@);
                }
                gone.push(sel[k]);
            } else {
                proof {
                    assert(glass_indices@.take(glass_indices@.len() as int) =~= glass_indices@);
                }
            }
            k = k + 1;
        }
        proof {
            assert(sel@.take(sel@.len() as int) =~= sel@);
            assert(first_of(gone@, gone@.len() as int) == gone@);
        }
        remove_selected(&mut self.hand, gone.as_slice(), gone.len());
    }
}

impl RunCards {
    /// Gathers hand, discards and deck, shuffles them, and deals a new hand of `hand_size`
    /// cards (fewer if the deck runs short); nothing is selected afterwards.
    pub fn deal(&mut self, hand_size: usize, rng: &mut StdRng)
        ensures
            (final(self).hand@ + final(self).deck@).to_multiset() == (old(self).deck@ + old(self).hand@
                + old(self).discarded@).to_multiset(),
            final(self).hand@.len() == if hand_size <= (old(self).deck@ + old(self).hand@
                + old(self).discarded@).len() {
                hand_size as int
            } else {
                (old(self).deck@ + old(self).hand@ + old(self).discarded@).len() as int
            },
            final(self).discarded@.len() == 0,
            final(self).selected_mask == 0,
            final(self).money == old(self).money,
            final(self).hand_levels == old(self).hand_levels,
            final(self).consumables == old(self).consumables,
    {
        let ghost all = self.deck@ + self.hand@ + self.discarded@;
        self.deck.append(&mut self.hand);
        self.deck.append(&mut self.discarded);
        proof {
            assert(self.deck@ =~= all);
        }
        shuffle_vec(rng, &mut self.deck);
        let n = if hand_size <= self.deck.len() {
            hand_size
        } else {
            self.deck.len()
        };
        let ghost shuffled = self.deck@;
        let mut rest = self.deck.split_off(n);
        proof {
            assert(self.deck@ + rest@ =~= shuffled);
        }
        core::mem::swap(&mut self.deck, &mut rest);
        self.hand = rest;
        self.selected_mask = 0;
    }
}

/// Hand size change of one joker: Juggler +1, Troubadour +2, Stuntman -2, Turtle Bean its
/// own amount; disabled jokers change nothing.
pub open spec fn joker_hand_size_change(j: JokerFacts) -> int {
    if !j.enabled {
        0
    } else {
        match j.id {
            JokerId::Juggler => 1,
            JokerId::Troubadour => 2,
            JokerId::Stuntman => -2,
            JokerId::TurtleBean => j.turtle_hand_mod as int,
            _ => 0,
        }
    }
}

/// Hand size change of a joker row.
pub open spec fn jokers_hand_size_change(s: Seq<JokerFacts>) -> int
    decreases s.len(),
{
    if s.len() == 0 {
        0
    } else {
        jokers_hand_size_change(s.drop_last()) + joker_hand_size_change(s.last())
    }
}

/// Every partial sum taken while adding up the hand size changes fits in an `i32`.
pub open spec fn hand_size_sums_fit(jokers: Seq<JokerFacts>, manacle: bool, modifier: int, stake: Stake) -> bool {
    let a = jokers_hand_size_change(jokers);
    let b = a - if manacle { 1int } else { 0int };
    let c = b + modifier;
    let d = c + stake_hand_size_mod(stake);
    &&& forall|k: int|
        0 <= k <= jokers.len() ==> i32::MIN <= #[trigger] jokers_hand_size_change(jokers.take(k))
            <= i32::MAX
    &&& i32::MIN <= b <= i32::MAX
    &&& i32::MIN <= c <= i32::MAX
    &&& i32::MIN <= d <= i32::MAX
    &&& i32::MIN <= HAND_SIZE + d <= i32::MAX
}

/// Hand size: the base size with the joker, boss (The Manacle: -1), spectral and stake
/// changes, never below 1.
pub open spec fn hand_size_of(jokers: Seq<JokerFacts>, manacle: bool, modifier: int, stake: Stake) -> int {
    let total = HAND_SIZE + jokers_hand_size_change(jokers) - (if manacle { 1int } else { 0int })
        + modifier + stake_hand_size_mod(stake);
    if total >= 1 {
        total
    } else {
        1
    }
}

/// Hand size for the jokers held, the boss blind, the permanent spectral change and the stake.
pub fn effective_hand_size(
    jokers: &[JokerFacts],
    boss_blind: Option<BossBlind>,
    hand_size_modifier: i32,
    stake: Stake,
) -> (r: usize)
    requires
        hand_size_sums_fit(
            jokers@,
            boss_blind == Some(BossBlind::TheManacle),
            hand_size_modifier as int,
            stake,
        ),
    ensures
        r == hand_size_of(jokers@, boss_blind == Some(BossBlind::TheManacle), hand_size_modifier as int, stake),
{
    let base = HAND_SIZE as i32;
    let mut modifier: i32 = 0;
    let mut i: usize = 0;
    while i < jokers.len()
        invariant
            i <= jokers@.len(),
            modifier == jokers_hand_size_change(jokers@.take(i as int)),
            forall|k: int|
                0 <= k <= jokers@.len() ==> i32::MIN <= #[trigger] jokers_hand_size_change(jokers@.take(k))
                    <= i32::MAX,
        decreases jokers@.len() - i,
    {
        proof {
            assert(jokers@.take(i as int + 1).drop_last() =~= jokers@.take(i as int));
            assert(i32::MIN <= jokers_hand_size_change(jokers@.take(i as int + 1)) <= i32::MAX);
        }
        let j = jokers[i];
        if j.enabled {
            match j.id {
                JokerId::Juggler => modifier = modifier + 1,
                JokerId::Troubadour => modifier = modifier + 2,
                JokerId::Stuntman => modifier = modifier - 2,
                JokerId::TurtleBean => modifier = modifier + j.turtle_hand_mod,
                _ => {},
            }
        }
        i = i + 1;
    }
    proof {
        assert(jokers@.take(jokers@.len() as int) =~= jokers@);
    }
    if boss_blind == Some(BossBlind::TheManacle) {
        modifier = modifier - 1;
    }
    modifier = modifier + hand_size_modifier;
    modifier = modifier + stake.hand_size_modifier();
    let total = base + modifier;
    if total >= 1 {
        total as usize
    } else {
        1
    }
}

/// Where a run stands among the antes.
#[derive(Clone, Copy, Debug, PartialEq, Eq, Structural)]
pub struct AnteProgress {
    pub ante: Ante,
    /// Whether the run goes on past the last ante.
    pub endless_mode: bool,
    /// Antes played past the last one in endless mode.
    pub endless_ante: i32,
}

/// The ante whose completion wins the run: the eighth, less the reduction, at least the first.
pub open spec fn target_ante(ante_reduction: int) -> int {
    if 8 - ante_reduction >= 1 {
        8 - ante_reduction
    } else {
        1
    }
}

impl AnteProgress {
    /// Moves on to the next ante. Without endless mode the run is won (false, nothing
    /// changes) once the target ante (eighth, less `ante_reduction`) is reached; in endless
    /// mode the antes past the last are counted.
    pub fn advance_ante(&mut self, ante_reduction: i32) -> (r: bool)
        requires
            ante_reduction >= 8 - i32::MAX,
            old(self).endless_ante < i32::MAX,
        ensures
            r == (old(self).endless_mode || (ante_number(old(self).ante) < target_ante(ante_reduction as int)
                && old(self).ante != Ante::Eight)),
            !r ==> *final(self) == *old(self),
            final(self).endless_mode == old(self).endless_mode,
            r && old(self).ante != Ante::Eight ==> ante_number(final(self).ante) == ante_number(old(self).ante) + 1
                && final(self).endless_ante == old(self).endless_ante,
            r && old(self).ante == Ante::Eight ==> final(self).ante == Ante::Eight
                && final(self).endless_ante == old(self).endless_ante + 1,
    {
        let reduced = 8 - ante_reduction;
        let target = if reduced >= 1 {
            reduced
        } else {
            1
        };
        if self.ante.to_int() >= target && !self.endless_mode {
            return false;
        }
        match self.ante.next() {
            Some(next) => {
                self.ante = next;
                true
            },
            None => {
                if self.endless_mode {
                    self.endless_ante = self.endless_ante + 1;
                    true
                } else {
                    false
                }
            },
        }
    }
}

/// A random boss for an ante: a showdown boss at the eighth ante, a regular one before.
pub fn select_random_boss(ante: Ante, rng: &mut StdRng) -> (r: Option<BossBlind>)
    ensures
        r matches Some(b) && (if ante == Ante::Eight {
            22 <= boss_index(b) < 27
        } else {
            0 <= boss_index(b) < 22
        }),
{
    let bosses = if ante == Ante::Eight {
        BossBlind::showdown_bosses()
    } else {
        BossBlind::regular_bosses()
    };
    let r = choose_from(rng, bosses);
    proof {
        if let Some(b) = r {
            let k = choose|k: int| 0 <= k < bosses@.len() && bosses@[k] == b;
            assert(bosses@[k] == b);
        }
    }
    r
}

/// The selected and the unselected cards together are the first `n` cards of the hand.
proof fn lemma_mask_split(hand: Seq<Card>, mask: u32, n: int)
    requires
        0 <= n <= hand.len(),
    ensures
        masked_cards(hand, mask, n).to_multiset().add(unmasked_cards(hand, mask, n).to_multiset())
            == hand.take(n).to_multiset(),
    decreases n,
{
    broadcast use vstd::seq_lib::group_to_multiset_ensures;

    if n == 0 {
        assert(hand.take(0) =~= Seq::<Card>::empty());
    } else {
        lemma_mask_split(hand, mask, n - 1);
        assert(hand.take(n) =~= hand.take(n - 1).push(hand[n - 1]));
    }
}

/// Drawing the top `d` cards and keeping the rest leaves every card of the deck in one of
/// the two parts.
proof fn lemma_draw_split(deck: Seq<Card>, d: int)
    requires
        0 <= d <= deck.len(),
    ensures
        drawn(deck, d).to_multiset().add(deck.take(deck.len() - d).to_multiset()) == deck.to_multiset(),
{
    let top = deck.subrange(deck.len() - d, deck.len() as int);
    assert(drawn(deck, d) =~= top.reverse());
    top.lemma_reverse_to_multiset();
    assert(deck.take(deck.len() - d) + top =~= deck);
    vstd::seq_lib::lemma_multiset_commutative(deck.take(deck.len() - d), top);
}

/// Discarding keeps every card: the hand, deck and discard pile after `discard_with_seals`
/// hold, together, the same cards as before.
pub proof fn lemma_discard_keeps_cards(
    hand: Seq<Card>,
    deck: Seq<Card>,
    discarded: Seq<Card>,
    mask: u32,
    hand_size: int,
)
    ensures
        (unmasked_cards(hand, mask, hand.len() as int) + drawn(
            deck,
            refill_count(hand_size, unmasked_cards(hand, mask, hand.len() as int).len() as int, deck.len() as int),
        ) + deck.take(
            deck.len() - refill_count(
                hand_size,
                unmasked_cards(hand, mask, hand.len() as int).len() as int,
                deck.len() as int,
            ),
        ) + (discarded + masked_cards(hand, mask, hand.len() as int))).to_multiset() == (hand + deck
            + discarded).to_multiset(),
{
    broadcast use vstd::seq_lib::group_to_multiset_ensures;

    let kept = unmasked_cards(hand, mask, hand.len() as int);
    let gone = masked_cards(hand, mask, hand.len() as int);
    let d = refill_count(hand_size, kept.len() as int, deck.len() as int);
    let top = drawn(deck, d);
    let rest = deck.take(deck.len() - d);
    lemma_mask_split(hand, mask, hand.len() as int);
    assert(hand.take(hand.len() as int) =~= hand);
    lemma_draw_split(deck, d);
    vstd::seq_lib::lemma_multiset_commutative(kept, top);
    vstd::seq_lib::lemma_multiset_commutative(kept + top, rest);
    vstd::seq_lib::lemma_multiset_commutative(discarded, gone);
    vstd::seq_lib::lemma_multiset_commutative(kept + top + rest, discarded + gone);
    vstd::seq_lib::lemma_multiset_commutative(hand, deck);
    vstd::seq_lib::lemma_multiset_commutative(hand + deck, discarded);
    assert(kept.to_multiset().add(top.to_multiset()).add(rest.to_multiset()).add(
        discarded.to_multiset().add(gone.to_multiset()),
    ) =~= hand.to_multiset().add(deck.to_multiset()).add(discarded.to_multiset()));
}

// ---------------------------------------------------------------------------
// Tags cashed in at the start of a shop
// ---------------------------------------------------------------------------

/// Unused tags of one kind.
pub open spec fn unused_tags(tags: Seq<Tag>, id: TagId) -> int
    decreases tags.len(),
{
    if tags.len() == 0 {
        0
    } else {
        unused_tags(tags.drop_last(), id) + if !tags.last().used && tags.last().id == id {
            1int
        } else {
            0int
        }
    }
}

/// The tag kinds whose effects `execute_tag_effects` carries out.
pub open spec fn handled_tag(id: TagId) -> bool {
    id == TagId::TopUpTag || id == TagId::CharmTag || id == TagId::MeteorTag || id == TagId::EtherealTag
        || id == TagId::BuffoonTag || id == TagId::StandardTag
}

fn count_unused(tags: &Vec<Tag>, id: TagId) -> (r: usize)
    ensures
        r == unused_tags(tags@, id),
        r <= tags@.len(),
{
    let mut n: usize = 0;
    let mut i: usize = 0;
    while i < tags.len()
        invariant
            i <= tags@.len(),
            n == unused_tags(tags@.take(i as int), id),
            n <= i,
        decreases tags@.len() - i,
    {
        proof {
            assert(tags@.take(i as int + 1).drop_last() =~= tags@.take(i as int));
        }
        if !tags[i].used && tags[i].id == id {
            n = n + 1;
        }
        i = i + 1;
    }
    proof {
        assert(tags@.take(tags@.len() as int) =~= tags@);
    }
    n
}

fn mark_used(tags: &mut Vec<Tag>, id: TagId)
    ensures
        final(tags)@.len() == old(tags)@.len(),
        forall|i: int|
            0 <= i < old(tags)@.len() ==> (#[trigger] final(tags)@[i]).id == old(tags)@[i].id
                && final(tags)@[i].used == (old(tags)@[i].used || old(tags)@[i].id == id),
{
    let mut i: usize = 0;
    while i < tags.len()
        invariant
            i <= tags@.len() == old(tags)@.len(),
            forall|k: int|
                0 <= k < i ==> (#[trigger] tags@[k]).id == old(tags)@[k].id && tags@[k].used == (
                old(tags)@[k].used || old(tags)@[k].id == id),
            forall|k: int| i <= k < tags@.len() ==> #[trigger] tags@[k] == old(tags)@[k],
        decreases tags@.len() - i,
    {
        if !tags[i].used && tags[i].id == id {
            let t = Tag { id: tags[i].id, used: true };
            tags.set(i, t);
        }
        i = i + 1;
    }
}

/// Marking the unused tags of one kind as used leaves the unused tags of other kinds alone.
proof fn lemma_unused_after_mark(t1: Seq<Tag>, t2: Seq<Tag>, x: TagId, y: TagId)
    requires
        t2.len() == t1.len(),
        forall|i: int|
            0 <= i < t1.len() ==> (#[trigger] t2[i]).id == t1[i].id && t2[i].used == (t1[i].used
                || t1[i].id == x),
        y != x,
    ensures
        unused_tags(t2, y) == unused_tags(t1, y),
    decreases t1.len(),
{
    if t1.len() > 0 {
        assert forall|i: int| 0 <= i < t1.drop_last().len() implies (#[trigger] t2.drop_last()[i]).id
            == t1.drop_last()[i].id && t2.drop_last()[i].used == (t1.drop_last()[i].used
            || t1.drop_last()[i].id == x) by {
            assert(t2.drop_last()[i] == t2[i]);
            assert(t1.drop_last()[i] == t1[i]);
        }
        lemma_unused_after_mark(t1.drop_last(), t2.drop_last(), x, y);
        assert(t2.last() == t2[t2.len() - 1]);
    }
}

/// Tags are cashed in once: after `execute_tag_effects` no tag of a handled kind is left
/// unused, so a second call finds none of them and adds no jokers, consumables or cards.
pub proof fn lemma_tags_cashed_in_once(before: Seq<Tag>, after: Seq<Tag>, id: TagId)
    requires
        after.len() == before.len(),
        forall|i: int|
            0 <= i < before.len() ==> (#[trigger] after[i]).id == before[i].id && after[i].used == (
            before[i].used || handled_tag(before[i].id)),
        handled_tag(id),
    ensures
        unused_tags(after, id) == 0,
    decreases before.len(),
{
    if before.len() > 0 {
        assert forall|i: int| 0 <= i < before.drop_last().len() implies (#[trigger] after.drop_last()[i]).id
            == before.drop_last()[i].id && after.drop_last()[i].used == (before.drop_last()[i].used
            || handled_tag(before.drop_last()[i].id)) by {
            assert(after.drop_last()[i] == after[i]);
            assert(before.drop_last()[i] == before[i]);
        }
        lemma_tags_cashed_in_once(before.drop_last(), after.drop_last(), id);
        assert(after.last() == after[after.len() - 1]);
    }
}

/// Adding `m` then `n` cards of a kind while slots are free is adding `m + n`.
proof fn lemma_topped_up_chain(
    a: Seq<Consumable>,
    b: Seq<Consumable>,
    c: Seq<Consumable>,
    capacity: int,
    m: int,
    n: int,
    kind: ConsumableType,
)
    requires
        m >= 0,
        n >= 0,
        topped_up(a, b, capacity, m, kind),
        topped_up(b, c, capacity, n, kind),
    ensures
        topped_up(a, c, capacity, m + n, kind),
{
    assert(c.subrange(0, a.len() as int) =~= b.subrange(0, a.len() as int));
    assert forall|i: int| a.len() <= i < c.len() implies kind_of(#[trigger] c[i]) == kind by {
        if i < b.len() {
            assert(c[i] == c.subrange(0, b.len() as int)[i]);
        }
    }
}

/// Adding `m` then `n` random cards in one rank range is adding `m + n`.
proof fn lemma_grown_by_chain(a: Seq<Card>, b: Seq<Card>, c: Seq<Card>, m: int, n: int, lo: int, hi: int)
    requires
        m >= 0,
        n >= 0,
        grown_by(a, b, m, lo, hi),
        grown_by(b, c, n, lo, hi),
    ensures
        grown_by(a, c, m + n, lo, hi),
{
    assert(c.subrange(0, a.len() as int) =~= b.subrange(0, a.len() as int));
    assert forall|i: int| a.len() <= i < c.len() implies lo <= (#[trigger] c[i]).rank <= hi && c[i].suit < 4
        && c[i] == plain_card(c[i].rank, c[i].suit) by {
        if i < b.len() {
            assert(c[i] == c.subrange(0, b.len() as int)[i]);
        }
    }
}

/// Adds two random cards of a kind `times` times over, each while a slot is free.
fn add_random_rounds(slots: &mut ConsumableSlots, times: usize, per_round: usize, kind: ConsumableType, rng: &mut StdRng)
    requires
        per_round == (if kind == ConsumableType::Spectral { 1usize } else { 2usize }),
        times <= usize::MAX / 2,
    ensures
        final(slots).capacity == old(slots).capacity,
        topped_up(old(slots).items@, final(slots).items@, old(slots).capacity as int, (per_round * times) as int, kind),
{
    let ghost start = slots.items@;
    proof {
        assert(start.subrange(0, start.len() as int) =~= start);
    }
    let mut t: usize = 0;
    while t < times
        invariant
            t <= times <= usize::MAX / 2,
            per_round == (if kind == ConsumableType::Spectral { 1usize } else { 2usize }),
            slots.capacity == old(slots).capacity,
            start == old(slots).items@,
            topped_up(start, slots.items@, slots.capacity as int, (per_round * t) as int, kind),
        decreases times - t,
    {
        let ghost before = slots.items@;
        if kind == ConsumableType::Spectral {
            if !slots.is_full() {
                let all = SpectralId::all();
                let idx = gen_below(rng, all.len());
                let c = Consumable::Spectral(all[idx]);
                slots.add(c);
                proof {
                    assert(slots.items@ == before.push(c));
                    assert(slots.items@.subrange(0, before.len() as int) =~= before);
                }
            } else {
                proof {
                    assert(before.subrange(0, before.len() as int) =~= before);
                }
            }
            proof {
                assert(topped_up(before, slots.items@, slots.capacity as int, 1, kind));
                lemma_topped_up_chain(start, before, slots.items@, slots.capacity as int, (per_round * t) as int, 1, kind);
                assert(per_round * t + 1 == per_round * (t + 1)) by (nonlinear_arith)
                    requires
                        per_round == 1,
                ;
            }
        } else {
            add_two_random(slots, kind == ConsumableType::Planet, rng);
            proof {
                lemma_topped_up_chain(start, before, slots.items@, slots.capacity as int, (per_round * t) as int, 2, kind);
                assert(per_round * t + 2 == per_round * (t + 1)) by (nonlinear_arith)
                    requires
                        per_round == 2,
                ;
            }
        }
        t = t + 1;
    }
}

/// The consumables after the tag effects: two tarots per Charm tag, then two planets per
/// Meteor tag, then one spectral per Ethereal tag, each while a slot is free.
pub open spec fn tag_consumables(
    before: Seq<Consumable>,
    after: Seq<Consumable>,
    capacity: int,
    charm: int,
    meteor: int,
    ethereal: int,
) -> bool {
    exists|a: Seq<Consumable>, b: Seq<Consumable>|
        #[trigger] topped_up(before, a, capacity, 2 * charm, ConsumableType::Tarot) && #[trigger] topped_up(
            a,
            b,
            capacity,
            2 * meteor,
            ConsumableType::Planet,
        ) && topped_up(b, after, capacity, ethereal, ConsumableType::Spectral)
}

/// Jokers the tags add: up to two commons for Top-up tags, then one random joker per
/// Buffoon tag, while joker slots are free.
pub open spec fn tag_jokers(r: Seq<JokerId>, joker_count: int, limit: int, topups: int, buffoons: int) -> bool {
    let room = if joker_count < limit {
        limit - joker_count
    } else {
        0
    };
    let tu = if topups > 0 {
        if room < 2 {
            room
        } else {
            2
        }
    } else {
        0
    };
    let bf = if buffoons < room - tu {
        buffoons
    } else {
        room - tu
    };
    &&& r.len() == tu + bf
    &&& forall|i: int| 0 <= i < tu ==> offered_with_rarity(#[trigger] r[i], 1)
    &&& forall|i: int| tu <= i < r.len() ==> available_jokers_upto(JOKER_COUNT as int).contains(#[trigger] r[i])
}

/// Cashes in the Top-up, Charm, Meteor, Ethereal, Buffoon and Standard tags not used yet:
/// consumables and cards are added to the run, those tags are marked used, and the jokers to
/// add to a row of `joker_count` jokers (at most `joker_slot_limit`) come back in order.
pub fn execute_tag_effects(
    state: &mut RunCards,
    tags: &mut Vec<Tag>,
    joker_count: usize,
    joker_slot_limit: usize,
    rng: &mut StdRng,
) -> (r: Vec<JokerId>)
    requires
        old(tags)@.len() <= usize::MAX / 4,
    ensures
        tag_jokers(
            r@,
            joker_count as int,
            joker_slot_limit as int,
            unused_tags(old(tags)@, TagId::TopUpTag),
            unused_tags(old(tags)@, TagId::BuffoonTag),
        ),
        final(state).consumables.capacity == old(state).consumables.capacity,
        tag_consumables(
            old(state).consumables.items@,
            final(state).consumables.items@,
            old(state).consumables.capacity as int,
            unused_tags(old(tags)@, TagId::CharmTag),
            unused_tags(old(tags)@, TagId::MeteorTag),
            unused_tags(old(tags)@, TagId::EtherealTag),
        ),
        grown_by(
            old(state).deck@,
            final(state).deck@,
            3 * unused_tags(old(tags)@, TagId::StandardTag),
            1,
            13,
        ),
        final(state).hand@ == old(state).hand@,
        final(state).money == old(state).money,
        final(tags)@.len() == old(tags)@.len(),
        forall|i: int|
            0 <= i < old(tags)@.len() ==> (#[trigger] final(tags)@[i]).id == old(tags)@[i].id
                && final(tags)@[i].used == (old(tags)@[i].used || handled_tag(old(tags)@[i].id)),
{
    let ghost tags0 = tags@;
    let ghost items0 = state.consumables.items@;
    let ghost deck0 = state.deck@;
    let room: usize = if joker_count < joker_slot_limit {
        joker_slot_limit - joker_count
    } else {
        0
    };
    let mut added: Vec<JokerId> = Vec::new();

    // Top-up: up to two common jokers.
    let topups = count_unused(tags, TagId::TopUpTag);
    if topups > 0 {
        let common = JokerId::by_rarity(1);
        proof {
            lemma_rarity_pools_nonempty(1);
        }
        let mut t: usize = 0;
        while t < topups
            invariant
                t <= topups,
                topups > 0,
                common@ == jokers_of_rarity(available_jokers_upto(JOKER_COUNT as int), 1),
                common@.len() > 0,
                added@.len() == (if t == 0 {
                    0
                } else if room < 2 {
                    room as int
                } else {
                    2
                }),
                forall|i: int| 0 <= i < added@.len() ==> offered_with_rarity(#[trigger] added@[i], 1),
            decreases topups - t,
        {
            let mut k: usize = 0;
            while k < 2
                invariant
                    k <= 2,
                    t < topups,
                    common@ == jokers_of_rarity(available_jokers_upto(JOKER_COUNT as int), 1),
                    common@.len() > 0,
                    added@.len() == (if t == 0 && k == 0 {
                        0
                    } else if t == 0 && k == 1 {
                        if room < 1 {
                            room as int
                        } else {
                            1
                        }
                    } else if room < 2 {
                        room as int
                    } else {
                        2
                    }),
                    forall|i: int| 0 <= i < added@.len() ==> offered_with_rarity(#[trigger] added@[i], 1),
                decreases 2 - k,
            {
                if added.len() < room && added.len() < 2 {
                    let idx = gen_below(rng, common.len());
                    let j = common[idx];
                    proof {
                        lemma_rarity_pool_members(available_jokers_upto(JOKER_COUNT as int), 1, j);
                        assert(common@[idx as int] == j);
                    }
                    added.push(j);
                }
                k = k + 1;
            }
            t = t + 1;
        }
    }
    mark_used(tags, TagId::TopUpTag);
    let ghost tags1 = tags@;
    proof {
        lemma_unused_after_mark(tags0, tags1, TagId::TopUpTag, TagId::CharmTag);
        lemma_unused_after_mark(tags0, tags1, TagId::TopUpTag, TagId::MeteorTag);
        lemma_unused_after_mark(tags0, tags1, TagId::TopUpTag, TagId::EtherealTag);
        lemma_unused_after_mark(tags0, tags1, TagId::TopUpTag, TagId::BuffoonTag);
        lemma_unused_after_mark(tags0, tags1, TagId::TopUpTag, TagId::StandardTag);
    }
    let ghost tu = added@.len();
    proof {
        assert(tu == (if topups > 0 {
            if room < 2 {
                room as int
            } else {
                2
            }
        } else {
            0
        }));
    }

    // Charm: two tarot cards each; Meteor: two planet cards each; Ethereal: one spectral each.
    let charms = count_unused(tags, TagId::CharmTag);
    add_random_rounds(&mut state.consumables, charms, 2, ConsumableType::Tarot, rng);
    mark_used(tags, TagId::CharmTag);
    let ghost tags2 = tags@;
    proof {
        lemma_unused_after_mark(tags1, tags2, TagId::CharmTag, TagId::MeteorTag);
        lemma_unused_after_mark(tags1, tags2, TagId::CharmTag, TagId::EtherealTag);
        lemma_unused_after_mark(tags1, tags2, TagId::CharmTag, TagId::BuffoonTag);
        lemma_unused_after_mark(tags1, tags2, TagId::CharmTag, TagId::StandardTag);
    }
    let ghost items1 = state.consumables.items@;
    let meteors = count_unused(tags, TagId::MeteorTag);
    add_random_rounds(&mut state.consumables, meteors, 2, ConsumableType::Planet, rng);
    mark_used(tags, TagId::MeteorTag);
    let ghost tags3 = tags@;
    proof {
        lemma_unused_after_mark(tags2, tags3, TagId::MeteorTag, TagId::EtherealTag);
        lemma_unused_after_mark(tags2, tags3, TagId::MeteorTag, TagId::BuffoonTag);
        lemma_unused_after_mark(tags2, tags3, TagId::MeteorTag, TagId::StandardTag);
    }
    let ghost items2 = state.consumables.items@;
    let ethereals = count_unused(tags, TagId::EtherealTag);
    add_random_rounds(&mut state.consumables, ethereals, 1, ConsumableType::Spectral, rng);
    mark_used(tags, TagId::EtherealTag);
    let ghost tags4 = tags@;
    proof {
        lemma_unused_after_mark(tags3, tags4, TagId::EtherealTag, TagId::BuffoonTag);
        lemma_unused_after_mark(tags3, tags4, TagId::EtherealTag, TagId::StandardTag);
    }

    // Buffoon: one random joker each.
    let buffoons = count_unused(tags, TagId::BuffoonTag);
    let all = JokerId::all_available();
    let ghost before_bf = added@;
    let mut b: usize = 0;
    while b < buffoons
        invariant
            b <= buffoons,
            all@ == available_jokers_upto(JOKER_COUNT as int),
            tu <= room,
            added@.len() == tu + (if b < room - tu { b as int } else { room - tu }),
            added@.subrange(0, tu as int) == before_bf.subrange(0, tu as int),
            before_bf.len() == tu,
            forall|i: int| 0 <= i < tu ==> offered_with_rarity(#[trigger] before_bf[i], 1),
            forall|i: int| tu <= i < added@.len() ==> all@.contains(#[trigger] added@[i]),
        decreases buffoons - b,
    {
        if added.len() < room && all.len() > 0 {
            let idx = gen_below(rng, all.len());
            let j = all[idx];
            let ghost prev = added@;
            added.push(j);
            proof {
                assert(all@[idx as int] == j);
                assert(added@.subrange(0, tu as int) =~= prev.subrange(0, tu as int));
                assert forall|i: int| tu <= i < added@.len() implies all@.contains(#[trigger] added@[i]) by {
                    if i < prev.len() {
                        assert(added@[i] == prev[i]);
                    }
                }
            }
        } else {
            proof {
                if all@.len() == 0 {
                    assert(false) by {
                        lemma_rarity_pools_nonempty(1);
                        lemma_rarity_pool_members(all@, 1, jokers_of_rarity(all@, 1)[0]);
                        assert(jokers_of_rarity(all@, 1).contains(jokers_of_rarity(all@, 1)[0]));
                    }
                }
            }
        }
        b = b + 1;
    }
    let ghost tags5a = tags@;
    mark_used(tags, TagId::BuffoonTag);
    proof {
        lemma_unused_after_mark(tags5a, tags@, TagId::BuffoonTag, TagId::StandardTag);
    }

    // Standard: three random playing cards each.
    let standards = count_unused(tags, TagId::StandardTag);
    proof {
        assert(deck0.subrange(0, deck0.len() as int) =~= deck0);
    }
    let ghost cons = state.consumables;
    let ghost hand0 = state.hand@;
    let ghost money0 = state.money;
    let mut s: usize = 0;
    while s < standards
        invariant
            s <= standards <= usize::MAX / 4,
            grown_by(deck0, state.deck@, 3 * s, 1, 13),
            state.consumables == cons,
            state.hand@ == hand0,
            state.money == money0,
        decreases standards - s,
    {
        let ghost before = state.deck@;
        add_random_cards(&mut state.deck, 3, 1, 13, rng);
        proof {
            lemma_grown_by_chain(deck0, before, state.deck@, 3 * s, 3, 1, 13);
        }
        s = s + 1;
    }
    mark_used(tags, TagId::StandardTag);
    proof {
        assert(added@ =~= added@.subrange(0, tu as int) + added@.subrange(tu as int, added@.len() as int));
        assert forall|i: int| 0 <= i < tu implies offered_with_rarity(#[trigger] added@[i], 1) by {
            assert(added@[i] == added@.subrange(0, tu as int)[i]);
            assert(before_bf[i] == before_bf.subrange(0, tu as int)[i]);
        }
        assert(topped_up(items0, items1, state.consumables.capacity as int, 2 * unused_tags(tags0, TagId::CharmTag), ConsumableType::Tarot));
        assert(topped_up(items1, items2, state.consumables.capacity as int, 2 * unused_tags(tags0, TagId::MeteorTag), ConsumableType::Planet));
    }
    added
}

// ---------------------------------------------------------------------------
// Money from jokers at the end of a round
// ---------------------------------------------------------------------------

/// Nines in `s`.
pub open spec fn nine_count(s: Seq<Card>) -> int
    decreases s.len(),
{
    if s.len() == 0 {
        0
    } else {
        nine_count(s.drop_last()) + if s.last().rank == 9 { 1int } else { 0int }
    }
}

/// End-of-round money of one joker: Banner $2 per discard left, Golden Joker $4, To the Moon
/// $1 with $5 or more held, Cloud Nine $1 per Nine in the deck, Rocket $1 plus its counter,
/// Satellite $1 per planet used, Delayed Gratification $2 when no discard was used.
pub open spec fn joker_money(
    j: JokerFacts,
    discards_left: int,
    money: int,
    nines: int,
    planets_used: int,
    discards_used: int,
) -> int {
    if !j.enabled {
        0
    } else {
        match j.id {
            JokerId::Banner => discards_left * 2,
            JokerId::GoldenJoker => 4,
            JokerId::ToTheMoon => if money >= 5 {
                1
            } else {
                0
            },
            JokerId::CloudNine | JokerId::Cloud9 => nines,
            JokerId::Rocket => 1 + j.counter,
            JokerId::Satellite => planets_used,
            JokerId::Delayed => if discards_used == 0 {
                2
            } else {
                0
            },
            _ => 0,
        }
    }
}

/// End-of-round money of a joker row.
pub open spec fn jokers_money(
    s: Seq<JokerFacts>,
    discards_left: int,
    money: int,
    nines: int,
    planets_used: int,
    discards_used: int,
) -> int
    decreases s.len(),
{
    if s.len() == 0 {
        0
    } else {
        jokers_money(s.drop_last(), discards_left, money, nines, planets_used, discards_used) + joker_money(
            s.last(),
            discards_left,
            money,
            nines,
            planets_used,
            discards_used,
        )
    }
}

impl RunCards {
    /// Money the jokers pay at the end of a round.
    pub fn calc_joker_money_bonus(
        &self,
        jokers: &[JokerFacts],
        discards_left: i32,
        planets_used_this_run: i32,
        discards_used_this_blind: i32,
    ) -> (r: i64)
        requires
            self.deck@.len() <= i64::MAX,
            forall|k: int|
                0 <= k <= jokers@.len() ==> i64::MIN <= #[trigger] jokers_money(
                    jokers@.take(k),
                    discards_left as int,
                    self.money as int,
                    nine_count(self.deck@),
                    planets_used_this_run as int,
                    discards_used_this_blind as int,
                ) <= i64::MAX,
        ensures
            r == jokers_money(
                jokers@,
                discards_left as int,
                self.money as int,
                nine_count(self.deck@),
                planets_used_this_run as int,
                discards_used_this_blind as int,
            ),
    {
        let mut nines: i64 = 0;
        let mut i: usize = 0;
        while i < self.deck.len()
            invariant
                i <= self.deck@.len() <= i64::MAX,
                nines == nine_count(self.deck@.take(i as int)),
                0 <= nines <= i,
            decreases self.deck@.len() - i,
        {
            proof {
                assert(self.deck@.take(i as int + 1).drop_last() =~= self.deck@.take(i as int));
            }
            if self.deck[i].rank == 9 {
                nines = nines + 1;
            }
            i = i + 1;
        }
        proof {
            assert(self.deck@.take(self.deck@.len() as int) =~= self.deck@);
        }
        let mut bonus: i64 = 0;
        let mut k: usize = 0;
        while k < jokers.len()
            invariant
                k <= jokers@.len(),
                nines == nine_count(self.deck@),
                bonus == jokers_money(
                    jokers@.take(k as int),
                    discards_left as int,
                    self.money as int,
                    nines as int,
                    planets_used_this_run as int,
                    discards_used_this_blind as int,
                ),
                forall|t: int|
                    0 <= t <= jokers@.len() ==> i64::MIN <= #[trigger] jokers_money(
                        jokers@.take(t),
                        discards_left as int,
                        self.money as int,
                        nine_count(self.deck@),
                        planets_used_this_run as int,
                        discards_used_this_blind as int,
                    ) <= i64::MAX,
            decreases jokers@.len() - k,
        {
            proof {
                assert(jokers@.take(k as int + 1).drop_last() =~= jokers@.take(k as int));
                assert(i64::MIN <= jokers_money(
                    jokers@.take(k as int + 1),
                    discards_left as int,
                    self.money as int,
                    nine_count(self.deck@),
                    planets_used_this_run as int,
                    discards_used_this_blind as int,
                ) <= i64::MAX);
            }
            let j = jokers[k];
            if j.enabled {
                match j.id {
                    JokerId::Banner => bonus = bonus + discards_left as i64 * 2,
                    JokerId::GoldenJoker => bonus = bonus + 4,
                    JokerId::ToTheMoon => {
                        if self.money >= 5 {
                            bonus = bonus + 1;
                        }
                    },
                    JokerId::CloudNine | JokerId::Cloud9 => bonus = bonus + nines,
                    JokerId::Rocket => bonus = bonus + (1 + j.counter as i64),
                    JokerId::Satellite => bonus = bonus + planets_used_this_run as i64,
                    JokerId::Delayed => {
                        if discards_used_this_blind == 0 {
                            bonus = bonus + 2;
                        }
                    },
                    _ => {},
                }
            }
            k = k + 1;
        }
        proof {
            assert(jokers@.take(jokers@.len() as int) =~= jokers@);
        }
        bonus
    }
}

// ---------------------------------------------------------------------------
// Boss blinds that move cards, and skipping a blind
// ---------------------------------------------------------------------------

/// Takes `count` random cards (at most the whole hand) out of the hand onto the discard pile.
fn discard_random(hand: &mut Vec<Card>, discarded: &mut Vec<Card>, count: usize, rng: &mut StdRng)
    requires
        count <= old(hand)@.len(),
    ensures
        final(hand)@.len() == old(hand)@.len() - count,
        final(discarded)@.len() == old(discarded)@.len() + count,
        final(discarded)@.subrange(0, old(discarded)@.len() as int) == old(discarded)@,
        final(hand)@.to_multiset().add(
            final(discarded)@.subrange(old(discarded)@.len() as int, final(discarded)@.len() as int).to_multiset(),
        ) == old(hand)@.to_multiset(),
{
    broadcast use vstd::seq_lib::group_to_multiset_ensures;

    let ghost h0 = hand@;
    let ghost d0 = discarded@;
    proof {
        assert(discarded@.subrange(0, d0.len() as int) =~= d0);
        assert(discarded@.subrange(d0.len() as int, discarded@.len() as int) =~= Seq::<Card>::empty());
        assert(hand@.to_multiset().add(Seq::<Card>::empty().to_multiset()) =~= h0.to_multiset());
    }
    let mut n: usize = 0;
    while n < count
        invariant
            n <= count <= h0.len(),
            hand@.len() == h0.len() - n,
            discarded@.len() == d0.len() + n,
            discarded@.subrange(0, d0.len() as int) == d0,
            hand@.to_multiset().add(discarded@.subrange(d0.len() as int, discarded@.len() as int).to_multiset())
                == h0.to_multiset(),
        decreases count - n,
    {
        let ghost before_hand = hand@;
        let ghost before_out = discarded@.subrange(d0.len() as int, discarded@.len() as int);
        let idx = gen_below(rng, hand.len());
        let card = hand.remove(idx);
        discarded.push(card);
        proof {
            let out = discarded@.subrange(d0.len() as int, discarded@.len() as int);
            assert(out =~= before_out.push(card));
            assert(discarded@.subrange(0, d0.len() as int) =~= d0);
            assert(hand@ == before_hand.remove(idx as int));
            vstd::seq_lib::to_multiset_remove(before_hand, idx as int);
            assert(hand@.to_multiset() == before_hand.to_multiset().remove(card));
            assert(before_hand.to_multiset().count(card) > 0) by {
                assert(before_hand[idx as int] == card);
                assert(before_hand.contains(card));
                vstd::seq_lib::to_multiset_contains(before_hand, card);
            }
            vstd::seq_lib::to_multiset_build(before_out, card);
            assert(out.to_multiset() == before_out.to_multiset().insert(card));
            assert(hand@.to_multiset().add(out.to_multiset()) =~= before_hand.to_multiset().add(
                before_out.to_multiset(),
            )) by {
                broadcast use vstd::multiset::group_multiset_axioms;

            }
        }
        n = n + 1;
    }
}

/// Moves the top `count` cards of the deck into the hand, in drawing order (fewer if the deck
/// runs out).
fn draw_cards(hand: &mut Vec<Card>, deck: &mut Vec<Card>, count: usize)
    ensures
        final(hand)@ == old(hand)@ + drawn(
            old(deck)@,
            if count <= old(deck)@.len() { count as int } else { old(deck)@.len() as int },
        ),
        final(deck)@ == old(deck)@.take(
            old(deck)@.len() - if count <= old(deck)@.len() { count as int } else { old(deck)@.len() as int },
        ),
{
    let ghost h0 = hand@;
    let ghost deck0 = deck@;
    let d: usize = if count <= deck.len() {
        count
    } else {
        deck.len()
    };
    proof {
        assert(h0 + drawn(deck0, 0) =~= h0);
        assert(deck0.take(deck0.len() as int) =~= deck0);
    }
    let mut k: usize = 0;
    while k < d
        invariant
            k <= d <= deck0.len(),
            deck@ == deck0.take(deck0.len() - k),
            hand@ == h0 + drawn(deck0, k as int),
        decreases d - k,
    {
        match deck.pop() {
            Some(card) => {
                proof {
                    assert(card == deck0[deck0.len() - 1 - k]);
                }
                hand.push(card);
            },
            None => {},
        }
        k = k + 1;
        proof {
            assert(deck@ =~= deck0.take(deck0.len() - k));
            assert(hand@ =~= h0 + drawn(deck0, k as int));
        }
    }
}

impl RunCards {
    /// The Hook: two random hand cards (fewer if the hand is smaller) go to the discard pile,
    /// then the hand is refilled from the top of the deck up to `hand_size`.
    pub fn apply_hook_discard(&mut self, hand_size: usize, rng: &mut StdRng)
        ensures
            ({
                let k = if old(self).hand@.len() < 2 { old(self).hand@.len() as int } else { 2 };
                let kept = old(self).hand@.len() - k;
                let d = refill_count(hand_size as int, kept, old(self).deck@.len() as int);
                &&& final(self).discarded@.len() == old(self).discarded@.len() + k
                &&& final(self).discarded@.subrange(0, old(self).discarded@.len() as int) == old(self).discarded@
                &&& final(self).hand@.take(kept).to_multiset().add(
                    final(self).discarded@.subrange(
                        old(self).discarded@.len() as int,
                        final(self).discarded@.len() as int,
                    ).to_multiset(),
                ) == old(self).hand@.to_multiset()
                &&& final(self).hand@.len() == kept + d
                &&& final(self).hand@.subrange(kept, final(self).hand@.len() as int) == drawn(old(self).deck@, d)
                &&& final(self).deck@ == old(self).deck@.take(old(self).deck@.len() - d)
            }),
            final(self).money == old(self).money,
            final(self).hand_levels == old(self).hand_levels,
            final(self).consumables == old(self).consumables,
    {
        let count: usize = if self.hand.len() < 2 {
            self.hand.len()
        } else {
            2
        };
        discard_random(&mut self.hand, &mut self.discarded, count, rng);
        let ghost mid = self.hand@;
        let want = if hand_size > self.hand.len() {
            hand_size - self.hand.len()
        } else {
            0
        };
        draw_cards(&mut self.hand, &mut self.deck, want);
        proof {
            assert(self.hand@.take(mid.len() as int) =~= mid);
            assert(self.hand@.subrange(mid.len() as int, self.hand@.len() as int) =~= drawn(
                old(self).deck@,
                refill_count(hand_size as int, mid.len() as int, old(self).deck@.len() as int),
            ));
        }
    }

    /// The Serpent: three cards are drawn from the top of the deck (fewer if it runs out),
    /// then three random hand cards (fewer if the hand is smaller) go to the discard pile.
    pub fn apply_serpent_effect(&mut self, rng: &mut StdRng)
        ensures
            ({
                let d = if 3 <= old(self).deck@.len() { 3int } else { old(self).deck@.len() as int };
                let full = old(self).hand@ + drawn(old(self).deck@, d);
                let k = if full.len() < 3 { full.len() as int } else { 3 };
                &&& final(self).deck@ == old(self).deck@.take(old(self).deck@.len() - d)
                &&& final(self).hand@.len() == full.len() - k
                &&& final(self).discarded@.len() == old(self).discarded@.len() + k
                &&& final(self).discarded@.subrange(0, old(self).discarded@.len() as int) == old(self).discarded@
                &&& final(self).hand@.to_multiset().add(
                    final(self).discarded@.subrange(
                        old(self).discarded@.len() as int,
                        final(self).discarded@.len() as int,
                    ).to_multiset(),
                ) == full.to_multiset()
            }),
            final(self).money == old(self).money,
            final(self).hand_levels == old(self).hand_levels,
            final(self).consumables == old(self).consumables,
    {
        draw_cards(&mut self.hand, &mut self.deck, 3);
        let count: usize = if self.hand.len() < 3 {
            self.hand.len()
        } else {
            3
        };
        discard_random(&mut self.hand, &mut self.discarded, count, rng);
    }
}

/// Where a run stands within an ante.
#[derive(Clone, Copy, Debug, PartialEq, Eq, Structural)]
pub struct BlindProgress {
    pub stage: Stage,
    pub blind_type: Option<BlindType>,
    pub boss_blind: Option<BossBlind>,
    pub ante: Ante,
}

/// The blind that comes after skipping: Big after Small, the Boss after Big, Small at the start.
pub open spec fn blind_after_skip(b: Option<BlindType>) -> BlindType {
    match b {
        Some(BlindType::Small) => BlindType::Big,
        Some(BlindType::Big) => BlindType::Boss,
        _ => BlindType::Small,
    }
}

/// Skips the current blind (not a Boss blind): a random tag is gained and its money paid at
/// once, the next blind comes up (a Boss blind gets a boss drawn for the ante) and the run
/// returns to blind selection. The tag comes back; a Boss blind cannot be skipped (none, and
/// nothing changes).
pub fn skip_blind(progress: &mut BlindProgress, money: &mut i64, tags: &mut Vec<Tag>, rng: &mut StdRng) -> (r: Option<Tag>)
    requires
        *old(money) <= i64::MAX - 25,
    ensures
        r is None <==> old(progress).blind_type == Some(BlindType::Boss),
        r is None ==> *final(progress) == *old(progress) && *final(money) == *old(money) && final(tags)@
            == old(tags)@,
        r matches Some(t) ==> {
            &&& !t.used
            &&& 0 <= tag_index(t.id) < TAG_COUNT
            &&& final(tags)@ == old(tags)@.push(t)
            &&& *final(money) == *old(money) + tag_money(t.id)
            &&& final(progress).blind_type == Some(blind_after_skip(old(progress).blind_type))
            &&& final(progress).stage == Stage::PreBlind
            &&& final(progress).ante == old(progress).ante
            &&& (blind_after_skip(old(progress).blind_type) == BlindType::Boss ==> (final(progress).boss_blind
                matches Some(b) && (if old(progress).ante == Ante::Eight {
                22 <= boss_index(b) < 27
            } else {
                0 <= boss_index(b) < 22
            })))
            &&& (blind_after_skip(old(progress).blind_type) != BlindType::Boss ==> final(progress).boss_blind
                == old(progress).boss_blind)
        },
{
    if progress.blind_type == Some(BlindType::Boss) {
        return None;
    }
    let tag_id = TagId::random(rng);
    let tag = Tag::new(tag_id);
    *money = *money + tag_id.immediate_money();
    tags.push(Tag::new(tag_id));
    let next = match progress.blind_type {
        Some(b) => match b.next() {
            Some(n) => n,
            None => BlindType::Small,
        },
        None => BlindType::Small,
    };
    if next == BlindType::Boss {
        progress.blind_type = Some(BlindType::Boss);
        progress.boss_blind = select_random_boss(progress.ante, rng);
    } else {
        progress.blind_type = Some(next);
    }
    progress.stage = Stage::PreBlind;
    Some(tag)
}

// ---------------------------------------------------------------------------
// Using a consumable during a blind
// ---------------------------------------------------------------------------

/// What the run counts about the consumables used.
#[derive(Clone, Copy, Debug, PartialEq, Eq, Structural)]
pub struct UsageCounters {
    /// Global index of the last consumable used.
    pub last_consumable_id: i32,
    /// Bit `h` set: a planet for hand type `h` was used.
    pub planet_used_hand_types: u16,
    pub planets_used_this_run: i32,
    pub tarots_used_this_run: i32,
}

/// A consumable can be used: its effect does not overflow and its counter has room.
pub open spec fn use_allowed(state: RunCards, counters: UsageCounters, c: Consumable, jokers: Seq<JokerFacts>) -> bool {
    match c {
        Consumable::Planet(p) => counters.planets_used_this_run < i32::MAX && state.hand_levels@[planet_hand_type(
            p,
        ) as int] < u32::MAX,
        Consumable::Tarot(t) => counters.tarots_used_this_run < i32::MAX && tarot_effect_allowed(state, t, jokers),
        Consumable::Spectral(s) => spectral_effect_allowed(state, s),
    }
}

/// Uses the consumable in slot `action_id`: a planet levels up its hand type, a tarot or
/// spectral card takes effect. Nothing happens (none) when the slot is empty; otherwise the
/// joker change asked for comes back.
pub fn execute_use_consumable_in_blind(
    state: &mut RunCards,
    counters: &mut UsageCounters,
    action_id: u32,
    jokers: &[JokerFacts],
    joker_slot_limit: usize,
    rng: &mut StdRng,
) -> (r: Option<JokerChange>)
    requires
        (action_id as int) < old(state).consumables.items@.len() ==> use_allowed(
            *old(state),
            *old(counters),
            old(state).consumables.items@[action_id as int],
            jokers@,
        ),
    ensures
        r is None <==> (action_id as int) >= old(state).consumables.items@.len(),
        r is None ==> *final(counters) == *old(counters) && final(state).consumables.items@ == old(
            state,
        ).consumables.items@ && final(state).consumables.capacity == old(state).consumables.capacity
            && final(state).hand@ == old(state).hand@ && final(state).deck@ == old(state).deck@
            && final(state).discarded@ == old(state).discarded@ && final(state).money == old(state).money
            && final(state).hand_levels@ == old(state).hand_levels@ && final(state).hand_size_modifier == old(
            state,
        ).hand_size_modifier && final(state).selected_mask == old(state).selected_mask
            && final(state).last_used_consumable == old(state).last_used_consumable,
        (action_id as int) < old(state).consumables.items@.len() ==> ({
            let used = old(state).consumables.items@[action_id as int];
            let left = old(state).consumables.items@.remove(action_id as int);
            let sel = selected_positions(old(state).selected_mask, old(state).hand@.len() as int);
            &&& final(counters).last_consumable_id == consumable_global_index(used)
            &&& final(state).consumables.capacity == old(state).consumables.capacity
            &&& final(state).selected_mask == old(state).selected_mask
            &&& final(state).discarded@ == old(state).discarded@
            &&& match used {
                Consumable::Planet(p) => {
                    &&& r == Some(JokerChange::Unchanged)
                    &&& final(state).hand_levels@ == old(state).hand_levels@.update(
                        planet_hand_type(p) as int,
                        (old(state).hand_levels@[planet_hand_type(p) as int] + 1) as u32,
                    )
                    &&& final(counters).planet_used_hand_types == (old(counters).planet_used_hand_types | (
                    1u16 << planet_hand_type(p) as u16))
                    &&& final(counters).planets_used_this_run == old(counters).planets_used_this_run + 1
                    &&& final(counters).tarots_used_this_run == old(counters).tarots_used_this_run
                    &&& final(state).consumables.items@ == left
                    &&& final(state).last_used_consumable == Some(used)
                    &&& final(state).hand@ == old(state).hand@
                    &&& final(state).deck@ == old(state).deck@
                    &&& final(state).money == old(state).money
                    &&& final(state).hand_size_modifier == old(state).hand_size_modifier
                },
                Consumable::Tarot(t) => {
                    &&& r matches Some(change) && tarot_joker_change(change, t, jokers@, joker_slot_limit as int)
                    &&& final(counters).tarots_used_this_run == old(counters).tarots_used_this_run + 1
                    &&& final(counters).planets_used_this_run == old(counters).planets_used_this_run
                    &&& final(counters).planet_used_hand_types == old(counters).planet_used_hand_types
                    &&& final(state).hand@ == tarot_hand(old(state).hand@, sel, t)
                    &&& final(state).money == tarot_money(old(state).money as int, t, jokers@)
                    &&& tarot_consumables(
                        left,
                        final(state).consumables.items@,
                        old(state).consumables.capacity as int,
                        t,
                        old(state).last_used_consumable,
                    )
                    &&& final(state).last_used_consumable == if t == TarotId::TheFool {
                        old(state).last_used_consumable
                    } else {
                        Some(used)
                    }
                    &&& final(state).deck@ == old(state).deck@
                    &&& final(state).hand_levels@ == old(state).hand_levels@
                    &&& final(state).hand_size_modifier == old(state).hand_size_modifier
                },
                Consumable::Spectral(s) => {
                    &&& r matches Some(change) && spectral_joker_change(change, s, jokers@, joker_slot_limit as int)
                    &&& final(counters).tarots_used_this_run == old(counters).tarots_used_this_run
                    &&& final(counters).planets_used_this_run == old(counters).planets_used_this_run
                    &&& final(counters).planet_used_hand_types == old(counters).planet_used_hand_types
                    &&& spectral_hand(old(state).hand@, sel, s, final(state).hand@)
                    &&& spectral_deck(old(state).hand@, old(state).deck@, sel, s, final(state).deck@)
                    &&& final(state).money == spectral_money(old(state).money as int, s)
                    &&& final(state).hand_size_modifier == spectral_hand_size(old(state).hand_size_modifier as int, s)
                    &&& final(state).consumables.items@ == left
                    &&& final(state).last_used_consumable == Some(used)
                },
            }
        }),
{
    let index = action_id as usize;
    match state.consumables.use_item(index) {
        None => None,
        Some(consumable) => {
            counters.last_consumable_id = consumable.to_global_index() as i32;
            match consumable {
                Consumable::Planet(planet_id) => {
                    let hand_type_idx = planet_id.hand_type_index();
                    state.hand_levels.upgrade(hand_type_idx);
                    counters.planet_used_hand_types = counters.planet_used_hand_types | (1u16
                        << hand_type_idx as u16);
                    counters.planets_used_this_run = counters.planets_used_this_run + 1;
                    state.last_used_consumable = Some(consumable);
                    Some(JokerChange::Unchanged)
                },
                Consumable::Tarot(tarot_id) => {
                    counters.tarots_used_this_run = counters.tarots_used_this_run + 1;
                    Some(execute_tarot_effect(state, tarot_id, &consumable, jokers, joker_slot_limit, rng))
                },
                Consumable::Spectral(spectral_id) => {
                    Some(execute_spectral_effect(state, spectral_id, &consumable, jokers, joker_slot_limit, rng))
                },
            }
        },
    }
}

impl RunCards {
    /// The cards of a new run with the standard deck: 52 cards in order, nothing in hand or
    /// discarded, the starting money, empty consumable slots and every hand at level 1.
    pub fn new() -> (r: RunCards)
        ensures
            r.deck@.len() == 52,
            forall|i: int|
                0 <= i < 52 ==> #[trigger] card_index_of(r.deck@[i]) == i && r.deck@[i] == plain_card(
                    r.deck@[i].rank,
                    r.deck@[i].suit,
                ),
            r.hand@.len() == 0,
            r.discarded@.len() == 0,
            r.selected_mask == 0,
            r.money == STARTING_MONEY,
            r.consumables.items@.len() == 0,
            r.consumables.capacity == CONSUMABLE_SLOTS,
            r.hand_levels@.len() == HAND_LEVEL_SLOTS,
            forall|h: int| 0 <= h < HAND_LEVEL_SLOTS ==> #[trigger] r.hand_levels@[h] == 1,
            r.hand_size_modifier == 0,
            r.last_used_consumable is None,
    {
        RunCards {
            hand: Vec::new(),
            deck: standard_deck(),
            discarded: Vec::new(),
            selected_mask: 0,
            money: STARTING_MONEY,
            consumables: ConsumableSlots::new(),
            hand_levels: HandLevels::new(),
            hand_size_modifier: 0,
            last_used_consumable: None,
        }
    }

    /// The cards of a new run with a starting deck: the deck's cards, nothing in hand or
    /// discarded, the deck's starting money, empty consumable slots and every hand at level 1.
    pub fn new_with_config(deck_type: DeckType, rng: &mut StdRng) -> (r: RunCards)
        ensures
            deck_type == DeckType::Abandoned ==> r.deck@ == abandoned_cards(),
            deck_type == DeckType::Checkered ==> r.deck@ == checkered_cards(),
            deck_type != DeckType::Abandoned && deck_type != DeckType::Checkered ==> r.deck@.len() == 52,
            r.hand@.len() == 0,
            r.discarded@.len() == 0,
            r.selected_mask == 0,
            r.money == STARTING_MONEY + deck_money_mod(deck_type),
            r.consumables.items@.len() == 0,
            r.consumables.capacity == CONSUMABLE_SLOTS,
            r.hand_levels@.len() == HAND_LEVEL_SLOTS,
            forall|h: int| 0 <= h < HAND_LEVEL_SLOTS ==> #[trigger] r.hand_levels@[h] == 1,
            r.hand_size_modifier == 0,
            r.last_used_consumable is None,
    {
        let config = DeckConfig::from_deck_type(deck_type);
        RunCards {
            hand: Vec::new(),
            deck: deck_type.create_deck(rng),
            discarded: Vec::new(),
            selected_mask: 0,
            money: config.starting_money,
            consumables: ConsumableSlots::new(),
            hand_levels: HandLevels::new(),
            hand_size_modifier: 0,
            last_used_consumable: None,
        }
    }
}

} // verus!
