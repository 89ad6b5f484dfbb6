//! The stage machine of a run: choosing a blind, selecting, playing and discarding cards,
//! clearing or losing the blind, cashing out, and buying and selling in the shop. Each action
//! moves the run from one state to the next; the score of a played hand, which needs
//! fractional multipliers, is handed in by the caller.

use vstd::prelude::*;

use rand::rngs::StdRng;

use crate::blinds::{BlindType, BossBlind, GameEnd, Stage};
use crate::cards::{Card, Edition, Enhancement, Seal};
use crate::constants::{
    ACTION_TYPE_BUY_JOKER, ACTION_TYPE_CASH_OUT, ACTION_TYPE_DISCARD, ACTION_TYPE_NEXT_ROUND,
    ACTION_TYPE_PLAY, ACTION_TYPE_REROLL, ACTION_TYPE_SELECT, ACTION_TYPE_SELECT_BLIND,
    ACTION_TYPE_SELL_JOKER, ACTION_TYPE_SKIP_BLIND, ACTION_TYPE_USE_CONSUMABLE, ACTION_TYPE_BUY_VOUCHER, ACTION_TYPE_BUY_PACK, DISCARDS_PER_BLIND, HAND_SIZE, MAX_SELECTED,
    MAX_STEPS, PLAYS_PER_BLIND, SHOP_JOKER_COUNT,
};
use crate::joker::JokerId;
use crate::run_state::{
    drawn, lemma_discard_keeps_cards, refill_count, unmasked_cards,
    glass_positions, select_random_boss, selected_indices, selected_positions, skip_blind,
    without_positions, AnteProgress, BlindProgress, JokerFacts, RunCards,
};
use crate::service::masked_cards;
use crate::shop::{reroll_shop, Shop, ShopItem};
use crate::stakes::{stake_discard_mod, stake_hand_mod, Stake};
use crate::tags::{Tag, TagId};
use crate::service::{booster_pack_kind, BoosterPack};
use crate::packs::{pack_pick_count, PackContents, PackItem};
use crate::shop::refresh_shop;
use crate::run_state::{effective_joker_slot_limit, execute_tag_effects, execute_use_consumable_in_blind, use_allowed, JokerChange, UsageCounters};
use crate::joker::{available_jokers_upto, joker_base_cost, jokers_of_rarity, JOKER_COUNT};
use crate::rng::gen_below;
use crate::vouchers::{can_buy, VoucherEffects, VoucherId};
use crate::blinds::{ante_number, blind_reward, Ante};
use crate::consumables::{lowered, planet_hand_type, Consumable, ConsumableSlots, HandLevels, PlanetId, SpectralId, TarotId, HAND_LEVEL_SLOTS};
use crate::decks::{deck_disables_interest, deck_money_per_hand, DeckType};
use crate::run_state::{gold_count, jokers_money, nine_count};
use crate::stakes::stake_small_reward;

verus! {

// ---------------------------------------------------------------------------
// Counting jokers and cards
// ---------------------------------------------------------------------------

/// Enabled jokers of the row with identity `id`.
pub open spec fn enabled_count(jokers: Seq<JokerFacts>, id: JokerId) -> int
    decreases jokers.len(),
{
    if jokers.len() == 0 {
        0
    } else {
        enabled_count(jokers.drop_last(), id) + if jokers.last().enabled && jokers.last().id == id {
            1int
        } else {
            0int
        }
    }
}

/// Number of enabled jokers with identity `id`.
pub fn count_enabled(jokers: &[JokerFacts], id: JokerId) -> (r: usize)
    ensures
        r == enabled_count(jokers@, id),
        r <= jokers@.len(),
{
    let mut r: usize = 0;
    let mut i: usize = 0;
    while i < jokers.len()
        invariant
            i <= jokers@.len(),
            r == enabled_count(jokers@.take(i as int), id),
            r <= i,
        decreases jokers@.len() - i,
    {
        proof {
            assert(jokers@.take(i as int + 1).drop_last() =~= jokers@.take(i as int));
        }
        if jokers[i].enabled && jokers[i].id == id {
            r = r + 1;
        }
        i = i + 1;
    }
    proof {
        assert(jokers@.take(jokers@.len() as int) =~= jokers@);
    }
    r
}

/// Cards of `s` that meet `p`.
pub open spec fn cards_where(s: Seq<Card>, p: spec_fn(Card) -> bool) -> int
    decreases s.len(),
{
    if s.len() == 0 {
        0
    } else {
        cards_where(s.drop_last(), p) + if p(s.last()) { 1int } else { 0int }
    }
}

/// Cards of rank 9.
pub open spec fn is_nine() -> spec_fn(Card) -> bool {
    |c: Card| c.rank == 9
}

/// Gold cards.
pub open spec fn is_gold_card() -> spec_fn(Card) -> bool {
    |c: Card| c.enhancement == Enhancement::Gold
}

/// Cards with a gold seal.
pub open spec fn has_gold_seal() -> spec_fn(Card) -> bool {
    |c: Card| c.seal == Seal::Gold
}

proof fn lemma_cards_where_bounds(s: Seq<Card>, p: spec_fn(Card) -> bool)
    ensures
        0 <= cards_where(s, p) <= s.len(),
    decreases s.len(),
{
    if s.len() > 0 {
        lemma_cards_where_bounds(s.drop_last(), p);
    }
}

/// Cards of `cards` that are nines, gold cards, or carry a gold seal, by `which` (0, 1, 2).
fn count_cards(cards: &[Card], which: u8) -> (r: usize)
    requires
        which < 3,
    ensures
        r == cards_where(
            cards@,
            if which == 0 { is_nine() } else if which == 1 { is_gold_card() } else { has_gold_seal() },
        ),
        r <= cards@.len(),
{
    let ghost p = if which == 0 { is_nine() } else if which == 1 { is_gold_card() } else { has_gold_seal() };
    let mut r: usize = 0;
    let mut i: usize = 0;
    while i < cards.len()
        invariant
            which < 3,
            p == (if which == 0 { is_nine() } else if which == 1 { is_gold_card() } else { has_gold_seal() }),
            i <= cards@.len(),
            r == cards_where(cards@.take(i as int), p),
            r <= i,
        decreases cards@.len() - i,
    {
        proof {
            assert(cards@.take(i as int + 1).drop_last() =~= cards@.take(i as int));
        }
        let c = cards[i];
        let hit = if which == 0 {
            c.rank == 9
        } else if which == 1 {
            c.enhancement == Enhancement::Gold
        } else {
            c.seal == Seal::Gold
        };
        if hit {
            r = r + 1;
        }
        i = i + 1;
    }
    proof {
        assert(cards@.take(cards@.len() as int) =~= cards@);
    }
    r
}

// ---------------------------------------------------------------------------
// The counters of a blind
// ---------------------------------------------------------------------------

/// Hands, discards and score of the blind being played.
#[derive(Clone, Copy, Debug, PartialEq, Eq, Structural)]
pub struct BlindRound {
    pub plays_left: i32,
    pub discards_left: i32,
    pub score: i64,
    pub hands_played: i32,
    pub discards_used: i32,
    /// Money waiting to be cashed out once the blind is cleared.
    pub reward: i64,
}

/// Hands a blind starts with before jokers: the boss's cap, or the usual four.
pub open spec fn base_plays(boss: Option<BossBlind>) -> int {
    match boss {
        Some(BossBlind::TheNeedle) => 1,
        Some(BossBlind::Crimson) => PLAYS_PER_BLIND - 1,
        _ => PLAYS_PER_BLIND as int,
    }
}

/// Hands and discards of a new blind: the boss's hands, changed by the stake (Gold Stake
/// one hand less) and the vouchers (`extra_hands`), less one per Troubadour (at least one
/// stays), then three more per Burglar; three discards, changed by the stake (Blue Stake and
/// above one less) and the vouchers (`extra_discards`), one more per Drunkard, and none at
/// all with a Burglar.
pub open spec fn allowance(
    boss: Option<BossBlind>,
    jokers: Seq<JokerFacts>,
    stake: Stake,
    extra_hands: int,
    extra_discards: int,
) -> (int, int) {
    let drunk = enabled_count(jokers, JokerId::Drunkard);
    let troub = enabled_count(jokers, JokerId::Troubadour);
    let burglar = enabled_count(jokers, JokerId::Burglar);
    let base = base_plays(boss) + stake_hand_mod(stake) + extra_hands;
    let plays = if base - troub >= 1 { base - troub } else { 1 };
    if burglar > 0 {
        (plays + 3 * burglar, 0)
    } else {
        (plays, DISCARDS_PER_BLIND + stake_discard_mod(stake) + extra_discards + drunk)
    }
}

/// Hands and discards that a blind with boss `boss` starts with under the stake, the voucher
/// extras and the jokers.
pub fn blind_allowance(
    boss: Option<BossBlind>,
    jokers: &[JokerFacts],
    stake: Stake,
    extra_hands: i32,
    extra_discards: i32,
) -> (r: (i32, i32))
    requires
        jokers@.len() <= 100_000_000,
        -1_000_000 <= extra_hands <= 1_000_000,
        -1_000_000 <= extra_discards <= 1_000_000,
    ensures
        r.0 == allowance(boss, jokers@, stake, extra_hands as int, extra_discards as int).0,
        r.1 == allowance(boss, jokers@, stake, extra_hands as int, extra_discards as int).1,
        r.0 >= 1,
{
    let base: i32 = match boss {
        Some(b) => match b.max_plays() {
            Some(p) => p,
            None => PLAYS_PER_BLIND,
        },
        None => PLAYS_PER_BLIND,
    } + stake.hand_modifier() + extra_hands;
    let drunk = count_enabled(jokers, JokerId::Drunkard) as i32;
    let troub = count_enabled(jokers, JokerId::Troubadour) as i32;
    let burglar = count_enabled(jokers, JokerId::Burglar) as i32;
    let mut discards: i32 = DISCARDS_PER_BLIND + stake.discard_modifier() + extra_discards + drunk;
    let mut plays: i32 = if base - troub >= 1 { base - troub } else { 1 };
    if burglar > 0 {
        plays = plays + 3 * burglar;
        discards = 0;
    }
    (plays, discards)
}

// ---------------------------------------------------------------------------
// Selecting cards
// ---------------------------------------------------------------------------

/// The hand positions an action picks: its low eight bits.
pub open spec fn picked_mask(action_id: u32) -> u32 {
    action_id & 255u32
}

/// Marks the cards picked by `action_id` (the low eight bits, one per hand position) as
/// selected, if at most five are picked; otherwise the selection stays as it was.
pub fn select_cards(cards: &mut RunCards, action_id: u32)
    ensures
        selected_positions(picked_mask(action_id), HAND_SIZE as int).len() <= MAX_SELECTED
            ==> final(cards).selected_mask == picked_mask(action_id),
        selected_positions(picked_mask(action_id), HAND_SIZE as int).len() > MAX_SELECTED
            ==> final(cards).selected_mask == old(cards).selected_mask,
        final(cards).hand@ == old(cards).hand@,
        final(cards).deck@ == old(cards).deck@,
        final(cards).discarded@ == old(cards).discarded@,
        final(cards).money == old(cards).money,
{
    let mask = action_id & 255u32;
    let picked = selected_indices(HAND_SIZE, mask);
    if picked.len() <= MAX_SELECTED {
        cards.selected_mask = mask;
    }
}

// ---------------------------------------------------------------------------
// Playing and discarding
// ---------------------------------------------------------------------------

/// What the caller worked out for the selected cards before they are played: the score the
/// hand makes, the money it earns, which of the selected cards are glass that broke (by
/// their turn among the selected cards), the score the blind asks for, and the reward
/// for clearing it.
#[derive(Clone, Debug)]
pub struct PlayedHand {
    /// Index of the hand type the cards make.
    pub hand_type: usize,
    pub score: i64,
    pub money: i64,
    pub glass: Vec<usize>,
    pub required: i64,
    pub reward: i64,
    /// Seltzer retriggers the scoring used.
    pub selzer_used: i32,
}

/// How playing a hand ended.
#[derive(Clone, Copy, Debug, PartialEq, Eq, Structural)]
pub enum PlayOutcome {
    /// Nothing was played: no hands left, nothing selected, or The Psychic wants five cards.
    Ignored,
    /// The score reached what the blind asks for.
    Cleared,
    /// The last hand was played without reaching it.
    Lost,
    /// Hands remain; a new hand was dealt.
    Continued,
}

/// Number of selected cards in the hand.
pub open spec fn selected_count(cards: RunCards) -> int {
    selected_positions(cards.selected_mask, cards.hand@.len() as int).len() as int
}

/// A hand can be played: a hand is left, cards are selected, and under The Psychic exactly
/// five of them.
pub open spec fn play_allowed(round: BlindRound, cards: RunCards, boss: Option<BossBlind>) -> bool {
    &&& round.plays_left > 0
    &&& cards.selected_mask > 0
    &&& !(boss == Some(BossBlind::ThePsychic) && selected_count(cards) != 5)
}

/// Money after a hand is played: The Ox takes $1 (not below zero) when the hand type is the
/// one it names, the ante's number less one.
pub open spec fn money_after_ox(money: int, boss: Option<BossBlind>, hand_type: int, ante: Ante) -> int {
    if boss == Some(BossBlind::TheOx) && hand_type == ante_number(ante) - 1 {
        if money - 1 > 0 { money - 1 } else { 0 }
    } else {
        money
    }
}

/// The hand after the played cards were changed (see `hand_after_play`) and the broken glass
/// cards among the selected ones are gone.
pub open spec fn hand_after_glass(cards: RunCards, glass: Seq<usize>, jokers: Seq<JokerFacts>) -> Seq<Card> {
    without_positions(
        hand_after_play(cards.hand@, cards.selected_mask, jokers),
        glass_positions(selected_positions(cards.selected_mask, cards.hand@.len() as int), glass),
    )
}

/// A hand card after its hand is played: when selected, Midas Mask turns a face card gold,
/// then Vampire takes away any enhancement, and each Hiker adds 2 chips for good.
pub open spec fn after_play_card(c: Card, selected: bool, midas: bool, vampire: bool, hikers: int) -> Card {
    if !selected {
        c
    } else {
        let c1 = if midas && crate::cards::is_face_rank(c.rank) {
            Card { enhancement: Enhancement::Gold, ..c }
        } else {
            c
        };
        let c2 = if vampire && c1.enhancement != Enhancement::NoEnhancement {
            Card { enhancement: Enhancement::NoEnhancement, ..c1 }
        } else {
            c1
        };
        Card { bonus_chips: (c2.bonus_chips + 2 * hikers) as i64, ..c2 }
    }
}

/// The hand after its selected cards were played, before broken glass leaves.
pub open spec fn hand_after_play(hand: Seq<Card>, mask: u32, jokers: Seq<JokerFacts>) -> Seq<Card> {
    Seq::new(
        hand.len(),
        |i: int|
            after_play_card(
                hand[i],
                crate::service::bit_set(mask, i as u32),
                enabled_count(jokers, JokerId::MidasMask) > 0,
                enabled_count(jokers, JokerId::Vampire) > 0,
                enabled_count(jokers, JokerId::Hiker),
            ),
    )
}

/// Hand cards whose chip bonus leaves room for Hiker.
pub open spec fn hand_bonus_in_range(hand: Seq<Card>) -> bool {
    forall|i: int| 0 <= i < hand.len() ==> -1_000_000_000_000 <= #[trigger] hand[i].bonus_chips <= 1_000_000_000_000
}

fn played_card_effects(hand: &mut Vec<Card>, mask: u32, jokers: &[JokerFacts])
    requires
        old(hand)@.len() <= 32,
        jokers@.len() <= 1_000_000,
        hand_bonus_in_range(old(hand)@),
    ensures
        final(hand)@ == hand_after_play(old(hand)@, mask, jokers@),
{
    let midas = count_enabled(jokers, JokerId::MidasMask) > 0;
    let vampire = count_enabled(jokers, JokerId::Vampire) > 0;
    let hikers = count_enabled(jokers, JokerId::Hiker) as i64;
    let ghost start = hand@;
    let mut i: usize = 0;
    while i < hand.len()
        invariant
            i <= hand@.len() == start.len() <= 32,
            hand_bonus_in_range(start),
            0 <= hikers <= 1_000_000,
            midas == (enabled_count(jokers@, JokerId::MidasMask) > 0),
            vampire == (enabled_count(jokers@, JokerId::Vampire) > 0),
            hikers == enabled_count(jokers@, JokerId::Hiker),
            forall|k: int|
                0 <= k < i ==> #[trigger] hand@[k] == after_play_card(
                    start[k],
                    crate::service::bit_set(mask, k as u32),
                    midas,
                    vampire,
                    hikers as int,
                ),
            forall|k: int| i <= k < start.len() ==> #[trigger] hand@[k] == start[k],
        decreases start.len() - i,
    {
        let sh = i as u32;
        let selected = ((mask >> sh) & 1) == 1;
        if selected {
            let mut c = hand[i];
            if midas && c.is_face() {
                c.enhancement = Enhancement::Gold;
            }
            if vampire && c.enhancement != Enhancement::NoEnhancement {
                c.enhancement = Enhancement::NoEnhancement;
            }
            c.bonus_chips = c.bonus_chips + 2 * hikers;
            hand.set(i, c);
        }
        i = i + 1;
    }
    assert(hand@ =~= hand_after_play(start, mask, jokers@));
}

/// Hand levels with `k` more levels for hand type `t` (other slots ignored).
pub open spec fn levels_raised(l: Seq<u32>, t: int, k: int) -> Seq<u32> {
    if 0 <= t < HAND_LEVEL_SLOTS {
        l.update(t, (l[t] + k) as u32)
    } else {
        l
    }
}

/// Hand levels after The Arm lowers hand type `t` (only under The Arm).
pub open spec fn arm_levels(l: Seq<u32>, boss: Option<BossBlind>, t: int) -> Seq<u32> {
    if boss == Some(BossBlind::TheArm) && 0 <= t < HAND_LEVEL_SLOTS {
        l.update(t, lowered(l[t]))
    } else {
        l
    }
}

/// Space Joker: each enabled one raises the played hand type's level with chance 1 in 4.
fn space_upgrades(levels: &mut HandLevels, t: usize, count: usize, rng: &mut StdRng)
    requires
        t < HAND_LEVEL_SLOTS ==> old(levels)@[t as int] + count <= u32::MAX,
    ensures
        exists|k: int| 0 <= k <= count && final(levels)@ == #[trigger] levels_raised(old(levels)@, t as int, k),
{
    let ghost start = levels@;
    let ghost mut k: int = 0;
    let mut i: usize = 0;
    proof {
        levels.lemma_slot_count();
        assert(levels@ =~= levels_raised(start, t as int, 0));
    }
    while i < count
        invariant
            i <= count,
            0 <= k <= i,
            t < HAND_LEVEL_SLOTS ==> start[t as int] + count <= u32::MAX,
            levels@ == levels_raised(start, t as int, k),
            levels@.len() == start.len() == HAND_LEVEL_SLOTS,
        decreases count - i,
    {
        if crate::rng::gen_below(rng, 4) == 0 {
            levels.upgrade(t);
            proof {
                k = k + 1;
                assert(levels@ =~= levels_raised(start, t as int, k));
            }
        }
        i = i + 1;
    }
}

/// The length of a row of consumables of length `len` and capacity `cap` after `count` tries
/// to add one.
pub open spec fn filled_len(len: int, cap: int, count: int) -> int {
    if len >= cap {
        len
    } else if len + count <= cap {
        len + count
    } else {
        cap
    }
}

/// Adds `count` random tarot cards (or spectral cards) while a slot is free.
fn add_random_consumables(slots: &mut ConsumableSlots, count: usize, spectral: bool, rng: &mut StdRng)
    ensures
        final(slots).capacity == old(slots).capacity,
        final(slots).items@.len() == filled_len(
            old(slots).items@.len() as int,
            old(slots).capacity as int,
            count as int,
        ),
        final(slots).items@.subrange(0, old(slots).items@.len() as int) == old(slots).items@,
        forall|k: int|
            old(slots).items@.len() <= k < final(slots).items@.len() ==> if spectral {
                #[trigger] final(slots).items@[k] is Spectral
            } else {
                final(slots).items@[k] is Tarot
            },
{
    let ghost start = slots.items@;
    let mut i: usize = 0;
    while i < count
        invariant
            i <= count,
            slots.capacity == old(slots).capacity,
            start == old(slots).items@,
            slots.items@.len() == filled_len(start.len() as int, slots.capacity as int, i as int),
            slots.items@.subrange(0, start.len() as int) == start,
            forall|k: int|
                start.len() <= k < slots.items@.len() ==> if spectral {
                    #[trigger] slots.items@[k] is Spectral
                } else {
                    slots.items@[k] is Tarot
                },
        decreases count - i,
    {
        let ghost before = slots.items@;
        let c = if spectral {
            Consumable::Spectral(SpectralId::random(rng))
        } else {
            Consumable::Tarot(TarotId::random(rng))
        };
        let added = slots.add(c);
        proof {
            if added {
                assert(slots.items@.subrange(0, start.len() as int) =~= before.subrange(0, start.len() as int));
                assert(slots.items@[before.len() as int] == c);
            }
        }
        i = i + 1;
    }
}

/// Whether a card of the rank is among `s`.
pub open spec fn has_rank(s: Seq<Card>, rank: u8) -> bool {
    exists|k: int| 0 <= k < s.len() && (#[trigger] s[k]).rank == rank
}

fn contains_rank(cards: &[Card], rank: u8) -> (r: bool)
    ensures
        r == has_rank(cards@, rank),
{
    let mut i: usize = 0;
    while i < cards.len()
        invariant
            i <= cards@.len(),
            forall|k: int| 0 <= k < i ==> (#[trigger] cards@[k]).rank != rank,
        decreases cards@.len() - i,
    {
        if cards[i].rank == rank {
            return true;
        }
        i = i + 1;
    }
    false
}

/// Tarot cards a played hand brings: one per Vagabond when four cards or fewer are played,
/// one per 8 Ball when an 8 is among them.
pub open spec fn hand_tarots(cards: RunCards, jokers: Seq<JokerFacts>) -> int {
    (if selected_count(cards) <= 4 { enabled_count(jokers, JokerId::Vagabond) } else { 0 }) + if has_rank(
        masked_cards(cards.hand@, cards.selected_mask, cards.hand@.len() as int),
        8,
    ) {
        enabled_count(jokers, JokerId::EightBall)
    } else {
        0
    }
}

/// Spectral cards a played hand brings: one per Séance on a Straight Flush or Royal Flush.
pub open spec fn hand_spectrals(hand_type: int, jokers: Seq<JokerFacts>) -> int {
    if hand_type == 8 || hand_type == 9 {
        enabled_count(jokers, JokerId::Seance)
    } else {
        0
    }
}

/// What the jokers bring as a hand is played, before The Arm acts: each Space Joker may
/// raise the hand type's level, then the tarot cards of `hand_tarots` and the spectral cards
/// of `hand_spectrals` join the consumables while slots are free. Nothing else changes.
fn hand_played_rewards(
    cards: &mut RunCards,
    jokers: &[JokerFacts],
    hand_type: usize,
    played_count: usize,
    rng: &mut StdRng,
)
    requires
        old(cards).hand@.len() <= 32,
        jokers@.len() <= 1_000_000,
        played_count == selected_count(*old(cards)),
        hand_type < HAND_LEVEL_SLOTS ==> old(cards).hand_levels@[hand_type as int] + jokers@.len() <= u32::MAX,
    ensures
        *final(cards) == (RunCards {
            hand_levels: final(cards).hand_levels,
            consumables: final(cards).consumables,
            ..*old(cards)
        }),
        exists|k: int|
            0 <= k <= enabled_count(jokers@, JokerId::SpaceJoker) && final(cards).hand_levels@
                == #[trigger] levels_raised(old(cards).hand_levels@, hand_type as int, k),
        ({
            let old_len = old(cards).consumables.items@.len() as int;
            let cap = old(cards).consumables.capacity as int;
            let mid = filled_len(old_len, cap, hand_tarots(*old(cards), jokers@));
            &&& final(cards).consumables.capacity == old(cards).consumables.capacity
            &&& final(cards).consumables.items@.len() == filled_len(mid, cap, hand_spectrals(hand_type as int, jokers@))
            &&& final(cards).consumables.items@.subrange(0, old_len) == old(cards).consumables.items@
            &&& forall|k: int| old_len <= k < mid ==> (#[trigger] final(cards).consumables.items@[k]) is Tarot
            &&& forall|k: int| mid <= k < final(cards).consumables.items@.len() ==> (
                #[trigger] final(cards).consumables.items@[k]) is Spectral
        }),
{
    let spaces = count_enabled(jokers, JokerId::SpaceJoker);
    space_upgrades(&mut cards.hand_levels, hand_type, spaces, rng);
    let chosen = crate::service::build_selected_hand(&cards.hand, cards.selected_mask);
    let vagabonds = if played_count <= 4 { count_enabled(jokers, JokerId::Vagabond) } else { 0 };
    let eight_balls = if contains_rank(&chosen, 8) { count_enabled(jokers, JokerId::EightBall) } else { 0 };
    add_random_consumables(&mut cards.consumables, vagabonds + eight_balls, false, rng);
    let ghost items1 = cards.consumables.items@;
    let seances = if hand_type == 8 || hand_type == 9 { count_enabled(jokers, JokerId::Seance) } else { 0 };
    add_random_consumables(&mut cards.consumables, seances, true, rng);
    proof {
        assert forall|k: int| old(cards).consumables.items@.len() <= k < items1.len() implies (
        #[trigger] cards.consumables.items@[k]) is Tarot by {
            assert(cards.consumables.items@.subrange(0, items1.len() as int)[k] == items1[k]);
        }
        assert(cards.consumables.items@.subrange(0, old(cards).consumables.items@.len() as int) =~= old(
            cards,
        ).consumables.items@);
    }
}

/// Seltzer's ten retriggers: its counter holds the ones used so far.
pub const SELZER_CHARGES: i32 = 10;

/// The position of the first enabled Seltzer, or -1.
pub open spec fn first_selzer(jokers: Seq<JokerFacts>, upto: int) -> int
    decreases upto,
{
    if upto <= 0 {
        -1
    } else if first_selzer(jokers, upto - 1) >= 0 {
        first_selzer(jokers, upto - 1)
    } else if jokers[upto - 1].enabled && jokers[upto - 1].id == JokerId::Selzer {
        upto - 1
    } else {
        -1
    }
}

/// Seltzer after `used` more of its retriggers: it is used up at ten.
pub open spec fn selzer_after(j: JokerFacts, used: int) -> JokerFacts {
    JokerFacts { counter: (j.counter + used) as i32, enabled: j.counter + used < SELZER_CHARGES, ..j }
}

proof fn lemma_first_selzer(jokers: Seq<JokerFacts>, upto: int)
    requires
        0 <= upto <= jokers.len(),
    ensures
        -1 <= first_selzer(jokers, upto) < upto,
        first_selzer(jokers, upto) >= 0 ==> jokers[first_selzer(jokers, upto)].id == JokerId::Selzer,
    decreases upto,
{
    if upto > 0 {
        lemma_first_selzer(jokers, upto - 1);
    }
}

/// The first enabled Seltzer counts the retriggers it gave; at ten it is used up.
fn use_selzer(jokers: &mut Vec<JokerFacts>, used: i32)
    requires
        0 < used <= 1_000_000,
        counters_in_range(old(jokers)@),
    ensures
        final(jokers)@ == if first_selzer(old(jokers)@, old(jokers)@.len() as int) >= 0 {
            let t = first_selzer(old(jokers)@, old(jokers)@.len() as int);
            old(jokers)@.update(t, selzer_after(old(jokers)@[t], used as int))
        } else {
            old(jokers)@
        },
{
    let mut i: usize = 0;
    while i < jokers.len()
        invariant
            i <= jokers@.len(),
            jokers@ == old(jokers)@,
            counters_in_range(jokers@),
            0 < used <= 1_000_000,
            first_selzer(jokers@, i as int) == -1,
        decreases jokers@.len() - i,
    {
        if jokers[i].enabled && jokers[i].id == JokerId::Selzer {
            proof {
                lemma_first_selzer_from(jokers@, i as int, jokers@.len() as int);
            }
            let mut j = jokers[i];
            j.counter = j.counter + used;
            if j.counter >= SELZER_CHARGES {
                j.enabled = false;
            }
            jokers.set(i, j);
            return;
        }
        i = i + 1;
    }
    proof {
        assert(first_selzer(old(jokers)@, old(jokers)@.len() as int) == -1);
    }
}

/// Rows that agree on which jokers are enabled and what they are have the same first
/// Seltzer.
proof fn lemma_first_selzer_same(a: Seq<JokerFacts>, b: Seq<JokerFacts>, upto: int)
    requires
        0 <= upto <= a.len() == b.len(),
        forall|k: int| 0 <= k < a.len() ==> (#[trigger] a[k]).enabled == b[k].enabled && a[k].id == b[k].id,
    ensures
        first_selzer(a, upto) == first_selzer(b, upto),
    decreases upto,
{
    if upto > 0 {
        lemma_first_selzer_same(a, b, upto - 1);
        assert(a[upto - 1].enabled == b[upto - 1].enabled && a[upto - 1].id == b[upto - 1].id);
    }
}

/// When no Seltzer is enabled below `i` and the one at `i` is, it is the first up to any
/// later position.
proof fn lemma_first_selzer_from(jokers: Seq<JokerFacts>, i: int, upto: int)
    requires
        0 <= i < upto <= jokers.len(),
        first_selzer(jokers, i) == -1,
        jokers[i].enabled && jokers[i].id == JokerId::Selzer,
    ensures
        first_selzer(jokers, upto) == i,
    decreases upto - i,
{
    if upto > i + 1 {
        lemma_first_selzer_from(jokers, i, upto - 1);
    }
}

/// A To Do List whose target (kept in its counter) is the hand type played.
pub open spec fn todo_hit(j: JokerFacts, hand_type: int) -> bool {
    j.enabled && j.id == JokerId::ToDoList && j.counter == hand_type
}

/// The To Do Lists whose target is the hand type played.
pub open spec fn todo_hits(jokers: Seq<JokerFacts>, hand_type: int) -> int
    decreases jokers.len(),
{
    if jokers.len() == 0 {
        0
    } else {
        todo_hits(jokers.drop_last(), hand_type) + if todo_hit(jokers.last(), hand_type) { 1int } else { 0int }
    }
}

proof fn lemma_todo_hits_bound(jokers: Seq<JokerFacts>, hand_type: int)
    ensures
        0 <= todo_hits(jokers, hand_type) <= jokers.len(),
    decreases jokers.len(),
{
    if jokers.len() > 0 {
        lemma_todo_hits_bound(jokers.drop_last(), hand_type);
    }
}

/// To Do List: each one whose target is the hand type played pays $4 and draws a new target
/// among the 13 hand types; the row is otherwise unchanged.
fn todo_list_payout(jokers: &mut Vec<JokerFacts>, hand_type: usize, rng: &mut StdRng) -> (r: usize)
    ensures
        r == todo_hits(old(jokers)@, hand_type as int),
        r <= old(jokers)@.len(),
        final(jokers)@.len() == old(jokers)@.len(),
        forall|k: int|
            0 <= k < old(jokers)@.len() ==> if todo_hit(old(jokers)@[k], hand_type as int) {
                &&& (#[trigger] final(jokers)@[k]) == (JokerFacts { counter: final(jokers)@[k].counter, ..old(jokers)@[k] })
                &&& 0 <= final(jokers)@[k].counter < 13
            } else {
                final(jokers)@[k] == old(jokers)@[k]
            },
{
    let ghost start = jokers@;
    let mut r: usize = 0;
    let mut i: usize = 0;
    while i < jokers.len()
        invariant
            i <= jokers@.len() == start.len(),
            r == todo_hits(start.take(i as int), hand_type as int),
            r <= i,
            forall|k: int|
                0 <= k < i ==> if todo_hit(start[k], hand_type as int) {
                    &&& (#[trigger] jokers@[k]) == (JokerFacts { counter: jokers@[k].counter, ..start[k] })
                    &&& 0 <= jokers@[k].counter < 13
                } else {
                    jokers@[k] == start[k]
                },
            forall|k: int| i <= k < start.len() ==> #[trigger] jokers@[k] == start[k],
        decreases start.len() - i,
    {
        proof {
            assert(start.take(i as int + 1).drop_last() =~= start.take(i as int));
        }
        let j = jokers[i];
        if j.enabled && j.id == JokerId::ToDoList && j.counter >= 0 && j.counter as usize == hand_type {
            let mut hit = j;
            hit.counter = crate::rng::gen_below(rng, 13) as i32;
            jokers.set(i, hit);
            r = r + 1;
        }
        i = i + 1;
    }
    proof {
        assert(start.take(start.len() as int) =~= start);
    }
    r
}

/// The joker row after a hand of type `hand_type`: To Do Lists aiming at it pay and draw a
/// new target (the number of them is returned), and the first Seltzer counts the retriggers
/// it gave.
fn jokers_after_hand(jokers: &mut Vec<JokerFacts>, hand_type: usize, selzer_used: i32, rng: &mut StdRng) -> (r: usize)
    requires
        counters_in_range(old(jokers)@),
        0 <= selzer_used <= 1_000_000,
    ensures
        r == todo_hits(old(jokers)@, hand_type as int),
        r <= old(jokers)@.len(),
        final(jokers)@.len() == old(jokers)@.len(),
        forall|k: int|
            0 <= k < old(jokers)@.len() ==> if todo_hit(old(jokers)@[k], hand_type as int) {
                &&& (#[trigger] final(jokers)@[k]) == (JokerFacts { counter: final(jokers)@[k].counter, ..old(jokers)@[k] })
                &&& 0 <= final(jokers)@[k].counter < 13
            } else if selzer_used > 0 && k == first_selzer(old(jokers)@, old(jokers)@.len() as int) {
                final(jokers)@[k] == selzer_after(old(jokers)@[k], selzer_used as int)
            } else {
                final(jokers)@[k] == old(jokers)@[k]
            },
{
    let ghost jokers0 = jokers@;
    let todo = todo_list_payout(jokers, hand_type, rng);
    if selzer_used > 0 {
        let ghost jokers1 = jokers@;
        proof {
            assert forall|k: int| 0 <= k < jokers1.len() implies (#[trigger] jokers1[k]).enabled == jokers0[k].enabled
                && jokers1[k].id == jokers0[k].id && -1_000_000_000 <= jokers1[k].counter <= 1_000_000_000 by {
                if todo_hit(jokers0[k], hand_type as int) {
                    assert(jokers1[k] == (JokerFacts { counter: jokers1[k].counter, ..jokers0[k] }));
                }
            }
            lemma_first_selzer_same(jokers0, jokers1, jokers0.len() as int);
            lemma_first_selzer(jokers0, jokers0.len() as int);
        }
        use_selzer(jokers, selzer_used);
    }
    todo
}


/// Plays the selected cards: the hand's score and money are added, a hand is used up, each
/// Space Joker may raise the hand type's level, The Arm lowers it, The Ox may take $1,
/// Vagabond and 8 Ball bring tarot cards and Séance spectral cards (see `hand_tarots`,
/// `hand_spectrals`) while slots are free, Midas Mask, Vampire and Hiker change
/// the played cards (see `hand_after_play`), To Do Lists aiming at the hand type pay $4 and
/// draw a new target, the first Seltzer counts the retriggers it gave (see
/// `jokers_after_hand`), and the broken glass cards leave the hand. Reaching the required
/// score clears the blind (its
/// reward is kept for the cash-out); otherwise the last hand loses the run, and any other
/// deals a new hand (The Serpent and The Hook then act). Nothing is selected afterwards.
#[verifier::spinoff_prover]
#[verifier::rlimit(50)]
pub fn play_hand(
    stage: &mut Stage,
    boss: Option<BossBlind>,
    ante: Ante,
    round: &mut BlindRound,
    cards: &mut RunCards,
    jokers: &mut Vec<JokerFacts>,
    play: &PlayedHand,
    hand_size: usize,
    rng: &mut StdRng,
) -> (r: PlayOutcome)
    requires
        old(cards).hand@.len() <= 32,
        old(jokers)@.len() <= 1_000_000,
        counters_in_range(old(jokers)@),
        hand_bonus_in_range(old(cards).hand@),
        play_allowed(*old(round), *old(cards), boss) ==> {
            &&& i64::MIN <= old(round).score + play.score <= i64::MAX
            &&& i64::MIN <= old(cards).money + play.money
            &&& old(cards).money + play.money + 4 * old(jokers)@.len() <= i64::MAX
            &&& old(round).hands_played < i32::MAX
            &&& 0 <= play.selzer_used <= 1_000_000
            &&& (play.hand_type < HAND_LEVEL_SLOTS ==> old(cards).hand_levels@[play.hand_type as int]
                + old(jokers)@.len() <= u32::MAX)
        },
    ensures
        !play_allowed(*old(round), *old(cards), boss) ==> r == PlayOutcome::Ignored && *final(stage)
            == *old(stage) && *final(round) == *old(round) && *final(cards) == *old(cards) && *final(rng)
            == *old(rng) && final(jokers)@ == old(jokers)@,
        play_allowed(*old(round), *old(cards), boss) ==> {
            &&& final(round).plays_left == old(round).plays_left - 1
            &&& final(round).hands_played == old(round).hands_played + 1
            &&& final(round).score == old(round).score + play.score
            &&& final(round).discards_left == old(round).discards_left
            &&& final(round).discards_used == old(round).discards_used
            &&& final(cards).money == money_after_ox(old(cards).money + play.money, boss, play.hand_type as int, ante)
                + 4 * todo_hits(old(jokers)@, play.hand_type as int)
            &&& final(jokers)@.len() == old(jokers)@.len()
            &&& forall|k: int|
                0 <= k < old(jokers)@.len() ==> if todo_hit(old(jokers)@[k], play.hand_type as int) {
                    &&& (#[trigger] final(jokers)@[k]) == (JokerFacts { counter: final(jokers)@[k].counter, ..old(jokers)@[k] })
                    &&& 0 <= final(jokers)@[k].counter < 13
                } else if play.selzer_used > 0 && k == first_selzer(old(jokers)@, old(jokers)@.len() as int) {
                    final(jokers)@[k] == selzer_after(old(jokers)@[k], play.selzer_used as int)
                } else {
                    final(jokers)@[k] == old(jokers)@[k]
                }
            &&& final(cards).selected_mask == 0
            &&& exists|k: int|
                0 <= k <= enabled_count(old(jokers)@, JokerId::SpaceJoker) && final(cards).hand_levels@ == arm_levels(
                    #[trigger] levels_raised(old(cards).hand_levels@, play.hand_type as int, k),
                    boss,
                    play.hand_type as int,
                )
            &&& ({
                let old_len = old(cards).consumables.items@.len() as int;
                let cap = old(cards).consumables.capacity as int;
                let mid = filled_len(old_len, cap, hand_tarots(*old(cards), old(jokers)@));
                &&& final(cards).consumables.capacity == old(cards).consumables.capacity
                &&& final(cards).consumables.items@.len() == filled_len(mid, cap, hand_spectrals(play.hand_type as int, old(jokers)@))
                &&& final(cards).consumables.items@.subrange(0, old_len) == old(cards).consumables.items@
                &&& forall|k: int| old_len <= k < mid ==> (#[trigger] final(cards).consumables.items@[k]) is Tarot
                &&& forall|k: int| mid <= k < final(cards).consumables.items@.len() ==> (
                    #[trigger] final(cards).consumables.items@[k]) is Spectral
            })
            &&& (final(round).score >= play.required ==> {
                &&& r == PlayOutcome::Cleared
                &&& *final(stage) == Stage::PostBlind
                &&& final(round).reward == play.reward
                &&& final(cards).hand@ == hand_after_glass(*old(cards), play.glass@, old(jokers)@)
                &&& final(cards).deck@ == old(cards).deck@
            })
            &&& (final(round).score < play.required && final(round).plays_left == 0 ==> {
                &&& r == PlayOutcome::Lost
                &&& *final(stage) == Stage::End(GameEnd::Lose)
                &&& final(round).reward == old(round).reward
                &&& final(cards).hand@ == hand_after_glass(*old(cards), play.glass@, old(jokers)@)
            })
            &&& (final(round).score < play.required && final(round).plays_left > 0 ==> {
                &&& r == PlayOutcome::Continued
                &&& *final(stage) == *old(stage)
                &&& final(round).reward == old(round).reward
                &&& (boss != Some(BossBlind::TheSerpent) && boss != Some(BossBlind::TheHook) ==> {
                    let all = old(cards).deck@ + hand_after_glass(*old(cards), play.glass@, old(jokers)@) + old(
                        cards,
                    ).discarded@;
                    &&& (final(cards).hand@ + final(cards).deck@).to_multiset() == all.to_multiset()
                    &&& final(cards).hand@.len() == if hand_size <= all.len() { hand_size as int } else { all.len() as int }
                    &&& final(cards).discarded@.len() == 0
                })
            })
        },
{
    if round.plays_left <= 0 || cards.selected_mask == 0 {
        return PlayOutcome::Ignored;
    }
    let picked = selected_indices(cards.hand.len(), cards.selected_mask);
    let psychic = match boss {
        Some(b) => b.requires_five_cards(),
        None => false,
    };
    if psychic && picked.len() != 5 {
        return PlayOutcome::Ignored;
    }
    round.score = round.score + play.score;
    round.plays_left = round.plays_left - 1;
    round.hands_played = round.hands_played + 1;
    cards.money = cards.money + play.money;
    let ghost levels0 = cards.hand_levels@;
    hand_played_rewards(cards, jokers, play.hand_type, picked.len(), rng);
    let ghost levels1 = cards.hand_levels@;
    if boss == Some(BossBlind::TheArm) {
        cards.hand_levels.downgrade(play.hand_type);
    }
    proof {
        let k = choose|k: int|
            0 <= k <= enabled_count(old(jokers)@, JokerId::SpaceJoker) && levels1 == #[trigger] levels_raised(
                levels0,
                play.hand_type as int,
                k,
            );
        assert(cards.hand_levels@ == arm_levels(levels_raised(levels0, play.hand_type as int, k), boss, play.hand_type as int));
    }
    let ante_hand = ante.to_int();
    if boss == Some(BossBlind::TheOx) && ante_hand >= 1 && play.hand_type == (ante_hand - 1) as usize {
        cards.money = if cards.money > 1 { cards.money - 1 } else { 0 };
    }
    let mask = cards.selected_mask;
    played_card_effects(&mut cards.hand, mask, jokers);
    let todo = jokers_after_hand(jokers, play.hand_type, play.selzer_used, rng);
    cards.money = cards.money + 4 * todo as i64;
    cards.break_glass_cards(mask, &play.glass);
    let outcome = if round.score >= play.required {
        round.reward = play.reward;
        *stage = Stage::PostBlind;
        PlayOutcome::Cleared
    } else if round.plays_left == 0 {
        *stage = Stage::End(GameEnd::Lose);
        PlayOutcome::Lost
    } else {
        cards.deal(hand_size, rng);
        if boss == Some(BossBlind::TheSerpent) {
            cards.apply_serpent_effect(rng);
        }
        if boss == Some(BossBlind::TheHook) {
            cards.apply_hook_discard(hand_size, rng);
        }
        PlayOutcome::Continued
    };
    cards.selected_mask = 0;
    outcome
}

/// Discards the selected cards, if a discard is left and cards are selected: they go to the
/// discard pile, the hand is refilled up to `hand_size`, a discard is used up and nothing is
/// selected afterwards. Tells how many cards were discarded (none when nothing happened).
pub fn discard(round: &mut BlindRound, cards: &mut RunCards, hand_size: usize) -> (r: Option<usize>)
    requires
        old(cards).hand@.len() <= 32,
        old(round).discards_used < i32::MAX,
    ensures
        !(old(round).discards_left > 0 && old(cards).selected_mask > 0) ==> r is None && *final(round)
            == *old(round) && *final(cards) == *old(cards),
        old(round).discards_left > 0 && old(cards).selected_mask > 0 ==> {
            let hand = old(cards).hand@;
            let mask = old(cards).selected_mask;
            let kept = unmasked_cards(hand, mask, hand.len() as int);
            let d = refill_count(hand_size as int, kept.len() as int, old(cards).deck@.len() as int);
            &&& r == Some(mask_bits(mask) as usize)
            &&& 0 <= mask_bits(mask) <= 32
            &&& final(round).discards_left == old(round).discards_left - 1
            &&& final(round).discards_used == old(round).discards_used + 1
            &&& final(round).plays_left == old(round).plays_left
            &&& final(round).score == old(round).score
            &&& final(round).hands_played == old(round).hands_played
            &&& final(round).reward == old(round).reward
            &&& final(cards).discarded@ == old(cards).discarded@ + masked_cards(hand, mask, hand.len() as int)
            &&& final(cards).hand@ == kept + drawn(old(cards).deck@, d)
            &&& final(cards).deck@ == old(cards).deck@.take(old(cards).deck@.len() - d)
            &&& (final(cards).hand@ + final(cards).deck@ + final(cards).discarded@).to_multiset() == (hand + old(
                cards,
            ).deck@ + old(cards).discarded@).to_multiset()
            &&& final(cards).selected_mask == 0
            &&& final(cards).money == old(cards).money
        },
{
    if round.discards_left <= 0 || cards.selected_mask == 0 {
        return None;
    }
    let mask = cards.selected_mask;
    let ghost hand0 = cards.hand@;
    let ghost deck0 = cards.deck@;
    let ghost disc0 = cards.discarded@;
    let _purple = cards.discard_with_seals(mask, hand_size);
    proof {
        lemma_discard_keeps_cards(hand0, deck0, disc0, mask, hand_size as int);
    }
    round.discards_left = round.discards_left - 1;
    round.discards_used = round.discards_used + 1;
    cards.selected_mask = 0;
    let count = selected_indices(32, mask).len();
    proof {
        lemma_selected_positions_len(mask, 32);
    }
    Some(count)
}

/// Number of bits set in a mask.
pub open spec fn mask_bits(mask: u32) -> int {
    selected_positions(mask, 32).len() as int
}

proof fn lemma_selected_positions_len(mask: u32, n: int)
    ensures
        selected_positions(mask, n).len() <= if n < 0 { 0 } else { n },
    decreases n,
{
    if n > 0 {
        lemma_selected_positions_len(mask, n - 1);
    }
}

// ---------------------------------------------------------------------------
// Scoring the played cards
// ---------------------------------------------------------------------------

/// Whether the boss disables a suit.
pub open spec fn suit_disabled(boss: Option<BossBlind>, suit: u8) -> bool {
    match boss {
        Some(b) => (b == BossBlind::TheClub && suit == 0) || (b == BossBlind::TheDiamond && suit == 1) || (b
            == BossBlind::TheHeart && suit == 2) || (b == BossBlind::TheSpade && suit == 3),
        None => false,
    }
}

/// A played card scores: it is face up, its suit is not disabled by the boss (a Wild card
/// keeps scoring), it is not a face card under The Plant, and it is not a Heart after the
/// first hand under The Head.
pub open spec fn card_scores(c: Card, boss: Option<BossBlind>, first_hand: bool) -> bool {
    &&& !c.face_down
    &&& !(suit_disabled(boss, c.suit) && c.enhancement != Enhancement::Wild)
    &&& !(boss == Some(BossBlind::ThePlant) && crate::cards::is_face_rank(c.rank))
    &&& !(boss == Some(BossBlind::TheHead) && c.suit == 2 && !first_hand)
}

/// Scoring cards among `s`.
pub open spec fn scoring_count(s: Seq<Card>, boss: Option<BossBlind>, first_hand: bool) -> int
    decreases s.len(),
{
    if s.len() == 0 {
        0
    } else {
        scoring_count(s.drop_last(), boss, first_hand) + if card_scores(s.last(), boss, first_hand) { 1int } else { 0int }
    }
}

/// How often the last card of `s` counts: not at all unless it scores; twice with a red
/// seal; once more while Seltzer has charges left (one per scoring card, in order).
pub open spec fn last_triggers(s: Seq<Card>, boss: Option<BossBlind>, first_hand: bool, selzer: int) -> int {
    let c = s.last();
    if !card_scores(c, boss, first_hand) {
        0
    } else {
        (if c.seal == Seal::Red { 2int } else { 1int }) + if scoring_count(s.drop_last(), boss, first_hand) < selzer {
            1int
        } else {
            0int
        }
    }
}

/// Chips the played cards add: each card's chips once per time it counts.
pub open spec fn cards_chips(s: Seq<Card>, boss: Option<BossBlind>, first_hand: bool, selzer: int) -> int
    decreases s.len(),
{
    if s.len() == 0 {
        0
    } else {
        cards_chips(s.drop_last(), boss, first_hand, selzer) + last_triggers(s, boss, first_hand, selzer)
            * crate::cards::card_chips(s.last())
    }
}

/// Mult the played cards add (Lucky cards' chances aside): each card's mult once per time it
/// counts.
pub open spec fn cards_mult(s: Seq<Card>, boss: Option<BossBlind>, first_hand: bool, selzer: int) -> int
    decreases s.len(),
{
    if s.len() == 0 {
        0
    } else {
        cards_mult(s.drop_last(), boss, first_hand, selzer) + last_triggers(s, boss, first_hand, selzer)
            * crate::cards::card_add_mult(s.last())
    }
}

/// Times a card with enhancement `e` counts among the played cards.
pub open spec fn enhanced_triggers(s: Seq<Card>, boss: Option<BossBlind>, first_hand: bool, selzer: int, e: Enhancement) -> int
    decreases s.len(),
{
    if s.len() == 0 {
        0
    } else {
        enhanced_triggers(s.drop_last(), boss, first_hand, selzer, e) + if s.last().enhancement == e {
            last_triggers(s, boss, first_hand, selzer)
        } else {
            0int
        }
    }
}

/// $3 per scoring card with a gold seal.
pub open spec fn gold_seal_money(s: Seq<Card>, boss: Option<BossBlind>, first_hand: bool) -> int
    decreases s.len(),
{
    if s.len() == 0 {
        0
    } else {
        gold_seal_money(s.drop_last(), boss, first_hand) + if card_scores(s.last(), boss, first_hand) && s.last().seal
            == Seal::Gold {
            3int
        } else {
            0int
        }
    }
}

/// What the played cards add to a hand's score.
#[derive(Clone, Debug)]
pub struct CardTotals {
    pub chips: i64,
    pub mult: i64,
    /// Money from gold seals and Lucky cards.
    pub money: i64,
    /// Glass cards that broke, by their position among the played cards (once per break).
    pub glass_to_break: Vec<usize>,
    pub selzer_used: i32,
    /// Lucky cards' chances that came up.
    pub lucky_triggers: i32,
}

/// The random draws of one count of a card: a Lucky card's chance of +20 mult (1 in 5) and
/// of +$20 (1 in 15), a Glass card's chance to break (1 in 4).
fn card_draws(c: Card, rng: &mut StdRng) -> (r: (bool, bool, bool))
    ensures
        c.enhancement != Enhancement::Lucky ==> !r.0 && !r.1,
        c.enhancement != Enhancement::Glass ==> !r.2,
{
    let mut lucky_mult = false;
    let mut lucky_money = false;
    let mut broke = false;
    if c.enhancement == Enhancement::Lucky {
        if crate::rng::gen_below(rng, 5) == 0 {
            lucky_mult = true;
        }
        if crate::rng::gen_below(rng, 15) == 0 {
            lucky_money = true;
        }
    }
    if c.enhancement == Enhancement::Glass {
        if crate::rng::gen_below(rng, 4) == 0 {
            broke = true;
        }
    }
    (lucky_mult, lucky_money, broke)
}

/// Played cards within range: few enough, with chip bonuses that keep the sums in range.
pub open spec fn cards_in_range(s: Seq<Card>) -> bool {
    &&& s.len() <= 32
    &&& forall|i: int| 0 <= i < s.len() ==> -1_000_000_000_000 <= #[trigger] s[i].bonus_chips <= 1_000_000_000_000
}

proof fn lemma_card_sums_bounds(s: Seq<Card>, boss: Option<BossBlind>, first_hand: bool, selzer: int)
    requires
        cards_in_range(s),
    ensures
        -4_000_000_000_000 * s.len() <= cards_chips(s, boss, first_hand, selzer) <= 4_000_000_000_000 * s.len(),
        0 <= cards_mult(s, boss, first_hand, selzer) <= 42 * s.len(),
        0 <= enhanced_triggers(s, boss, first_hand, selzer, Enhancement::Lucky) <= 3 * s.len(),
        0 <= enhanced_triggers(s, boss, first_hand, selzer, Enhancement::Glass) <= 3 * s.len(),
        0 <= gold_seal_money(s, boss, first_hand) <= 3 * s.len(),
        0 <= scoring_count(s, boss, first_hand) <= s.len(),
    decreases s.len(),
{
    if s.len() > 0 {
        assert(cards_in_range(s.drop_last()));
        lemma_card_sums_bounds(s.drop_last(), boss, first_hand, selzer);
        let t = last_triggers(s, boss, first_hand, selzer);
        let cc = crate::cards::card_chips(s.last());
        assert(0 <= t <= 3);
        assert(-1_000_000_000_000 <= cc <= 1_000_000_001_000);
        assert(-3_000_000_000_000 <= t * cc <= 3_000_000_003_000) by (nonlinear_arith)
            requires
                0 <= t <= 3,
                -1_000_000_000_000 <= cc <= 1_000_000_001_000,
        ;
        let am = crate::cards::card_add_mult(s.last());
        assert(0 <= t * am <= 42) by (nonlinear_arith)
            requires
                0 <= t <= 3,
                0 <= am <= 14,
        ;
    }
}

/// Scores the played cards in order: each scoring card (see `card_scores`) adds its chips and
/// mult once per time it counts (see `last_triggers`), a Lucky card may add +20 mult or +$20
/// each time, a Glass card may break each time, and a gold seal pays $3 once.
#[verifier::spinoff_prover]
pub fn score_cards(selected: &[Card], boss: Option<BossBlind>, first_hand: bool, selzer_charges: i32, rng: &mut StdRng) -> (r: CardTotals)
    requires
        cards_in_range(selected@),
    ensures
        r.chips == cards_chips(selected@, boss, first_hand, selzer_charges as int),
        cards_mult(selected@, boss, first_hand, selzer_charges as int) <= r.mult,
        r.mult <= cards_mult(selected@, boss, first_hand, selzer_charges as int) + 20 * enhanced_triggers(
            selected@,
            boss,
            first_hand,
            selzer_charges as int,
            Enhancement::Lucky,
        ),
        gold_seal_money(selected@, boss, first_hand) <= r.money,
        r.money <= gold_seal_money(selected@, boss, first_hand) + 20 * enhanced_triggers(
            selected@,
            boss,
            first_hand,
            selzer_charges as int,
            Enhancement::Lucky,
        ),
        20 * r.lucky_triggers == (r.mult - cards_mult(selected@, boss, first_hand, selzer_charges as int)) + (r.money
            - gold_seal_money(selected@, boss, first_hand)),
        r.selzer_used == if selzer_charges <= 0 {
            0
        } else if scoring_count(selected@, boss, first_hand) < selzer_charges {
            scoring_count(selected@, boss, first_hand)
        } else {
            selzer_charges as int
        },
        r.glass_to_break@.len() <= enhanced_triggers(selected@, boss, first_hand, selzer_charges as int, Enhancement::Glass),
        forall|k: int|
            0 <= k < r.glass_to_break@.len() ==> {
                let g = #[trigger] r.glass_to_break@[k];
                &&& g < selected@.len()
                &&& selected@[g as int].enhancement == Enhancement::Glass
                &&& card_scores(selected@[g as int], boss, first_hand)
            },
{
    let ghost s = selected@;
    let ghost sel = selzer_charges as int;
    let mut tot = CardTotals { chips: 0, mult: 0, money: 0, glass_to_break: Vec::new(), selzer_used: 0, lucky_triggers: 0 };
    let mut selzer_left: i32 = selzer_charges;
    let ghost mut m1: int = 0;
    let ghost mut m2: int = 0;
    let mut idx: usize = 0;
    proof {
        lemma_card_sums_bounds(s, boss, first_hand, sel);
    }
    while idx < selected.len()
        invariant
            s == selected@,
            sel == selzer_charges as int,
            cards_in_range(s),
            idx <= s.len(),
            tot.chips == cards_chips(s.take(idx as int), boss, first_hand, sel),
            tot.mult == cards_mult(s.take(idx as int), boss, first_hand, sel) + 20 * m1,
            tot.money == gold_seal_money(s.take(idx as int), boss, first_hand) + 20 * m2,
            0 <= m1 <= enhanced_triggers(s.take(idx as int), boss, first_hand, sel, Enhancement::Lucky),
            0 <= m2 <= enhanced_triggers(s.take(idx as int), boss, first_hand, sel, Enhancement::Lucky),
            tot.lucky_triggers == m1 + m2,
            tot.selzer_used == if sel <= 0 {
                0
            } else if scoring_count(s.take(idx as int), boss, first_hand) < sel {
                scoring_count(s.take(idx as int), boss, first_hand)
            } else {
                sel
            },
            selzer_left == if sel <= 0 { sel } else { sel - tot.selzer_used },
            tot.glass_to_break@.len() <= enhanced_triggers(s.take(idx as int), boss, first_hand, sel, Enhancement::Glass),
            forall|k: int|
                0 <= k < tot.glass_to_break@.len() ==> {
                    let g = #[trigger] tot.glass_to_break@[k];
                    &&& g < s.len()
                    &&& s[g as int].enhancement == Enhancement::Glass
                    &&& card_scores(s[g as int], boss, first_hand)
                },
        decreases s.len() - idx,
    {
        let ghost prefix = s.take(idx as int);
        let ghost next = s.take(idx as int + 1);
        proof {
            assert(next.drop_last() =~= prefix);
            assert(next.last() == s[idx as int]);
            assert(cards_in_range(next));
            lemma_card_sums_bounds(next, boss, first_hand, sel);
            lemma_card_sums_bounds(prefix, boss, first_hand, sel);
        }
        let c = selected[idx];
        let suit_off = match boss {
            Some(b) => b.disables_suit(c.suit),
            None => false,
        };
        let plant = boss == Some(BossBlind::ThePlant) && c.is_face();
        let head = boss == Some(BossBlind::TheHead) && c.suit == 2 && !first_hand;
        let scores = !c.face_down && !(suit_off && c.enhancement != Enhancement::Wild) && !plant && !head;
        proof {
            assert(suit_off == suit_disabled(boss, c.suit));
            assert(scores == card_scores(c, boss, first_hand));
            assert(scoring_count(next, boss, first_hand) == scoring_count(prefix, boss, first_hand) + if scores {
                1int
            } else {
                0int
            });
        }
        proof {
            assert((selzer_left > 0) == (sel > 0 && scoring_count(prefix, boss, first_hand) < sel));
        }
        if scores {
            let mut triggers: i64 = if c.seal == Seal::Red { 2 } else { 1 };
            if selzer_left > 0 {
                triggers = triggers + 1;
                selzer_left = selzer_left - 1;
                tot.selzer_used = tot.selzer_used + 1;
            }
            assert(triggers == last_triggers(next, boss, first_hand, sel));
            let cc = c.chips();
            let am = c.add_mult();
            let mut t: i64 = 0;
            let ghost used_before = tot.selzer_used;
            while t < triggers
                invariant
                    0 <= t <= triggers <= 3,
                    tot.selzer_used == used_before,
                    s == selected@,
                    idx < s.len(),
                    cc == crate::cards::card_chips(c),
                    am == crate::cards::card_add_mult(c),
                    c == s[idx as int],
                    card_scores(c, boss, first_hand),
                    -1_000_000_000_000 <= cc <= 1_000_000_001_000,
                    0 <= am <= 14,
                    tot.chips == cards_chips(prefix, boss, first_hand, sel) + t * cc,
                    tot.mult == cards_mult(prefix, boss, first_hand, sel) + t * am + 20 * m1,
                    tot.money == gold_seal_money(prefix, boss, first_hand) + 20 * m2,
                    0 <= m1 <= enhanced_triggers(prefix, boss, first_hand, sel, Enhancement::Lucky) + if c.enhancement
                        == Enhancement::Lucky { t } else { 0 },
                    0 <= m2 <= enhanced_triggers(prefix, boss, first_hand, sel, Enhancement::Lucky) + if c.enhancement
                        == Enhancement::Lucky { t } else { 0 },
                    tot.lucky_triggers == m1 + m2,
                    -4_000_000_000_000 * 32 <= cards_chips(prefix, boss, first_hand, sel) <= 4_000_000_000_000 * 32,
                    0 <= cards_mult(prefix, boss, first_hand, sel) <= 42 * 32,
                    0 <= gold_seal_money(prefix, boss, first_hand) <= 96,
                    0 <= enhanced_triggers(prefix, boss, first_hand, sel, Enhancement::Lucky) <= 96,
                    tot.glass_to_break@.len() <= enhanced_triggers(prefix, boss, first_hand, sel, Enhancement::Glass)
                        + if c.enhancement == Enhancement::Glass { t } else { 0 },
                    forall|k: int|
                        0 <= k < tot.glass_to_break@.len() ==> {
                            let g = #[trigger] tot.glass_to_break@[k];
                            &&& g < s.len()
                            &&& s[g as int].enhancement == Enhancement::Glass
                            &&& card_scores(s[g as int], boss, first_hand)
                        },
                decreases triggers - t,
            {
                assert(-4_000_000_000_000 <= t * cc <= 4_000_000_000_000) by (nonlinear_arith)
                    requires
                        0 <= t <= 3,
                        -1_000_000_000_000 <= cc <= 1_000_000_001_000,
                ;
                assert(0 <= t * am <= 42) by (nonlinear_arith)
                    requires
                        0 <= t <= 3,
                        0 <= am <= 14,
                ;
                assert((t + 1) * cc == t * cc + cc) by (nonlinear_arith);
                assert((t + 1) * am == t * am + am) by (nonlinear_arith);
                let (hit_mult, hit_money, broke) = card_draws(c, rng);
                tot.chips = tot.chips + cc;
                tot.mult = tot.mult + am;
                if hit_mult {
                    tot.mult = tot.mult + 20;
                    tot.lucky_triggers = tot.lucky_triggers + 1;
                    proof {
                        m1 = m1 + 1;
                    }
                }
                if hit_money {
                    tot.money = tot.money + 20;
                    tot.lucky_triggers = tot.lucky_triggers + 1;
                    proof {
                        m2 = m2 + 1;
                    }
                }
                if broke {
                    tot.glass_to_break.push(idx);
                }
                t = t + 1;
            }
            if c.seal == Seal::Gold {
                tot.money = tot.money + 3;
            }
        }
        proof {
            assert(tot.selzer_used == if sel <= 0 {
                0
            } else if scoring_count(next, boss, first_hand) < sel {
                scoring_count(next, boss, first_hand)
            } else {
                sel
            });
        }
        idx = idx + 1;
    }
    proof {
        assert(s.take(s.len() as int) =~= s);
    }
    tot
}

/// The chips and mult of a hand before fractional multipliers: the hand type's base, its
/// level, the jokers and the cards added up; The Flint halves both, rounding up (toward
/// zero below zero).
pub open spec fn hand_totals(base: int, level: int, jokers: int, cards: int, boss: Option<BossBlind>) -> int {
    let t = base + level + jokers + cards;
    if boss == Some(BossBlind::TheFlint) {
        if t + 1 >= 0 { (t + 1) / 2 } else { -((-(t + 1)) / 2) }
    } else {
        t
    }
}

/// Adds up chips (or mult) from the hand type's base, its level, the jokers and the cards,
/// halving under The Flint (rounding up).
pub fn hand_total(base: i64, level: i64, jokers: i64, cards: i64, boss: Option<BossBlind>) -> (r: i64)
    requires
        -1_000_000_000_000_000 <= base <= 1_000_000_000_000_000,
        -1_000_000_000_000_000 <= level <= 1_000_000_000_000_000,
        -1_000_000_000_000_000 <= jokers <= 1_000_000_000_000_000,
        -1_000_000_000_000_000 <= cards <= 1_000_000_000_000_000,
    ensures
        r == hand_totals(base as int, level as int, jokers as int, cards as int, boss),
{
    let t = base + level + jokers + cards;
    if boss == Some(BossBlind::TheFlint) {
        (t + 1) / 2
    } else {
        t
    }
}

// ---------------------------------------------------------------------------
// Choosing a blind
// ---------------------------------------------------------------------------

/// The blind that comes up: Big after Small, the Boss after Big, Small at the start of an ante.
pub open spec fn next_blind(b: Option<BlindType>) -> BlindType {
    match b {
        Some(BlindType::Small) => BlindType::Big,
        Some(BlindType::Big) => BlindType::Boss,
        _ => BlindType::Small,
    }
}

/// A joker as a blind begins: Turtle Bean gives one card of hand size less and is used up
/// at none; Steak Joker sells for $1 less and is destroyed once it is worth nothing; Egg
/// sells for $3 more.
pub open spec fn joker_at_blind_start(j: JokerFacts) -> JokerFacts {
    if j.enabled && j.id == JokerId::TurtleBean {
        JokerFacts { turtle_hand_mod: (j.turtle_hand_mod - 1) as i32, enabled: j.turtle_hand_mod - 1 > 0, ..j }
    } else if j.enabled && j.id == JokerId::SteakJoker {
        JokerFacts { sell_value: (j.sell_value - 1) as i64, enabled: j.sell_value - 1 > 0, ..j }
    } else if j.enabled && j.id == JokerId::Egg {
        JokerFacts { sell_value: (j.sell_value + 3) as i64, ..j }
    } else {
        j
    }
}

/// Sell values leave room for the changes of a round.
pub open spec fn sell_values_in_range(jokers: Seq<JokerFacts>) -> bool {
    forall|i: int| 0 <= i < jokers.len() ==> -1_000_000_000_000 <= #[trigger] jokers[i].sell_value <= 1_000_000_000_000
}

/// Turtle Bean's hand size change leaves room for one less.
pub open spec fn turtle_mods_in_range(jokers: Seq<JokerFacts>) -> bool {
    forall|i: int| 0 <= i < jokers.len() ==> i32::MIN < #[trigger] jokers[i].turtle_hand_mod
}

/// Sell values within `bound` and counters small enough for Ceremonial Dagger to add twice a
/// sell value to a counter.
pub open spec fn dagger_values_in_range(jokers: Seq<JokerFacts>, bound: int) -> bool {
    forall|i: int|
        0 <= i < jokers.len() ==> {
            &&& -bound <= #[trigger] jokers[i].sell_value <= bound
            &&& -1_000_000_000 <= jokers[i].counter <= 1_000_000_000
        }
}

/// A joker Ceremonial Dagger can destroy: an enabled joker other than a Ceremonial Dagger.
pub open spec fn dagger_target(j: JokerFacts) -> bool {
    j.enabled && j.id != JokerId::Ceremonial
}

/// The rightmost joker below position `upto` that Ceremonial Dagger can destroy, or -1.
pub open spec fn rightmost_dagger_target(js: Seq<JokerFacts>, upto: int) -> int
    decreases upto,
{
    if upto <= 0 {
        -1
    } else if dagger_target(js[upto - 1]) {
        upto - 1
    } else {
        rightmost_dagger_target(js, upto - 1)
    }
}

/// Ceremonial Dagger at position `i` (if it is one and enabled) destroys the rightmost other
/// joker it can and adds twice that joker's sell value to its own counter.
pub open spec fn dagger_step(js: Seq<JokerFacts>, i: int) -> Seq<JokerFacts> {
    let t = rightmost_dagger_target(js, js.len() as int);
    if js[i].enabled && js[i].id == JokerId::Ceremonial && t >= 0 {
        js.update(i, JokerFacts { counter: (js[i].counter + 2 * js[t].sell_value) as i32, ..js[i] }).update(
            t,
            JokerFacts { enabled: false, ..js[t] },
        )
    } else {
        js
    }
}

/// The Ceremonial Daggers among the first `n` positions act from left to right.
pub open spec fn daggers_through(js: Seq<JokerFacts>, n: nat) -> Seq<JokerFacts>
    decreases n,
{
    if n == 0 {
        js
    } else {
        dagger_step(daggers_through(js, (n - 1) as nat), n - 1)
    }
}

/// Each joker of the row changed as `joker_at_blind_start` says.
pub open spec fn values_at_blind_start(js: Seq<JokerFacts>) -> Seq<JokerFacts> {
    Seq::new(js.len(), |i: int| joker_at_blind_start(js[i]))
}

/// The joker row as a blind begins, when Riff-Raff adds nothing: each joker changes as
/// `joker_at_blind_start` says, then the Ceremonial Daggers act.
pub open spec fn row_at_blind_start(js: Seq<JokerFacts>) -> Seq<JokerFacts> {
    daggers_through(values_at_blind_start(js), js.len())
}

proof fn lemma_rightmost_dagger_target(js: Seq<JokerFacts>, upto: int)
    requires
        0 <= upto <= js.len(),
    ensures
        -1 <= rightmost_dagger_target(js, upto) < upto,
        rightmost_dagger_target(js, upto) >= 0 ==> dagger_target(js[rightmost_dagger_target(js, upto)]),
    decreases upto,
{
    if upto > 0 {
        lemma_rightmost_dagger_target(js, upto - 1);
    }
}

proof fn lemma_daggers_through_shape(js: Seq<JokerFacts>, n: nat)
    requires
        n <= js.len(),
    ensures
        daggers_through(js, n).len() == js.len(),
        forall|k: int|
            0 <= k < js.len() ==> {
                &&& (#[trigger] daggers_through(js, n)[k]).sell_value == js[k].sell_value
                &&& daggers_through(js, n)[k].id == js[k].id
                &&& (n <= k ==> daggers_through(js, n)[k].counter == js[k].counter)
            },
    decreases n,
{
    if n > 0 {
        let prev = daggers_through(js, (n - 1) as nat);
        lemma_daggers_through_shape(js, (n - 1) as nat);
        lemma_rightmost_dagger_target(prev, prev.len() as int);
    }
}

fn rightmost_target_index(js: &Vec<JokerFacts>) -> (r: Option<usize>)
    ensures
        match r {
            Some(t) => t as int == rightmost_dagger_target(js@, js@.len() as int),
            None => rightmost_dagger_target(js@, js@.len() as int) == -1,
        },
{
    let mut t: usize = js.len();
    while t > 0
        invariant
            t <= js@.len(),
            rightmost_dagger_target(js@, js@.len() as int) == rightmost_dagger_target(js@, t as int),
        decreases t,
    {
        if js[t - 1].enabled && js[t - 1].id != JokerId::Ceremonial {
            return Some(t - 1);
        }
        t = t - 1;
    }
    None
}

fn daggers_act(jokers: &mut Vec<JokerFacts>)
    requires
        dagger_values_in_range(old(jokers)@, 500_000_000),
    ensures
        final(jokers)@ == daggers_through(old(jokers)@, old(jokers)@.len()),
{
    let ghost start = jokers@;
    let mut i: usize = 0;
    proof {
        lemma_daggers_through_shape(start, 0);
    }
    while i < jokers.len()
        invariant
            i <= start.len(),
            dagger_values_in_range(start, 500_000_000),
            jokers@ == daggers_through(start, i as nat),
            jokers@.len() == start.len(),
        decreases start.len() - i,
    {
        proof {
            lemma_daggers_through_shape(start, i as nat);
            lemma_rightmost_dagger_target(jokers@, jokers@.len() as int);
        }
        let ghost before = jokers@;
        if jokers[i].enabled && jokers[i].id == JokerId::Ceremonial {
            match rightmost_target_index(jokers) {
                Some(t) => {
                    let gain: i64 = 2 * jokers[t].sell_value;
                    let mut d = jokers[i];
                    assert(-1_000_000_000 <= start[i as int].counter <= 1_000_000_000);
                    d.counter = (d.counter as i64 + gain) as i32;
                    let mut victim = jokers[t];
                    victim.enabled = false;
                    jokers.set(i, d);
                    jokers.set(t, victim);
                    proof {
                        assert(jokers@ =~= dagger_step(before, i as int));
                    }
                },
                None => {
                    proof {
                        assert(jokers@ =~= dagger_step(before, i as int));
                    }
                },
            }
        } else {
            proof {
                assert(jokers@ =~= dagger_step(before, i as int));
            }
        }
        i = i + 1;
    }
}

fn jokers_at_blind_start(jokers: &mut Vec<JokerFacts>)
    requires
        sell_values_in_range(old(jokers)@),
        turtle_mods_in_range(old(jokers)@),
    ensures
        final(jokers)@ == Seq::new(old(jokers)@.len(), |i: int| joker_at_blind_start(old(jokers)@[i])),
{
    let ghost start = jokers@;
    let mut i: usize = 0;
    while i < jokers.len()
        invariant
            i <= jokers@.len() == start.len(),
            sell_values_in_range(start),
            turtle_mods_in_range(start),
            forall|k: int| 0 <= k < i ==> #[trigger] jokers@[k] == joker_at_blind_start(start[k]),
            forall|k: int| i <= k < start.len() ==> #[trigger] jokers@[k] == start[k],
        decreases start.len() - i,
    {
        let mut j = jokers[i];
        if j.enabled && j.id == JokerId::TurtleBean {
            j.turtle_hand_mod = j.turtle_hand_mod - 1;
            if j.turtle_hand_mod <= 0 {
                j.enabled = false;
            }
        } else if j.enabled && j.id == JokerId::SteakJoker {
            j.sell_value = j.sell_value - 1;
            if j.sell_value <= 0 {
                j.enabled = false;
            }
        } else if j.enabled && j.id == JokerId::Egg {
            j.sell_value = j.sell_value + 3;
        }
        jokers.set(i, j);
        i = i + 1;
    }
    assert(jokers@ =~= Seq::new(start.len(), |i: int| joker_at_blind_start(start[i])));
}

/// The card turned face down.
pub open spec fn face_down_copy(c: Card) -> Card {
    Card { face_down: true, ..c }
}

/// Turns hand cards face down: every card, or only the face cards.
fn turn_face_down(hand: &mut Vec<Card>, faces_only: bool)
    ensures
        final(hand)@.len() == old(hand)@.len(),
        forall|i: int|
            0 <= i < old(hand)@.len() ==> #[trigger] final(hand)@[i] == if !faces_only || crate::cards::is_face_rank(
                old(hand)@[i].rank,
            ) {
                face_down_copy(old(hand)@[i])
            } else {
                old(hand)@[i]
            },
{
    let ghost start = hand@;
    let mut i: usize = 0;
    while i < hand.len()
        invariant
            i <= hand@.len() == start.len(),
            forall|k: int|
                0 <= k < i ==> #[trigger] hand@[k] == if !faces_only || crate::cards::is_face_rank(start[k].rank) {
                    face_down_copy(start[k])
                } else {
                    start[k]
                },
            forall|k: int| i <= k < start.len() ==> #[trigger] hand@[k] == start[k],
        decreases start.len() - i,
    {
        let mut c = hand[i];
        if !faces_only || c.is_face() {
            c.face_down = true;
        }
        hand.set(i, c);
        i = i + 1;
    }
}

/// The Wheel: each hand card turns face down with chance 1 in 7; cards already face down
/// stay so and nothing else about a card changes.
fn wheel_face_down(hand: &mut Vec<Card>, rng: &mut StdRng)
    ensures
        final(hand)@.len() == old(hand)@.len(),
        forall|i: int|
            0 <= i < old(hand)@.len() ==> #[trigger] final(hand)@[i] == old(hand)@[i] || final(hand)@[i]
                == face_down_copy(old(hand)@[i]),
{
    let ghost start = hand@;
    let mut i: usize = 0;
    while i < hand.len()
        invariant
            i <= hand@.len() == start.len(),
            forall|k: int|
                0 <= k < start.len() ==> #[trigger] hand@[k] == start[k] || hand@[k] == face_down_copy(start[k]),
        decreases start.len() - i,
    {
        if crate::rng::gen_below(rng, 7) == 0 {
            let mut c = hand[i];
            c.face_down = true;
            hand.set(i, c);
        }
        i = i + 1;
    }
}

/// A card Certificate brings: a plain card of some rank and suit with a gold, red, blue or
/// purple seal.
pub open spec fn certificate_card(c: Card) -> bool {
    &&& 1 <= c.rank <= 13
    &&& c.suit < 4
    &&& c.seal != Seal::NoSeal
    &&& c == Card { seal: c.seal, ..crate::cards::plain_card(c.rank, c.suit) }
}

/// Certificate: per enabled copy, a random sealed card joins the hand.
fn certificate_cards(hand: &mut Vec<Card>, count: usize, rng: &mut StdRng)
    requires
        old(hand)@.len() + count <= usize::MAX,
    ensures
        final(hand)@.len() == old(hand)@.len() + count,
        final(hand)@.subrange(0, old(hand)@.len() as int) == old(hand)@,
        forall|k: int| old(hand)@.len() <= k < final(hand)@.len() ==> certificate_card(#[trigger] final(hand)@[k]),
{
    let ghost start = hand@;
    let mut i: usize = 0;
    while i < count
        invariant
            i <= count,
            start == old(hand)@,
            start.len() + count <= usize::MAX,
            hand@.len() == start.len() + i,
            hand@.subrange(0, start.len() as int) == start,
            forall|k: int| start.len() <= k < hand@.len() ==> certificate_card(#[trigger] hand@[k]),
        decreases count - i,
    {
        let rank = (crate::rng::gen_below(rng, 13) + 1) as u8;
        let suit = crate::rng::gen_below(rng, 4) as u8;
        let seal = match crate::rng::gen_below(rng, 4) {
            0 => Seal::Gold,
            1 => Seal::Red,
            2 => Seal::Blue,
            _ => Seal::Purple,
        };
        let mut card = Card::new(rank, suit);
        card.seal = seal;
        let ghost before = hand@;
        hand.push(card);
        proof {
            assert(hand@.subrange(0, start.len() as int) =~= before.subrange(0, start.len() as int));
        }
        i = i + 1;
    }
}

/// Cerulean Bell's forced use at the start of the blind is possible: the planet counter and
/// the level a first planet would raise have room.
pub open spec fn cerulean_allowed(cards: RunCards, usage: UsageCounters) -> bool {
    cards.consumables.items@.len() > 0 ==> match cards.consumables.items@[0] {
        Consumable::Planet(p) => usage.planets_used_this_run < i32::MAX && cards.hand_levels@[planet_hand_type(p) as int]
            < u32::MAX,
        _ => true,
    }
}

/// Cerulean Bell: the first consumable held is used up at once; a planet levels up its hand
/// type. It becomes the last consumable used.
fn cerulean_use(cards: &mut RunCards, usage: &mut UsageCounters)
    requires
        cerulean_allowed(*old(cards), *old(usage)),
    ensures
        old(cards).consumables.items@.len() == 0 ==> *final(cards) == *old(cards) && *final(usage) == *old(usage),
        old(cards).consumables.items@.len() > 0 ==> ({
            let used = old(cards).consumables.items@[0];
            &&& final(cards).consumables.items@ == old(cards).consumables.items@.remove(0)
            &&& final(cards).last_used_consumable == Some(used)
            &&& (used matches Consumable::Planet(p) ==> final(cards).hand_levels@ == old(cards).hand_levels@.update(
                planet_hand_type(p) as int,
                (old(cards).hand_levels@[planet_hand_type(p) as int] + 1) as u32,
            ) && final(usage).planets_used_this_run == old(usage).planets_used_this_run + 1)
            &&& (!(used is Planet) ==> final(cards).hand_levels == old(cards).hand_levels && *final(usage)
                == *old(usage))
        }),
        final(cards).hand@ == old(cards).hand@,
        final(cards).deck@ == old(cards).deck@,
        final(cards).money == old(cards).money,
        final(cards).selected_mask == old(cards).selected_mask,
        final(cards).consumables.capacity == old(cards).consumables.capacity,
{
    if cards.consumables.items.len() == 0 {
        return;
    }
    match cards.consumables.use_item(0) {
        Some(c) => {
            match c {
                Consumable::Planet(p) => {
                    cards.hand_levels.upgrade(p.hand_type_index());
                    usage.planets_used_this_run = usage.planets_used_this_run + 1;
                },
                _ => {},
            }
            cards.last_used_consumable = Some(c);
        },
        None => {},
    }
}

/// The card Marble Joker adds: a Stone Ace of Spades, with no seal or edition.
pub open spec fn marble_stone() -> Card {
    Card {
        rank: 1,
        suit: 0,
        enhancement: Enhancement::Stone,
        seal: Seal::NoSeal,
        edition: Edition::Base,
        face_down: false,
        bonus_chips: 0,
    }
}

fn add_marble_stones(deck: &mut Vec<Card>, count: usize)
    requires
        old(deck)@.len() + count <= usize::MAX,
    ensures
        final(deck)@ == old(deck)@ + Seq::new(count as nat, |i: int| marble_stone()),
{
    let ghost start = deck@;
    let mut i: usize = 0;
    while i < count
        invariant
            i <= count,
            start.len() + count <= usize::MAX,
            deck@ == start + Seq::new(i as nat, |k: int| marble_stone()),
        decreases count - i,
    {
        deck.push(
            Card {
                rank: 1,
                suit: 0,
                enhancement: Enhancement::Stone,
                seal: Seal::NoSeal,
                edition: Edition::Base,
                face_down: false,
                bonus_chips: 0,
            },
        );
        i = i + 1;
        proof {
            assert(deck@ =~= start + Seq::new(i as nat, |k: int| marble_stone()));
        }
    }
}

/// The common jokers Riff-Raff draws from.
pub open spec fn common_jokers() -> Seq<JokerId> {
    jokers_of_rarity(available_jokers_upto(JOKER_COUNT as int), 1)
}

/// A joker Riff-Raff makes as a blind begins: it already shows the round's change of value,
/// except a Turtle Bean, whose change of hand size comes before Riff-Raff acts.
pub open spec fn riff_raff_joker(id: JokerId) -> JokerFacts {
    if id == JokerId::TurtleBean {
        new_joker(id)
    } else {
        joker_at_blind_start(new_joker(id))
    }
}

/// What `count` tries of Riff-Raff add to a row with `room` free slots: one common joker per
/// try while there is room (none if there were no common jokers).
pub open spec fn riff_raff_additions(added: Seq<JokerFacts>, count: int, room: int) -> bool {
    &&& added.len() == if common_jokers().len() == 0 || room <= 0 {
        0
    } else if count <= room {
        count
    } else {
        room
    }
    &&& forall|k: int|
        0 <= k < added.len() ==> common_jokers().contains((#[trigger] added[k]).id) && added[k] == riff_raff_joker(
            added[k].id,
        )
}

fn riff_raff(jokers: &mut Vec<JokerFacts>, count: usize, slot_limit: usize, rng: &mut StdRng)
    requires
        old(jokers)@.len() <= 100_000_000,
        count <= 200_000_000,
    ensures
        final(jokers)@.len() >= old(jokers)@.len(),
        final(jokers)@.subrange(0, old(jokers)@.len() as int) == old(jokers)@,
        riff_raff_additions(
            final(jokers)@.subrange(old(jokers)@.len() as int, final(jokers)@.len() as int),
            count as int,
            slot_limit - old(jokers)@.len(),
        ),
{
    let commons = JokerId::by_rarity(1);
    let ghost start = jokers@;
    let mut i: usize = 0;
    while i < count
        invariant
            i <= count <= 200_000_000,
            start.len() <= 100_000_000,
            commons@ == common_jokers(),
            jokers@.len() >= start.len(),
            jokers@.subrange(0, start.len() as int) == start,
            riff_raff_additions(
                jokers@.subrange(start.len() as int, jokers@.len() as int),
                i as int,
                slot_limit - start.len(),
            ),
        decreases count - i,
    {
        let ghost before = jokers@;
        if jokers.len() < slot_limit && commons.len() > 0 {
            let k = gen_below(rng, commons.len());
            let id = commons[k];
            let mut j = make_joker(id);
            proof {
                lemma_base_cost_small(id);
            }
            if id != JokerId::TurtleBean {
                if j.id == JokerId::SteakJoker {
                    j.sell_value = j.sell_value - 1;
                    if j.sell_value <= 0 {
                        j.enabled = false;
                    }
                } else if j.id == JokerId::Egg {
                    j.sell_value = j.sell_value + 3;
                }
            }
            jokers.push(j);
            proof {
                assert(commons@[k as int] == id);
                assert(jokers@.subrange(0, start.len() as int) =~= before.subrange(0, start.len() as int));
                let added = jokers@.subrange(start.len() as int, jokers@.len() as int);
                let prev = before.subrange(start.len() as int, before.len() as int);
                assert(added =~= prev.push(j));
                assert forall|q: int| 0 <= q < added.len() implies common_jokers().contains(
                    (#[trigger] added[q]).id,
                ) && added[q] == riff_raff_joker(added[q].id) by {
                    if q < prev.len() {
                        assert(added[q] == prev[q]);
                    }
                }
            }
        } else {
            proof {
                assert(jokers@ == before);
            }
        }
        i = i + 1;
    }
}

/// Chooses the next blind: it comes up (a Boss blind gets a boss drawn for the ante, which
/// Chicot disables), its
/// hands and discards are set by the boss, the stake, the vouchers and the jokers (see
/// `allowance`), the score and counters start over, the jokers change as
/// `row_at_blind_start` says (Turtle Bean, Steak Joker, Egg, Ceremonial Dagger), each
/// Riff-Raff adds two random common jokers while slots are free (before the Ceremonial
/// Daggers act), each Marble Joker adds a Stone card to the deck, a new hand is dealt and
/// Certificate adds a sealed card to it. The Hook then discards two cards, The Wheel turns one card in seven face down, The
/// House and Verdant the whole hand, Cerulean Bell uses up the first consumable, and The
/// Mark turns the face cards face down.
#[verifier::spinoff_prover]
pub fn select_blind(
    progress: &mut BlindProgress,
    round: &mut BlindRound,
    cards: &mut RunCards,
    jokers: &mut Vec<JokerFacts>,
    usage: &mut UsageCounters,
    stake: Stake,
    extra_hands: i32,
    extra_discards: i32,
    hand_size: usize,
    slot_limit: usize,
    rng: &mut StdRng,
)
    requires
        old(jokers)@.len() <= 100_000_000,
        -1_000_000 <= extra_hands <= 1_000_000,
        -1_000_000 <= extra_discards <= 1_000_000,
        sell_values_in_range(old(jokers)@),
        turtle_mods_in_range(old(jokers)@),
        dagger_values_in_range(old(jokers)@, 400_000_000),
        old(cards).deck@.len() <= 1_000_000,
        cerulean_allowed(*old(cards), *old(usage)),
    ensures
        final(progress).blind_type == Some(next_blind(old(progress).blind_type)),
        final(progress).stage == Stage::Blind,
        final(progress).ante == old(progress).ante,
        next_blind(old(progress).blind_type) == BlindType::Boss && enabled_count(old(jokers)@, JokerId::Chicot) == 0
            ==> final(progress).boss_blind is Some,
        next_blind(old(progress).blind_type) != BlindType::Boss || enabled_count(old(jokers)@, JokerId::Chicot) != 0
            ==> final(progress).boss_blind is None,
        final(round).plays_left == allowance(
            final(progress).boss_blind,
            old(jokers)@,
            stake,
            extra_hands as int,
            extra_discards as int,
        ).0,
        final(round).discards_left == allowance(
            final(progress).boss_blind,
            old(jokers)@,
            stake,
            extra_hands as int,
            extra_discards as int,
        ).1,
        final(round).score == 0,
        final(round).hands_played == 0,
        final(round).discards_used == 0,
        final(round).reward == old(round).reward,
        enabled_count(old(jokers)@, JokerId::RiffRaff) == 0 ==> final(jokers)@ == row_at_blind_start(old(jokers)@),
        exists|added: Seq<JokerFacts>|
            riff_raff_additions(
                added,
                2 * enabled_count(old(jokers)@, JokerId::RiffRaff),
                slot_limit - old(jokers)@.len(),
            ) && final(jokers)@ == daggers_through(
                values_at_blind_start(old(jokers)@) + added,
                (old(jokers)@.len() + added.len()) as nat,
            ),
        final(cards).money == old(cards).money,
        final(cards).selected_mask == 0,
        final(progress).boss_blind == Some(BossBlind::TheHouse) || final(progress).boss_blind == Some(
            BossBlind::Verdant,
        ) ==> forall|i: int| 0 <= i < final(cards).hand@.len() ==> (#[trigger] final(cards).hand@[i]).face_down,
{
    let next = match progress.blind_type {
        Some(b) => match b.next() {
            Some(n) => n,
            None => BlindType::Small,
        },
        None => BlindType::Small,
    };
    progress.blind_type = Some(next);
    progress.stage = Stage::Blind;
    if next == BlindType::Boss {
        progress.boss_blind = select_random_boss(progress.ante, rng);
        if count_enabled(jokers, JokerId::Chicot) > 0 {
            progress.boss_blind = None;
        }
    } else {
        progress.boss_blind = None;
    }
    let boss = progress.boss_blind;
    let (plays, discards) = blind_allowance(boss, jokers, stake, extra_hands, extra_discards);
    round.plays_left = plays;
    round.discards_left = discards;
    round.score = 0;
    round.hands_played = 0;
    round.discards_used = 0;
    let marbles = count_enabled(jokers, JokerId::MarbleJoker);
    add_marble_stones(&mut cards.deck, marbles);
    let riffs = count_enabled(jokers, JokerId::RiffRaff);
    let ghost start = jokers@;
    jokers_at_blind_start(jokers);
    let ghost mid = jokers@;
    riff_raff(jokers, 2 * riffs, slot_limit, rng);
    let ghost added = jokers@.subrange(mid.len() as int, jokers@.len() as int);
    proof {
        assert(jokers@ =~= mid + added);
        assert forall|i: int| 0 <= i < jokers@.len() implies {
            &&& -500_000_000 <= #[trigger] jokers@[i].sell_value <= 500_000_000
            &&& -1_000_000_000 <= jokers@[i].counter <= 1_000_000_000
        } by {
            if i < mid.len() {
                assert(jokers@[i] == mid[i]);
                assert(mid[i] == joker_at_blind_start(start[i]));
            } else {
                assert(jokers@[i] == added[i - mid.len()]);
                lemma_base_cost_small(added[i - mid.len()].id);
            }
        }
    }
    daggers_act(jokers);
    proof {
        assert(mid == values_at_blind_start(start));
        assert(riff_raff_additions(added, 2 * enabled_count(start, JokerId::RiffRaff), slot_limit - start.len()));
        if enabled_count(start, JokerId::RiffRaff) == 0 {
            assert(mid + added =~= mid);
        }
    }
    cards.deal(hand_size, rng);
    let certificates = count_enabled(jokers, JokerId::Certificate);
    if cards.hand.len() <= 1_000_000 && certificates <= 1_000_000 {
        certificate_cards(&mut cards.hand, certificates, rng);
    }
    if boss == Some(BossBlind::TheHook) {
        cards.apply_hook_discard(hand_size, rng);
    }
    if boss == Some(BossBlind::TheWheel) {
        wheel_face_down(&mut cards.hand, rng);
    }
    if boss == Some(BossBlind::TheHouse) || boss == Some(BossBlind::Verdant) {
        turn_face_down(&mut cards.hand, false);
    }
    if boss == Some(BossBlind::Cerulean) {
        cerulean_use(cards, usage);
    }
    if boss == Some(BossBlind::TheMark) {
        turn_face_down(&mut cards.hand, true);
    }
    cards.selected_mask = 0;
}

// ---------------------------------------------------------------------------
// The reward of a cleared blind
// ---------------------------------------------------------------------------

/// The money a cleared blind pays: the blind's own reward (none for the Small blind above
/// White Stake), the interest (none on a deck that disables it), money per hand left, $3 per
/// gold card held, and what the jokers pay at the end of a round.
pub open spec fn reward_money(
    run: RunCards,
    blind_type: Option<BlindType>,
    stake: Stake,
    deck_type: DeckType,
    interest: int,
    plays_left: int,
    jokers: Seq<JokerFacts>,
    discards_left: int,
    planets_used: int,
    discards_used: int,
) -> int {
    let blind = match blind_type {
        Some(b) => b,
        None => BlindType::Small,
    };
    let base = if blind == BlindType::Small && !stake_small_reward(stake) { 0 } else { blind_reward(blind) };
    let paid_interest = if deck_disables_interest(deck_type) { 0 } else { interest };
    base + paid_interest + plays_left * deck_money_per_hand(deck_type) + 3 * gold_count(run.hand@) + jokers_money(
        jokers,
        discards_left,
        run.money as int,
        nine_count(run.deck@),
        planets_used,
        discards_used,
    )
}

/// The money a cleared blind pays (see `reward_money`); the interest, a fraction of the money
/// held, is worked out by the caller.
#[verifier::spinoff_prover]
pub fn blind_reward_money(
    run: &RunCards,
    blind_type: Option<BlindType>,
    stake: Stake,
    deck_type: DeckType,
    interest: i64,
    plays_left: i32,
    jokers: &[JokerFacts],
    discards_left: i32,
    planets_used: i32,
    discards_used: i32,
) -> (r: i64)
    requires
        run.hand@.len() <= 1_000_000,
        run.deck@.len() <= 1_000_000,
        -1_000_000_000_000_000 <= interest <= 1_000_000_000_000_000,
        forall|k: int|
            0 <= k <= jokers@.len() ==> -1_000_000_000_000_000 <= #[trigger] jokers_money(
                jokers@.take(k),
                discards_left as int,
                run.money as int,
                nine_count(run.deck@),
                planets_used as int,
                discards_used as int,
            ) <= 1_000_000_000_000_000,
    ensures
        r == reward_money(
            *run,
            blind_type,
            stake,
            deck_type,
            interest as int,
            plays_left as int,
            jokers@,
            discards_left as int,
            planets_used as int,
            discards_used as int,
        ),
{
    let blind = match blind_type {
        Some(b) => b,
        None => BlindType::Small,
    };
    let base = if blind == BlindType::Small && !stake.small_blind_gives_reward() { 0 } else { blind.reward() };
    let paid_interest = if deck_type.disables_interest() { 0 } else { interest };
    let hand_bonus = plays_left as i64 * deck_type.money_per_remaining_hand();
    let gold = run.gold_card_money();
    proof {
        assert(jokers@.take(jokers@.len() as int) =~= jokers@);
        lemma_gold_count_bounds(run.hand@);
    }
    let joker_bonus = run.calc_joker_money_bonus(jokers, discards_left, planets_used, discards_used);
    assert(-1_000_000_000_000_000 <= joker_bonus <= 1_000_000_000_000_000);
    assert(0 <= gold <= 3_000_000);
    assert(-5_000_000_000 <= hand_bonus <= 5_000_000_000);
    assert(0 <= base <= 5);
    base + paid_interest + hand_bonus + gold + joker_bonus
}

proof fn lemma_gold_count_bounds(s: Seq<Card>)
    ensures
        0 <= gold_count(s) <= s.len(),
    decreases s.len(),
{
    if s.len() > 0 {
        lemma_gold_count_bounds(s.drop_last());
    }
}

// ---------------------------------------------------------------------------
// Cashing out
// ---------------------------------------------------------------------------

/// Money Rocket pays at a cash-out: $1 plus what it has gathered, per enabled Rocket.
pub open spec fn rocket_money(jokers: Seq<JokerFacts>) -> int
    decreases jokers.len(),
{
    if jokers.len() == 0 {
        0
    } else {
        rocket_money(jokers.drop_last()) + if jokers.last().enabled && jokers.last().id == JokerId::Rocket {
            1 + jokers.last().counter
        } else {
            0int
        }
    }
}

fn rocket_total(jokers: &[JokerFacts]) -> (r: i64)
    requires
        jokers@.len() <= 1_000_000,
    ensures
        r == rocket_money(jokers@),
        -3_000_000_000_000_000 <= r <= 3_000_000_000_000_000,
{
    let mut r: i64 = 0;
    let mut i: usize = 0;
    while i < jokers.len()
        invariant
            i <= jokers@.len() <= 1_000_000,
            r == rocket_money(jokers@.take(i as int)),
            -3_000_000_000 * i <= r <= 3_000_000_000 * i,
        decreases jokers@.len() - i,
    {
        proof {
            assert(jokers@.take(i as int + 1).drop_last() =~= jokers@.take(i as int));
        }
        let j = jokers[i];
        if j.enabled && j.id == JokerId::Rocket {
            r = r + 1 + j.counter as i64;
        }
        i = i + 1;
    }
    proof {
        assert(jokers@.take(jokers@.len() as int) =~= jokers@);
    }
    r
}

/// Money a cash-out pays: the blind's reward, the dollars Reserved Parking won, Rocket,
/// Satellite $1 per planet used this run, Certificate $1 per gold-sealed hand card, Cloud
/// Nine $1 per nine in the whole deck, Golden Ticket $3 per gold card in the whole deck, and
/// Delayed Gratification $2 when no discard was used; each per enabled copy.
pub open spec fn cash_out_money(
    round: BlindRound,
    cards: RunCards,
    jokers: Seq<JokerFacts>,
    planets_used: int,
    parking_dollars: int,
) -> int {
    let nines = cards_where(cards.deck@, is_nine()) + cards_where(cards.hand@, is_nine()) + cards_where(
        cards.discarded@,
        is_nine(),
    );
    let golds = cards_where(cards.deck@, is_gold_card()) + cards_where(cards.hand@, is_gold_card())
        + cards_where(cards.discarded@, is_gold_card());
    round.reward + parking_dollars + rocket_money(jokers) + enabled_count(jokers, JokerId::Satellite)
        * planets_used + enabled_count(jokers, JokerId::Certificate) * cards_where(cards.hand@, has_gold_seal())
        + enabled_count(jokers, JokerId::CloudNine) * nines + enabled_count(jokers, JokerId::Golden_Ticket)
        * golds * 3 + if round.discards_used == 0 {
        2 * enabled_count(jokers, JokerId::Delayed)
    } else {
        0
    }
}

/// A joker after a cash-out: Egg sells for $3 more, every joker sells for $1 more per Gift
/// Card, and Invisible Joker counts one more round.
pub open spec fn joker_after_cash_out(j: JokerFacts, gift_cards: int) -> JokerFacts {
    let egg = if j.enabled && j.id == JokerId::Egg { 3int } else { 0int };
    JokerFacts {
        sell_value: (j.sell_value + egg + gift_cards) as i64,
        counter: if j.enabled && j.id == JokerId::InvisibleJoker { (j.counter + 1) as i32 } else { j.counter },
        ..j
    }
}

/// Counters of the row leave room for one more round.
pub open spec fn counters_in_range(jokers: Seq<JokerFacts>) -> bool {
    forall|i: int| 0 <= i < jokers.len() ==> -1_000_000_000 <= #[trigger] jokers[i].counter <= 1_000_000_000
}

fn jokers_after_cash_out(jokers: &mut Vec<JokerFacts>, gift_cards: i64)
    requires
        sell_values_in_range(old(jokers)@),
        counters_in_range(old(jokers)@),
        0 <= gift_cards <= 1_000_000,
    ensures
        final(jokers)@ == Seq::new(old(jokers)@.len(), |i: int| joker_after_cash_out(old(jokers)@[i], gift_cards as int)),
{
    let ghost start = jokers@;
    let mut i: usize = 0;
    while i < jokers.len()
        invariant
            i <= jokers@.len() == start.len(),
            sell_values_in_range(start),
            counters_in_range(start),
            0 <= gift_cards <= 1_000_000,
            forall|k: int| 0 <= k < i ==> #[trigger] jokers@[k] == joker_after_cash_out(start[k], gift_cards as int),
            forall|k: int| i <= k < start.len() ==> #[trigger] jokers@[k] == start[k],
        decreases start.len() - i,
    {
        let mut j = jokers[i];
        assert(j == start[i as int]);
        let egg: i64 = if j.enabled && j.id == JokerId::Egg { 3 } else { 0 };
        j.sell_value = j.sell_value + egg + gift_cards;
        if j.enabled && j.id == JokerId::InvisibleJoker {
            j.counter = j.counter + 1;
        }
        jokers.set(i, j);
        i = i + 1;
    }
    assert(jokers@ =~= Seq::new(start.len(), |i: int| joker_after_cash_out(start[i], gift_cards as int)));
}

/// Sizes and sums that keep a cash-out in range.
pub open spec fn cash_out_in_range(round: BlindRound, cards: RunCards, jokers: Seq<JokerFacts>, parking_dollars: int) -> bool {
    &&& jokers.len() <= 1_000_000
    &&& cards.deck@.len() <= 1_000_000
    &&& cards.hand@.len() <= 1_000_000
    &&& cards.discarded@.len() <= 1_000_000
    &&& -1_000_000_000_000_000 <= cards.money <= 1_000_000_000_000_000
    &&& -1_000_000_000_000_000 <= round.reward <= 1_000_000_000_000_000
    &&& 0 <= parking_dollars <= 1_000_000_000_000_000
    &&& sell_values_in_range(jokers)
    &&& counters_in_range(jokers)
}

/// Cashes out a cleared blind: the reward and the money jokers pay are added (see
/// `cash_out_money`), the reward is spent, Egg, Gift Card and Invisible Joker grow, and the
/// run moves to the shop. Tells the money gained. Reserved Parking's coin flips are made by
/// the caller and come in as `parking_dollars`.
#[verifier::spinoff_prover]
pub fn cash_out(
    stage: &mut Stage,
    round: &mut BlindRound,
    cards: &mut RunCards,
    jokers: &mut Vec<JokerFacts>,
    planets_used: i32,
    parking_dollars: i64,
) -> (r: i64)
    requires
        cash_out_in_range(*old(round), *old(cards), old(jokers)@, parking_dollars as int),
    ensures
        r == cash_out_money(*old(round), *old(cards), old(jokers)@, planets_used as int, parking_dollars as int),
        -100_000_000_000_000_000 <= r <= 100_000_000_000_000_000,
        final(cards).money == old(cards).money + r,
        final(cards).hand@ == old(cards).hand@,
        final(cards).deck@ == old(cards).deck@,
        final(cards).discarded@ == old(cards).discarded@,
        final(round).reward == 0,
        final(round).plays_left == old(round).plays_left,
        final(round).discards_left == old(round).discards_left,
        final(round).score == old(round).score,
        *final(stage) == Stage::Shop,
        final(jokers)@ == Seq::new(
            old(jokers)@.len(),
            |i: int| joker_after_cash_out(old(jokers)@[i], enabled_count(old(jokers)@, JokerId::GiftCard)),
        ),
{
    let rocket = rocket_total(jokers);
    let sat = count_enabled(jokers, JokerId::Satellite) as i64;
    let cert = count_enabled(jokers, JokerId::Certificate) as i64;
    let cloud = count_enabled(jokers, JokerId::CloudNine) as i64;
    let ticket = count_enabled(jokers, JokerId::Golden_Ticket) as i64;
    let delayed = count_enabled(jokers, JokerId::Delayed) as i64;
    let gifts = count_enabled(jokers, JokerId::GiftCard) as i64;
    let seals = count_cards(&cards.hand, 2) as i64;
    let nines = count_cards(&cards.deck, 0) as i64 + count_cards(&cards.hand, 0) as i64 + count_cards(
        &cards.discarded,
        0,
    ) as i64;
    let golds = count_cards(&cards.deck, 1) as i64 + count_cards(&cards.hand, 1) as i64 + count_cards(
        &cards.discarded,
        1,
    ) as i64;
    assert(0 <= sat * (planets_used as i64) <= 1_000_000 * 2_147_483_647 || -1_000_000 * 2_147_483_648 <= sat * (planets_used as i64) <= 0) by (nonlinear_arith)
        requires
            0 <= sat <= 1_000_000,
            i32::MIN <= planets_used <= i32::MAX,
    ;
    assert(0 <= cert * seals <= 1_000_000_000_000) by (nonlinear_arith)
        requires
            0 <= cert <= 1_000_000,
            0 <= seals <= 1_000_000,
    ;
    assert(0 <= cloud * nines <= 3_000_000_000_000) by (nonlinear_arith)
        requires
            0 <= cloud <= 1_000_000,
            0 <= nines <= 3_000_000,
    ;
    assert(0 <= ticket * golds * 3 <= 9_000_000_000_000) by (nonlinear_arith)
        requires
            0 <= ticket <= 1_000_000,
            0 <= golds <= 3_000_000,
    ;
    let delayed_money: i64 = if round.discards_used == 0 { 2 * delayed } else { 0 };
    let gained = round.reward + parking_dollars + rocket + sat * (planets_used as i64) + cert * seals + cloud
        * nines + ticket * golds * 3 + delayed_money;
    cards.money = cards.money + gained;
    round.reward = 0;
    jokers_after_cash_out(jokers, gifts);
    *stage = Stage::Shop;
    gained
}

/// Cards with a blue seal.
pub open spec fn has_blue_seal() -> spec_fn(Card) -> bool {
    |c: Card| c.seal == Seal::Blue
}

/// Planets blue seals bring: one per blue-sealed card held, as far as free slots allow.
pub open spec fn blue_planets_added(blue: int, held: int, capacity: int) -> int {
    let room = if capacity - held > 0 { capacity - held } else { 0 };
    if blue <= room { blue } else { room }
}

/// Blue Seal: each blue-sealed card held brings a planet for the last hand type played,
/// while a consumable slot is free. Nothing comes when no hand was played or no planet
/// levels that hand type.
pub fn add_blue_seal_planets(cards: &mut RunCards, last_hand_type: Option<usize>)
    ensures
        final(cards).hand@ == old(cards).hand@,
        final(cards).deck@ == old(cards).deck@,
        final(cards).discarded@ == old(cards).discarded@,
        final(cards).money == old(cards).money,
        final(cards).selected_mask == old(cards).selected_mask,
        final(cards).hand_levels == old(cards).hand_levels,
        final(cards).consumables.capacity == old(cards).consumables.capacity,
        (last_hand_type is Some && exists|p: PlanetId| planet_hand_type(p) == last_hand_type.unwrap()) ==> exists|
            p: PlanetId,
        |
            #![trigger planet_hand_type(p)]
            planet_hand_type(p) == last_hand_type.unwrap() && final(cards).consumables.items@
                == old(cards).consumables.items@ + Seq::new(
                blue_planets_added(
                    cards_where(old(cards).hand@, has_blue_seal()),
                    old(cards).consumables.items@.len() as int,
                    old(cards).consumables.capacity as int,
                ) as nat,
                |i: int| Consumable::Planet(p),
            ),
        !(last_hand_type is Some && exists|p: PlanetId| planet_hand_type(p) == last_hand_type.unwrap())
            ==> final(cards).consumables.items@ == old(cards).consumables.items@,
{
    let h = match last_hand_type {
        Some(h) => h,
        None => {
            return;
        },
    };
    let p = match PlanetId::from_hand_type_index(h) {
        Some(p) => p,
        None => {
            return;
        },
    };
    let ghost start = cards.consumables.items@;
    let ghost cap = cards.consumables.capacity as int;
    let ghost hand = cards.hand@;
    let mut i: usize = 0;
    proof {
        assert(start + Seq::new(0nat, |k: int| Consumable::Planet(p)) =~= start);
    }
    while i < cards.hand.len()
        invariant
            i <= cards.hand@.len(),
            cards.hand@ == hand,
            cards.deck@ == old(cards).deck@,
            cards.discarded@ == old(cards).discarded@,
            cards.money == old(cards).money,
            cards.selected_mask == old(cards).selected_mask,
            cards.hand_levels == old(cards).hand_levels,
            cards.consumables.capacity == cap,
            start == old(cards).consumables.items@,
            hand == old(cards).hand@,
            cap == old(cards).consumables.capacity,
            cards.consumables.items@ == start + Seq::new(
                blue_planets_added(cards_where(hand.take(i as int), has_blue_seal()), start.len() as int, cap) as nat,
                |k: int| Consumable::Planet(p),
            ),
        decreases hand.len() - i,
    {
        proof {
            assert(hand.take(i as int + 1).drop_last() =~= hand.take(i as int));
            lemma_cards_where_bounds(hand.take(i as int), has_blue_seal());
        }
        if cards.hand[i].seal == Seal::Blue {
            let ghost before = cards.consumables.items@;
            let ghost n = blue_planets_added(cards_where(hand.take(i as int), has_blue_seal()), start.len() as int, cap);
            let _ = cards.consumables.add(Consumable::Planet(p));
            proof {
                if before.len() < cap {
                    assert(start + Seq::new((n + 1) as nat, |k: int| Consumable::Planet(p)) =~= before.push(
                        Consumable::Planet(p),
                    ));
                }
            }
        }
        i = i + 1;
    }
    proof {
        assert(hand.take(hand.len() as int) =~= hand);
    }
}

// ---------------------------------------------------------------------------
// The shop
// ---------------------------------------------------------------------------

/// The joker a shop item becomes once bought.
pub open spec fn bought_joker(item: ShopItem) -> JokerFacts {
    JokerFacts {
        id: item.joker,
        enabled: true,
        is_negative: false,
        sell_value: item.sell_value,
        turtle_hand_mod: if item.joker == JokerId::TurtleBean { 5i32 } else { 0i32 },
        counter: 0,
        is_eternal: item.is_eternal,
        is_perishable: item.is_perishable,
        perishable_rounds: if item.is_perishable { 5i32 } else { 0i32 },
        is_rental: false,
        edition: Edition::Base,
    }
}

/// A purchase goes through: the item exists, its price is within the money (plus the debt
/// allowed), and the row has a free slot.
pub open spec fn can_buy_joker(shop: Shop, jokers_len: int, money: int, debt_limit: int, index: int, slot_limit: int) -> bool {
    &&& 0 <= index < shop.items@.len()
    &&& shop.items@[index].cost <= money + debt_limit
    &&& jokers_len < slot_limit
}

/// Buys the shop joker at `index` if the purchase goes through: its price is paid and it
/// joins the row. Tells the price paid (none when nothing was bought).
pub fn buy_joker(
    shop: &mut Shop,
    jokers: &mut Vec<JokerFacts>,
    money: &mut i64,
    index: usize,
    slot_limit: usize,
    debt_limit: i64,
    rng: &mut StdRng,
) -> (r: Option<i64>)
    requires
        -1_000_000_000_000_000 <= *old(money) <= 1_000_000_000_000_000,
        -1_000_000_000_000_000 <= debt_limit <= 1_000_000_000_000_000,
        forall|i: int| 0 <= i < old(shop).items@.len() ==> -1_000_000_000_000_000 <= #[trigger] old(shop).items@[i].cost <= 1_000_000_000_000_000,
    ensures
        !can_buy_joker(*old(shop), old(jokers)@.len() as int, *old(money) as int, debt_limit as int, index as int, slot_limit as int)
            ==> r is None && *final(shop) == *old(shop) && final(jokers)@ == old(jokers)@ && *final(money) == *old(money),
        can_buy_joker(*old(shop), old(jokers)@.len() as int, *old(money) as int, debt_limit as int, index as int, slot_limit as int)
            ==> {
            &&& r == Some(old(shop).items@[index as int].cost)
            &&& *final(money) == *old(money) - old(shop).items@[index as int].cost
            &&& final(shop).items@ == old(shop).items@.remove(index as int)
            &&& final(shop).reroll_cost == old(shop).reroll_cost
            &&& final(shop).reroll_count == old(shop).reroll_count
            &&& final(jokers)@ == old(jokers)@.push(
                (JokerFacts { counter: final(jokers)@.last().counter, ..bought_joker(old(shop).items@[index as int]) }),
            )
            &&& old(shop).items@[index as int].joker != JokerId::ToDoList ==> final(jokers)@.last().counter == 0
            &&& old(shop).items@[index as int].joker == JokerId::ToDoList ==> 0 <= final(jokers)@.last().counter < 13
        },
{
    if index >= shop.items.len() {
        return None;
    }
    let cost = shop.items[index].cost;
    if !(cost <= *money + debt_limit && jokers.len() < slot_limit) {
        return None;
    }
    match shop.buy(index) {
        Some(item) => {
            *money = *money - cost;
            let target: i32 = if item.joker == JokerId::ToDoList { crate::rng::gen_below(rng, 13) as i32 } else { 0 };
            let j = JokerFacts {
                id: item.joker,
                enabled: true,
                is_negative: false,
                sell_value: item.sell_value,
                turtle_hand_mod: if item.joker == JokerId::TurtleBean { 5 } else { 0 },
                counter: target,
                is_eternal: item.is_eternal,
                is_perishable: item.is_perishable,
                perishable_rounds: if item.is_perishable { 5 } else { 0 },
                is_rental: false,
                edition: Edition::Base,
            };
            jokers.push(j);
            Some(cost)
        },
        None => None,
    }
}

/// Sells the joker at `index` unless it is eternal or there is none: it leaves the row and
/// its sell value is paid. The sold joker comes back.
pub fn sell_joker(jokers: &mut Vec<JokerFacts>, money: &mut i64, index: usize) -> (r: Option<JokerFacts>)
    requires
        -1_000_000_000_000_000 <= *old(money) <= 1_000_000_000_000_000,
        sell_values_in_range(old(jokers)@),
    ensures
        !(index < old(jokers)@.len() && !old(jokers)@[index as int].is_eternal) ==> r is None && final(jokers)@
            == old(jokers)@ && *final(money) == *old(money),
        index < old(jokers)@.len() && !old(jokers)@[index as int].is_eternal ==> {
            &&& r == Some(old(jokers)@[index as int])
            &&& final(jokers)@ == old(jokers)@.remove(index as int)
            &&& *final(money) == *old(money) + old(jokers)@[index as int].sell_value
        },
{
    if index < jokers.len() && !jokers[index].is_eternal {
        let sold = jokers.remove(index);
        *money = *money + sold.sell_value;
        Some(sold)
    } else {
        None
    }
}

/// Rerolls the shop if its price is within the money (plus the debt allowed): the price is
/// paid and the shop restocked. Tells the price paid (none when nothing happened).
pub fn reroll(shop: &mut Shop, money: &mut i64, debt_limit: i64, stake: Stake, rng: &mut StdRng) -> (r: Option<i64>)
    requires
        old(shop).reroll_count < i32::MAX,
        -1_000_000_000_000_000 <= old(shop).reroll_cost <= 1_000_000_000_000_000,
        -1_000_000_000_000_000 <= *old(money) <= 1_000_000_000_000_000,
        -1_000_000_000_000_000 <= debt_limit <= 1_000_000_000_000_000,
    ensures
        old(shop).reroll_cost + old(shop).reroll_count > *old(money) + debt_limit ==> r is None && *final(shop)
            == *old(shop) && *final(money) == *old(money),
        old(shop).reroll_cost + old(shop).reroll_count <= *old(money) + debt_limit ==> {
            &&& r == Some((old(shop).reroll_cost + old(shop).reroll_count) as i64)
            &&& *final(money) == *old(money) - (old(shop).reroll_cost + old(shop).reroll_count)
            &&& final(shop).reroll_count == old(shop).reroll_count + 1
            &&& final(shop).reroll_cost == old(shop).reroll_cost
            &&& final(shop).items@.len() == SHOP_JOKER_COUNT
        },
{
    let cost = shop.current_reroll_cost();
    if cost <= *money + debt_limit {
        *money = *money - cost;
        reroll_shop(shop, stake, rng);
        Some(cost)
    } else {
        None
    }
}

/// What a pack's picked cards do to the run: consumables join the slots while there is
/// room, a joker joins the row while there is a free slot, a playing card joins the deck.
fn take_pack_items(
    cards: &mut RunCards,
    jokers: &mut Vec<JokerFacts>,
    items: &Vec<PackItem>,
    pick: usize,
    slot_limit: usize,
)
    ensures
        final(cards).hand@ == old(cards).hand@,
        final(cards).money == old(cards).money,
        final(cards).consumables.capacity == old(cards).consumables.capacity,
        final(cards).deck@.subrange(0, old(cards).deck@.len() as int) == old(cards).deck@,
        old(cards).deck@.len() <= final(cards).deck@.len() <= old(cards).deck@.len() + pick,
        final(jokers)@.subrange(0, old(jokers)@.len() as int) == old(jokers)@,
        old(jokers)@.len() <= final(jokers)@.len() <= old(jokers)@.len() + pick,
        final(jokers)@.len() > old(jokers)@.len() ==> final(jokers)@.len() <= slot_limit,
{
    let mut i: usize = 0;
    let ghost deck0 = cards.deck@;
    let ghost jokers0 = jokers@;
    while i < pick && i < items.len()
        invariant
            deck0 == old(cards).deck@,
            jokers0 == old(jokers)@,
            i <= pick,
            cards.hand@ == old(cards).hand@,
            cards.money == old(cards).money,
            cards.consumables.capacity == old(cards).consumables.capacity,
            cards.deck@.subrange(0, deck0.len() as int) == deck0,
            deck0.len() <= cards.deck@.len() <= deck0.len() + i,
            jokers@.subrange(0, jokers0.len() as int) == jokers0,
            jokers0.len() <= jokers@.len() <= jokers0.len() + i,
            jokers@.len() > jokers0.len() ==> jokers@.len() <= slot_limit,
        decreases pick - i,
    {
        let ghost deck_before = cards.deck@;
        let ghost jokers_before = jokers@;
        match items[i] {
            PackItem::Tarot(t) => {
                let _ = cards.consumables.add(Consumable::Tarot(t));
            },
            PackItem::Planet(p) => {
                let _ = cards.consumables.add(Consumable::Planet(p));
            },
            PackItem::Spectral(sp) => {
                let _ = cards.consumables.add(Consumable::Spectral(sp));
            },
            PackItem::Joker(id, edition) => {
                if jokers.len() < slot_limit {
                    let mut j = make_joker(id);
                    j.edition = edition;
                    jokers.push(j);
                }
            },
            PackItem::PlayingCard(card) => {
                cards.deck.push(card);
            },
        }
        proof {
            assert(cards.deck@.subrange(0, deck0.len() as int) =~= deck_before.subrange(0, deck0.len() as int));
            assert(jokers@.subrange(0, jokers0.len() as int) =~= jokers_before.subrange(0, jokers0.len() as int));
        }
        i = i + 1;
    }
}

/// Buys the shop pack at `index` if its price is within the money (plus the debt allowed):
/// it is paid and leaves the shop, and the pack is opened and its first cards (as many as it
/// lets one take) are taken (see `take_pack_items`). Tells the price paid.
pub fn buy_pack(
    packs: &mut Vec<BoosterPack>,
    cards: &mut RunCards,
    jokers: &mut Vec<JokerFacts>,
    index: usize,
    slot_limit: usize,
    debt_limit: i64,
    rng: &mut StdRng,
) -> (r: Option<i64>)
    requires
        -1_000_000_000_000_000 <= old(cards).money <= 1_000_000_000_000_000,
        -1_000_000_000_000_000 <= debt_limit <= 1_000_000_000_000_000,
        forall|i: int| 0 <= i < old(packs)@.len() ==> 0 <= #[trigger] old(packs)@[i].cost <= 1_000_000_000_000_000,
        old(jokers)@.len() <= 1_000_000,
    ensures
        !(index < old(packs)@.len() && old(packs)@[index as int].cost <= old(cards).money + debt_limit) ==> r is None
            && final(packs)@ == old(packs)@ && *final(cards) == *old(cards) && final(jokers)@ == old(jokers)@,
        index < old(packs)@.len() && old(packs)@[index as int].cost <= old(cards).money + debt_limit ==> {
            let pick = pack_pick_count(booster_pack_kind(old(packs)@[index as int].pack_type));
            &&& r == Some(old(packs)@[index as int].cost)
            &&& final(cards).money == old(cards).money - old(packs)@[index as int].cost
            &&& final(packs)@ == old(packs)@.remove(index as int)
            &&& final(cards).hand@ == old(cards).hand@
            &&& final(cards).deck@.subrange(0, old(cards).deck@.len() as int) == old(cards).deck@
            &&& final(cards).deck@.len() <= old(cards).deck@.len() + pick
            &&& final(jokers)@.subrange(0, old(jokers)@.len() as int) == old(jokers)@
            &&& final(jokers)@.len() <= old(jokers)@.len() + pick
            &&& final(cards).consumables.capacity == old(cards).consumables.capacity
        },
{
    if index >= packs.len() {
        return None;
    }
    let cost = packs[index].cost;
    if !(cost <= cards.money + debt_limit) {
        return None;
    }
    cards.money = cards.money - cost;
    let kind = packs[index].pack_type.to_pack_type();
    let contents = PackContents::generate(kind, rng);
    let pick = kind.pick_count();
    take_pack_items(cards, jokers, &contents.items, pick, slot_limit);
    packs.remove(index);
    Some(cost)
}

/// A consumable used in the shop can be carried out: its counter and, for a planet, its
/// hand level (for Black Hole every level) have room.
pub open spec fn shop_use_allowed(cards: RunCards, usage: UsageCounters, c: Consumable) -> bool {
    match c {
        Consumable::Planet(p) => usage.planets_used_this_run < i32::MAX && cards.hand_levels@[planet_hand_type(p) as int]
            < u32::MAX,
        Consumable::Tarot(_) => usage.tarots_used_this_run < i32::MAX,
        Consumable::Spectral(sp) => sp == crate::consumables::SpectralId::BlackHole ==> forall|h: int|
            0 <= h < cards.hand_levels@.len() ==> #[trigger] cards.hand_levels@[h] < u32::MAX,
    }
}

/// Uses the consumable in slot `index` while in the shop, where cards in hand are not
/// touched: a planet levels up its hand type; a tarot is counted, and The Fool brings back
/// a copy of the last tarot or spectral card used (when a slot is free); Black Hole levels up
/// every hand type. The card becomes the last one used (The Fool excepted). Nothing happens
/// when the slot is empty (false).
pub fn use_consumable_in_shop(cards: &mut RunCards, usage: &mut UsageCounters, index: usize) -> (r: bool)
    requires
        index < old(cards).consumables.items@.len() ==> shop_use_allowed(
            *old(cards),
            *old(usage),
            old(cards).consumables.items@[index as int],
        ),
    ensures
        r == (index < old(cards).consumables.items@.len()),
        !r ==> *final(cards) == *old(cards) && *final(usage) == *old(usage),
        final(cards).hand@ == old(cards).hand@,
        final(cards).deck@ == old(cards).deck@,
        final(cards).money == old(cards).money,
        final(cards).consumables.capacity == old(cards).consumables.capacity,
        r ==> ({
            let used = old(cards).consumables.items@[index as int];
            let left = old(cards).consumables.items@.remove(index as int);
            &&& final(usage).last_consumable_id == crate::consumables::consumable_global_index(used)
            &&& match used {
                Consumable::Planet(p) => {
                    &&& final(cards).hand_levels@ == old(cards).hand_levels@.update(
                        planet_hand_type(p) as int,
                        (old(cards).hand_levels@[planet_hand_type(p) as int] + 1) as u32,
                    )
                    &&& final(usage).planet_used_hand_types == (old(usage).planet_used_hand_types | (1u16
                        << planet_hand_type(p) as u16))
                    &&& final(usage).planets_used_this_run == old(usage).planets_used_this_run + 1
                    &&& final(usage).tarots_used_this_run == old(usage).tarots_used_this_run
                    &&& final(cards).consumables.items@ == left
                    &&& final(cards).last_used_consumable == Some(used)
                },
                Consumable::Tarot(t) => {
                    &&& final(cards).hand_levels@ == old(cards).hand_levels@
                    &&& final(usage).tarots_used_this_run == old(usage).tarots_used_this_run + 1
                    &&& final(usage).planets_used_this_run == old(usage).planets_used_this_run
                    &&& (t == TarotId::TheFool ==> {
                        &&& final(cards).last_used_consumable == old(cards).last_used_consumable
                        &&& final(cards).consumables.items@ == if old(cards).last_used_consumable is Some
                            && left.len() < old(cards).consumables.capacity {
                            left.push(old(cards).last_used_consumable.unwrap())
                        } else {
                            left
                        }
                    })
                    &&& (t != TarotId::TheFool ==> final(cards).last_used_consumable == Some(used)
                        && final(cards).consumables.items@ == left)
                },
                Consumable::Spectral(sp) => {
                    &&& (sp == crate::consumables::SpectralId::BlackHole ==> forall|h: int|
                        0 <= h < old(cards).hand_levels@.len() ==> #[trigger] final(cards).hand_levels@[h]
                            == old(cards).hand_levels@[h] + 1)
                    &&& (sp != crate::consumables::SpectralId::BlackHole ==> final(cards).hand_levels@
                        == old(cards).hand_levels@)
                    &&& final(usage).tarots_used_this_run == old(usage).tarots_used_this_run
                    &&& final(usage).planets_used_this_run == old(usage).planets_used_this_run
                    &&& final(cards).consumables.items@ == left
                    &&& final(cards).last_used_consumable == Some(used)
                },
            }
        }),
{
    if index >= cards.consumables.items.len() {
        return false;
    }
    match cards.consumables.use_item(index) {
        None => false,
        Some(consumable) => {
            usage.last_consumable_id = consumable.to_global_index() as i32;
            match consumable {
                Consumable::Planet(planet_id) => {
                    let h = planet_id.hand_type_index();
                    cards.hand_levels.upgrade(h);
                    usage.planet_used_hand_types = usage.planet_used_hand_types | (1u16 << h as u16);
                    usage.planets_used_this_run = usage.planets_used_this_run + 1;
                    cards.last_used_consumable = Some(consumable);
                },
                Consumable::Tarot(tarot_id) => {
                    usage.tarots_used_this_run = usage.tarots_used_this_run + 1;
                    if tarot_id == TarotId::TheFool {
                        match cards.last_used_consumable {
                            Some(last) => {
                                if !cards.consumables.is_full() {
                                    let _ = cards.consumables.add(last);
                                }
                            },
                            None => {},
                        }
                    } else {
                        cards.last_used_consumable = Some(consumable);
                    }
                },
                Consumable::Spectral(spectral_id) => {
                    if spectral_id == crate::consumables::SpectralId::BlackHole {
                        cards.hand_levels.upgrade_all();
                    }
                    cards.last_used_consumable = Some(consumable);
                },
            }
            true
        },
    }
}

/// Perkeo, on entering the shop: per enabled copy, a copy of a random consumable held
/// joins the slots (past their capacity too); nothing when none is held.
pub fn perkeo_copies(cards: &mut RunCards, count: usize, rng: &mut StdRng)
    requires
        old(cards).consumables.items@.len() + count <= usize::MAX,
    ensures
        final(cards).consumables.items@.len() == old(cards).consumables.items@.len() + if old(
            cards,
        ).consumables.items@.len() > 0 {
            count as int
        } else {
            0
        },
        final(cards).consumables.items@.subrange(0, old(cards).consumables.items@.len() as int)
            == old(cards).consumables.items@,
        forall|k: int|
            old(cards).consumables.items@.len() <= k < final(cards).consumables.items@.len()
                ==> old(cards).consumables.items@.contains(#[trigger] final(cards).consumables.items@[k]),
        final(cards).consumables.capacity == old(cards).consumables.capacity,
        final(cards).hand@ == old(cards).hand@,
        final(cards).deck@ == old(cards).deck@,
        final(cards).money == old(cards).money,
        final(cards).hand_levels == old(cards).hand_levels,
{
    let n = cards.consumables.items.len();
    if n == 0 {
        return;
    }
    let ghost start = cards.consumables.items@;
    let mut i: usize = 0;
    while i < count
        invariant
            n == start.len(),
            n > 0,
            n + count <= usize::MAX,
            i <= count,
            cards.consumables.items@.len() == n + i,
            cards.consumables.items@.subrange(0, n as int) == start,
            forall|k: int| n <= k < n + i ==> start.contains(#[trigger] cards.consumables.items@[k]),
            cards.consumables.capacity == old(cards).consumables.capacity,
            cards.hand@ == old(cards).hand@,
            cards.deck@ == old(cards).deck@,
            cards.money == old(cards).money,
            cards.hand_levels == old(cards).hand_levels,
            start == old(cards).consumables.items@,
        decreases count - i,
    {
        let pick = crate::rng::gen_below(rng, n);
        let copy = cards.consumables.items[pick];
        proof {
            assert(cards.consumables.items@.subrange(0, n as int)[pick as int] == copy);
            assert(start[pick as int] == copy);
        }
        let ghost before = cards.consumables.items@;
        cards.consumables.items.push(copy);
        proof {
            assert(cards.consumables.items@.subrange(0, n as int) =~= before.subrange(0, n as int));
        }
        i = i + 1;
    }
}

// ---------------------------------------------------------------------------
// Moving on to the next round
// ---------------------------------------------------------------------------

/// A perishable joker with one round fewer left.
pub open spec fn ticked(j: JokerFacts) -> JokerFacts {
    if j.is_perishable {
        JokerFacts { perishable_rounds: (j.perishable_rounds - 1) as i32, ..j }
    } else {
        j
    }
}

/// The row after a round: perishable jokers lose a round, and those with none left go.
pub open spec fn after_perishing(s: Seq<JokerFacts>) -> Seq<JokerFacts>
    decreases s.len(),
{
    if s.len() == 0 {
        s
    } else {
        let p = after_perishing(s.drop_last());
        let j = ticked(s.last());
        if !j.is_perishable || j.perishable_rounds > 0 {
            p.push(j)
        } else {
            p
        }
    }
}

/// Rental jokers in the row.
pub open spec fn rental_count(s: Seq<JokerFacts>) -> int
    decreases s.len(),
{
    if s.len() == 0 {
        0
    } else {
        rental_count(s.drop_last()) + if s.last().is_rental { 1int } else { 0int }
    }
}

/// The row without its first `m` rental jokers.
pub open spec fn drop_first_rentals(s: Seq<JokerFacts>, m: int) -> Seq<JokerFacts>
    decreases s.len(),
{
    if s.len() == 0 {
        s
    } else {
        let p = drop_first_rentals(s.drop_last(), m);
        if s.last().is_rental && rental_count(s.drop_last()) < m {
            p
        } else {
            p.push(s.last())
        }
    }
}

/// Rental jokers that stay: as many as $3 each can pay for (none when in debt).
pub open spec fn rentals_kept(rentals: int, money: int) -> int {
    if money < 0 {
        0
    } else if rentals <= money / 3 {
        rentals
    } else {
        money / 3
    }
}

/// Rocket gathers $1 more per round for each boss beaten.
pub open spec fn rocket_boosted(j: JokerFacts) -> JokerFacts {
    if j.enabled && j.id == JokerId::Rocket {
        JokerFacts { counter: (j.counter + 1) as i32, ..j }
    } else {
        j
    }
}

fn perish(jokers: &mut Vec<JokerFacts>)
    requires
        forall|i: int| 0 <= i < old(jokers)@.len() ==> (#[trigger] old(jokers)@[i]).perishable_rounds > i32::MIN,
    ensures
        final(jokers)@ == after_perishing(old(jokers)@),
{
    let mut kept: Vec<JokerFacts> = Vec::new();
    let mut i: usize = 0;
    while i < jokers.len()
        invariant
            i <= jokers@.len(),
            forall|k: int| 0 <= k < jokers@.len() ==> (#[trigger] jokers@[k]).perishable_rounds > i32::MIN,
            kept@ == after_perishing(jokers@.take(i as int)),
        decreases jokers@.len() - i,
    {
        proof {
            assert(jokers@.take(i as int + 1).drop_last() =~= jokers@.take(i as int));
        }
        let mut j = jokers[i];
        if j.is_perishable {
            j.perishable_rounds = j.perishable_rounds - 1;
        }
        if !j.is_perishable || j.perishable_rounds > 0 {
            kept.push(j);
        }
        i = i + 1;
    }
    proof {
        assert(jokers@.take(jokers@.len() as int) =~= jokers@);
    }
    *jokers = kept;
}

fn count_rentals(jokers: &[JokerFacts]) -> (r: usize)
    ensures
        r == rental_count(jokers@),
        r <= jokers@.len(),
{
    let mut r: usize = 0;
    let mut i: usize = 0;
    while i < jokers.len()
        invariant
            i <= jokers@.len(),
            r == rental_count(jokers@.take(i as int)),
            r <= i,
        decreases jokers@.len() - i,
    {
        proof {
            assert(jokers@.take(i as int + 1).drop_last() =~= jokers@.take(i as int));
        }
        if jokers[i].is_rental {
            r = r + 1;
        }
        i = i + 1;
    }
    proof {
        assert(jokers@.take(jokers@.len() as int) =~= jokers@);
    }
    r
}

/// Rent: $3 per rental joker; when the money does not cover it, rental jokers leave from
/// the left until it does (all of them when in debt).
fn pay_rent(jokers: &mut Vec<JokerFacts>, money: &mut i64)
    requires
        old(jokers)@.len() <= 1_000_000,
        -1_000_000_000_000_000 <= *old(money) <= 1_000_000_000_000_000,
    ensures
        final(jokers)@ == drop_first_rentals(
            old(jokers)@,
            rental_count(old(jokers)@) - rentals_kept(rental_count(old(jokers)@), *old(money) as int),
        ),
        *final(money) == *old(money) - 3 * rentals_kept(rental_count(old(jokers)@), *old(money) as int),
{
    let total = count_rentals(jokers) as i64;
    let kept: i64 = if *money < 0 {
        0
    } else if total <= *money / 3 {
        total
    } else {
        *money / 3
    };
    let drop = total - kept;
    let mut out: Vec<JokerFacts> = Vec::new();
    let mut seen: i64 = 0;
    let mut i: usize = 0;
    while i < jokers.len()
        invariant
            i <= jokers@.len() <= 1_000_000,
            seen == rental_count(jokers@.take(i as int)),
            0 <= seen <= i,
            out@ == drop_first_rentals(jokers@.take(i as int), drop as int),
        decreases jokers@.len() - i,
    {
        proof {
            assert(jokers@.take(i as int + 1).drop_last() =~= jokers@.take(i as int));
        }
        let j = jokers[i];
        if !(j.is_rental && seen < drop) {
            out.push(j);
        }
        if j.is_rental {
            seen = seen + 1;
        }
        i = i + 1;
    }
    proof {
        assert(jokers@.take(jokers@.len() as int) =~= jokers@);
    }
    *jokers = out;
    *money = *money - 3 * kept;
}

fn boost_rockets(jokers: &mut Vec<JokerFacts>)
    requires
        counters_in_range(old(jokers)@),
    ensures
        final(jokers)@ == Seq::new(old(jokers)@.len(), |i: int| rocket_boosted(old(jokers)@[i])),
{
    let ghost start = jokers@;
    let mut i: usize = 0;
    while i < jokers.len()
        invariant
            i <= jokers@.len() == start.len(),
            counters_in_range(start),
            forall|k: int| 0 <= k < i ==> #[trigger] jokers@[k] == rocket_boosted(start[k]),
            forall|k: int| i <= k < start.len() ==> #[trigger] jokers@[k] == start[k],
        decreases start.len() - i,
    {
        let mut j = jokers[i];
        assert(j == start[i as int]);
        if j.enabled && j.id == JokerId::Rocket {
            j.counter = j.counter + 1;
        }
        jokers.set(i, j);
        i = i + 1;
    }
    assert(jokers@ =~= Seq::new(start.len(), |i: int| rocket_boosted(start[i])));
}

/// The row a round leaves: perishable jokers tick, then rent is paid.
pub open spec fn row_after_round(s: Seq<JokerFacts>, money: int) -> Seq<JokerFacts> {
    let p = after_perishing(s);
    drop_first_rentals(p, rental_count(p) - rentals_kept(rental_count(p), money))
}

/// Rent paid after a round: $3 per rental joker that stays.
pub open spec fn rent_paid(s: Seq<JokerFacts>, money: int) -> int {
    3 * rentals_kept(rental_count(after_perishing(s)), money)
}

/// Leaves the shop for the next round. After a Boss blind the ante advances (the run is won
/// when it cannot) and Rocket gathers more; otherwise the next blind of the ante comes.
/// Either way perishable jokers tick and rent is paid. Tells whether the run was won.
pub fn next_round(
    progress: &mut BlindProgress,
    ante: &mut AnteProgress,
    jokers: &mut Vec<JokerFacts>,
    money: &mut i64,
    round_number: &mut i32,
    ante_reduction: i32,
) -> (r: bool)
    requires
        old(progress).ante == old(ante).ante,
        ante_reduction >= 8 - i32::MAX,
        old(ante).endless_ante < i32::MAX,
        *old(round_number) < i32::MAX,
        old(jokers)@.len() <= 1_000_000,
        -1_000_000_000_000_000 <= *old(money) <= 1_000_000_000_000_000,
        counters_in_range(old(jokers)@),
        forall|i: int| 0 <= i < old(jokers)@.len() ==> (#[trigger] old(jokers)@[i]).perishable_rounds > i32::MIN,
    ensures
        final(progress).ante == final(ante).ante,
        r == (old(progress).blind_type == Some(BlindType::Boss) && !(old(ante).endless_mode || (
        crate::blinds::ante_number(old(ante).ante) < crate::run_state::target_ante(ante_reduction as int)
            && old(ante).ante != crate::blinds::Ante::Eight))),
        r ==> final(progress).stage == Stage::End(GameEnd::Win) && *final(round_number) == *old(round_number)
            && final(jokers)@ == row_after_round(old(jokers)@, *old(money) as int)
            && *final(money) == *old(money) - rent_paid(old(jokers)@, *old(money) as int),
        !r ==> final(progress).stage == Stage::PreBlind && *final(round_number) == *old(round_number) + 1,
        !r && old(progress).blind_type == Some(BlindType::Boss) ==> final(progress).blind_type is None
            && final(jokers)@ == row_after_round(
            Seq::new(old(jokers)@.len(), |i: int| rocket_boosted(old(jokers)@[i])),
            *old(money) as int,
        ) && *final(money) == *old(money) - rent_paid(
            Seq::new(old(jokers)@.len(), |i: int| rocket_boosted(old(jokers)@[i])),
            *old(money) as int,
        ),
        old(progress).blind_type != Some(BlindType::Boss) ==> final(progress).blind_type == old(progress).blind_type
            && final(jokers)@ == row_after_round(old(jokers)@, *old(money) as int)
            && *final(money) == *old(money) - rent_paid(old(jokers)@, *old(money) as int),
        final(progress).boss_blind == old(progress).boss_blind,
{
    let mut won = false;
    if progress.blind_type == Some(BlindType::Boss) {
        if ante.advance_ante(ante_reduction) {
            progress.blind_type = None;
            progress.stage = Stage::PreBlind;
            progress.ante = ante.ante;
            *round_number = *round_number + 1;
            boost_rockets(jokers);
        } else {
            progress.stage = Stage::End(GameEnd::Win);
            won = true;
        }
    } else {
        progress.stage = Stage::PreBlind;
        *round_number = *round_number + 1;
    }
    proof {
        assert forall|i: int| 0 <= i < jokers@.len() implies (#[trigger] jokers@[i]).perishable_rounds > i32::MIN by {
            if !won && old(progress).blind_type == Some(BlindType::Boss) {
                assert(jokers@[i] == rocket_boosted(old(jokers)@[i]));
            }
        }
    }
    let ghost before_perish = jokers@;
    perish(jokers);
    proof {
        lemma_after_perishing_len(before_perish);
    }
    pay_rent(jokers, money);
    won
}

proof fn lemma_after_perishing_len(s: Seq<JokerFacts>)
    ensures
        after_perishing(s).len() <= s.len(),
    decreases s.len(),
{
    if s.len() > 0 {
        lemma_after_perishing_len(s.drop_last());
    }
}

// ---------------------------------------------------------------------------
// Changes to the joker row
// ---------------------------------------------------------------------------

/// A joker as it first joins the row: enabled, no stickers, base edition, selling for half
/// its base price.
pub open spec fn new_joker(id: JokerId) -> JokerFacts {
    JokerFacts {
        id,
        enabled: true,
        is_negative: false,
        sell_value: (joker_base_cost(id) / 2) as i64,
        turtle_hand_mod: if id == JokerId::TurtleBean { 5i32 } else { 0i32 },
        counter: 0,
        is_eternal: false,
        is_perishable: false,
        perishable_rounds: 0,
        is_rental: false,
        edition: Edition::Base,
    }
}

fn make_joker(id: JokerId) -> (r: JokerFacts)
    ensures
        r == new_joker(id),
{
    let cost = id.base_cost();
    proof {
        lemma_base_cost_small(id);
    }
    JokerFacts {
        id,
        enabled: true,
        is_negative: false,
        sell_value: cost / 2,
        turtle_hand_mod: if id == JokerId::TurtleBean { 5 } else { 0 },
        counter: 0,
        is_eternal: false,
        is_perishable: false,
        perishable_rounds: 0,
        is_rental: false,
        edition: Edition::Base,
    }
}

proof fn lemma_base_cost_small(id: JokerId)
    ensures
        0 <= joker_base_cost(id) <= 100,
{
}

/// The row after a change asked for by a tarot or spectral card; a change naming a position
/// outside the row changes nothing.
pub open spec fn changed_row(s: Seq<JokerFacts>, c: JokerChange) -> Seq<JokerFacts> {
    match c {
        JokerChange::Unchanged => s,
        JokerChange::Add(id) => s.push(new_joker(id)),
        JokerChange::SetEdition(i, e) => if i < s.len() {
            s.update(i as int, JokerFacts { edition: e, ..s[i as int] })
        } else {
            s
        },
        JokerChange::MakeNegative(i) => if i < s.len() {
            s.update(i as int, JokerFacts { is_negative: true, ..s[i as int] })
        } else {
            s
        },
        JokerChange::KeepTwice(i) => if i < s.len() {
            seq![s[i as int], s[i as int]]
        } else {
            s
        },
        JokerChange::KeepPolychrome(i) => if i < s.len() {
            seq![JokerFacts { edition: Edition::Polychrome, ..s[i as int] }]
        } else {
            s
        },
    }
}

/// Carries out a change to the joker row.
pub fn apply_joker_change(jokers: &mut Vec<JokerFacts>, change: JokerChange)
    ensures
        final(jokers)@ == changed_row(old(jokers)@, change),
{
    match change {
        JokerChange::Unchanged => {},
        JokerChange::Add(id) => {
            let j = make_joker(id);
            jokers.push(j);
        },
        JokerChange::SetEdition(i, e) => {
            if i < jokers.len() {
                let mut j = jokers[i];
                j.edition = e;
                jokers.set(i, j);
            }
        },
        JokerChange::MakeNegative(i) => {
            if i < jokers.len() {
                let mut j = jokers[i];
                j.is_negative = true;
                jokers.set(i, j);
            }
        },
        JokerChange::KeepTwice(i) => {
            if i < jokers.len() {
                let kept = jokers[i];
                let mut row: Vec<JokerFacts> = Vec::new();
                row.push(kept);
                row.push(kept);
                proof {
                    assert(row@ =~= seq![old(jokers)@[i as int], old(jokers)@[i as int]]);
                }
                *jokers = row;
            }
        },
        JokerChange::KeepPolychrome(i) => {
            if i < jokers.len() {
                let mut kept = jokers[i];
                kept.edition = Edition::Polychrome;
                let mut row: Vec<JokerFacts> = Vec::new();
                row.push(kept);
                proof {
                    assert(row@ =~= seq![JokerFacts { edition: Edition::Polychrome, ..old(jokers)@[i as int] }]);
                }
                *jokers = row;
            }
        },
    }
}

proof fn lemma_enabled_sell_total_bounds(s: Seq<JokerFacts>)
    requires
        sell_values_in_range(s),
    ensures
        -1_000_000_000_000 * s.len() <= crate::run_state::enabled_sell_total(s) <= 1_000_000_000_000 * s.len(),
    decreases s.len(),
{
    if s.len() > 0 {
        assert(sell_values_in_range(s.drop_last()));
        lemma_enabled_sell_total_bounds(s.drop_last());
    }
}

/// Adds the jokers that tags hand out.
fn add_jokers(jokers: &mut Vec<JokerFacts>, ids: &Vec<JokerId>)
    ensures
        final(jokers)@ == old(jokers)@ + Seq::new(ids@.len(), |i: int| new_joker(ids@[i])),
{
    let mut i: usize = 0;
    while i < ids.len()
        invariant
            i <= ids@.len(),
            jokers@ == old(jokers)@ + Seq::new(i as nat, |k: int| new_joker(ids@[k])),
        decreases ids@.len() - i,
    {
        let j = make_joker(ids[i]);
        jokers.push(j);
        i = i + 1;
        proof {
            assert(jokers@ =~= old(jokers)@ + Seq::new(i as nat, |k: int| new_joker(ids@[k])));
        }
    }
}

/// Buys the voucher on offer if its price is within the money (plus the debt allowed): it is
/// paid and no longer on offer, and its effect is taken on (unless it is owned already or its
/// base voucher is not, see `VoucherEffects::buy`). Tells the price paid.
pub fn buy_voucher(
    offer: &mut Option<VoucherId>,
    effects: &mut VoucherEffects,
    money: &mut i64,
    debt_limit: i64,
) -> (r: Option<i64>)
    requires
        old(effects).well_formed(),
        -1_000_000_000_000_000 <= *old(money) <= 1_000_000_000_000_000,
        -1_000_000_000_000_000 <= debt_limit <= 1_000_000_000_000_000,
    ensures
        final(effects).well_formed(),
        (old(offer).is_some() && 10 <= *old(money) + debt_limit) ==> {
            let v = old(offer).unwrap();
            &&& r == Some(10i64)
            &&& *final(money) == *old(money) - 10
            &&& final(offer).is_none()
            &&& (can_buy(old(effects).owned@, v) ==> final(effects).owned@ == old(effects).owned@.push(v))
            &&& (!can_buy(old(effects).owned@, v) ==> *final(effects) == *old(effects))
        },
        !(old(offer).is_some() && 10 <= *old(money) + debt_limit) ==> r is None && *final(money) == *old(money)
            && *final(effects) == *old(effects) && *final(offer) == *old(offer),
{
    match *offer {
        Some(v) => {
            let cost = v.cost();
            if cost <= *money + debt_limit {
                *money = *money - cost;
                let _ = effects.buy(v);
                *offer = None;
                Some(cost)
            } else {
                None
            }
        },
        None => None,
    }
}

// ---------------------------------------------------------------------------
// One step of a run
// ---------------------------------------------------------------------------

/// The whole run as the stage machine sees it.
#[derive(Clone, Debug)]
pub struct RunState {
    /// Stage, blind, boss and ante.
    pub progress: BlindProgress,
    pub endless_mode: bool,
    pub endless_ante: i32,
    pub round: BlindRound,
    /// Hand, deck, money, consumables and hand levels.
    pub cards: RunCards,
    pub jokers: Vec<JokerFacts>,
    pub shop: Shop,
    pub shop_voucher: Option<VoucherId>,
    pub shop_packs: Vec<BoosterPack>,
    /// The vouchers owned and what they add up to.
    pub voucher_effects: VoucherEffects,
    pub tags: Vec<Tag>,
    pub stake: Stake,
    pub deck_type: DeckType,
    pub joker_slot_base: usize,
    pub hand_size: usize,
    /// How far into debt purchases may go.
    pub debt_limit: i64,
    pub round_number: i32,
    pub episode_step: i32,
    /// Consumables used so far.
    pub usage: UsageCounters,
    pub rerolls: i32,
    pub blinds_skipped: i32,
    /// Hand type of the last hand played.
    pub last_hand_type: Option<usize>,
}

impl RunState {
    /// A run at its start: before the first blind of the first ante, with the given cards and
    /// deck, no jokers, tags or vouchers, an empty shop, five joker slots and no debt allowed.
    pub fn new(cards: RunCards, stake: Stake, deck_type: DeckType, hand_size: usize) -> (r: RunState)
        ensures
            r.progress.stage == Stage::PreBlind,
            r.progress.blind_type is None,
            r.progress.boss_blind is None,
            r.progress.ante == crate::blinds::Ante::One,
            r.round == (BlindRound { plays_left: 0, discards_left: 0, score: 0, hands_played: 0, discards_used: 0, reward: 0 }),
            r.cards == cards,
            r.jokers@.len() == 0,
            r.shop.items@.len() == 0,
            r.tags@.len() == 0,
            r.voucher_effects.well_formed(),
            r.voucher_effects.owned@.len() == 0,
            r.stake == stake,
            r.deck_type == deck_type,
            r.hand_size == hand_size,
            r.joker_slot_base == crate::constants::JOKER_SLOTS,
            r.debt_limit == 0,
            r.episode_step == 0,
            r.round_number == 1,
    {
        RunState {
            progress: BlindProgress {
                stage: Stage::PreBlind,
                blind_type: None,
                boss_blind: None,
                ante: crate::blinds::Ante::One,
            },
            endless_mode: false,
            endless_ante: 0,
            round: BlindRound { plays_left: 0, discards_left: 0, score: 0, hands_played: 0, discards_used: 0, reward: 0 },
            cards,
            jokers: Vec::new(),
            shop: Shop::new(),
            shop_voucher: None,
            shop_packs: Vec::new(),
            voucher_effects: VoucherEffects::new(),
            tags: Vec::new(),
            stake,
            deck_type,
            joker_slot_base: crate::constants::JOKER_SLOTS,
            hand_size,
            debt_limit: 0,
            round_number: 1,
            episode_step: 0,
            usage: UsageCounters {
                last_consumable_id: -1,
                planet_used_hand_types: 0,
                planets_used_this_run: 0,
                tarots_used_this_run: 0,
            },
            rerolls: 0,
            blinds_skipped: 0,
            last_hand_type: None,
        }
    }
}

/// What the caller worked out for this step: the hand about to be played (when playing) and
/// the dollars Reserved Parking won (when cashing out).
#[derive(Clone, Debug)]
pub struct StepInputs {
    pub play: Option<PlayedHand>,
    pub parking_dollars: i64,
}

/// What a step reports.
#[derive(Clone, Copy, Debug, PartialEq, Eq, Structural)]
pub struct StepOutcome {
    /// The run has ended.
    pub done: bool,
    pub score_delta: i64,
    pub money_delta: i64,
    /// Price paid for a purchase or reroll.
    pub action_cost: i64,
    /// Cards selected when a hand was played (0 otherwise).
    pub cards_played: i32,
    /// Index of the hand type played (0 otherwise).
    pub hand_type: i32,
    /// The played hand cleared the blind.
    pub blind_cleared: bool,
    /// Cards discarded: the bits set in the selection (0 otherwise).
    pub cards_discarded: i32,
}

/// Sizes and amounts of a run that keep every step in range.
pub open spec fn run_in_range(s: RunState, inputs: StepInputs) -> bool {
    &&& s.cards.hand@.len() <= 32
    &&& hand_bonus_in_range(s.cards.hand@)
    &&& s.jokers@.len() <= 1_000_000
    &&& s.cards.deck@.len() <= 1_000_000
    &&& s.cards.discarded@.len() <= 1_000_000
    &&& -1_000_000_000_000_000 <= s.cards.money <= 1_000_000_000_000_000
    &&& -1_000_000_000_000_000 <= s.round.score <= 1_000_000_000_000_000
    &&& -1_000_000_000_000_000 <= s.round.reward <= 1_000_000_000_000_000
    &&& s.round.hands_played < i32::MAX
    &&& s.round.discards_used < i32::MAX
    &&& sell_values_in_range(s.jokers@)
    &&& counters_in_range(s.jokers@)
    &&& turtle_mods_in_range(s.jokers@)
    &&& (inputs.play matches Some(p) ==> 0 <= p.selzer_used <= 1_000_000)
    &&& (forall|i: int| 0 <= i < s.cards.hand_levels@.len() ==> #[trigger] s.cards.hand_levels@[i] <= 4_000_000_000)
    &&& dagger_values_in_range(s.jokers@, 400_000_000)
    &&& (forall|i: int| 0 <= i < s.jokers@.len() ==> (#[trigger] s.jokers@[i]).perishable_rounds > i32::MIN)
    &&& s.episode_step < i32::MAX
    &&& s.round_number < i32::MAX
    &&& s.endless_ante < i32::MAX
    &&& s.voucher_effects.well_formed()
    &&& 0 <= s.voucher_effects.ante_reduction <= 1_000_000
    &&& -1_000_000 <= s.voucher_effects.extra_hands <= 1_000_000
    &&& -1_000_000 <= s.voucher_effects.extra_discards <= 1_000_000
    &&& s.shop.reroll_count < i32::MAX
    &&& -1_000_000_000_000_000 <= s.shop.reroll_cost <= 1_000_000_000_000_000
    &&& (forall|i: int| 0 <= i < s.shop.items@.len() ==> -1_000_000_000_000_000 <= #[trigger] s.shop.items@[i].cost
        <= 1_000_000_000_000_000)
    &&& -1_000_000_000_000_000 <= s.debt_limit <= 1_000_000_000_000_000
    &&& s.rerolls < i32::MAX
    &&& s.blinds_skipped < i32::MAX
    &&& s.tags@.len() <= 1_000_000
    &&& (forall|i: int| 0 <= i < s.shop_packs@.len() ==> 0 <= #[trigger] s.shop_packs@[i].cost <= 1_000_000_000_000_000)
    &&& cerulean_allowed(s.cards, s.usage)
    &&& s.voucher_effects.joker_slot_bonus >= 0
    &&& s.joker_slot_base <= 1_000_000
    &&& s.voucher_effects.joker_slot_bonus <= 1_000_000
    &&& (inputs.play matches Some(p) ==> -1_000_000_000_000_000 <= p.score <= 1_000_000_000_000_000
        && -1_000_000_000_000_000 <= p.money <= 1_000_000_000_000_000)
    &&& 0 <= inputs.parking_dollars <= 1_000_000_000_000_000
}

/// Carries out one action of a run in its stage. Before a blind: choose or skip it. In a
/// blind: select, play (with the hand worked out by the caller), discard, or use a
/// consumable (its change to the joker row is carried out). After a cleared blind: cash
/// out, which also brings the blue-seal planets, restocks the shop, cashes in the tags and
/// lets Perkeo copy consumables.
/// In the shop: buy or sell a joker (selling Diet Cola brings a Double Tag, selling Luchador
/// disables the boss), use a consumable, buy the voucher or a pack, reroll, or move on to
/// the next round. An action that does not belong to the stage changes nothing. Every
/// step counts; at the step limit the run is lost.
#[verifier::spinoff_prover]
pub fn step(state: &mut RunState, action_type: i32, action_id: u32, inputs: &StepInputs, rng: &mut StdRng) -> (r: StepOutcome)
    requires
        run_in_range(*old(state), *inputs),
        old(state).progress.stage == Stage::Blind && action_type == ACTION_TYPE_USE_CONSUMABLE && (action_id as int)
            < old(state).cards.consumables.items@.len() ==> use_allowed(
            old(state).cards,
            old(state).usage,
            old(state).cards.consumables.items@[action_id as int],
            old(state).jokers@,
        ),
        old(state).progress.stage == Stage::Shop && action_type == ACTION_TYPE_USE_CONSUMABLE && (action_id as int)
            < old(state).cards.consumables.items@.len() ==> shop_use_allowed(
            old(state).cards,
            old(state).usage,
            old(state).cards.consumables.items@[action_id as int],
        ),
    ensures
        final(state).episode_step == old(state).episode_step + 1,
        final(state).episode_step >= MAX_STEPS ==> final(state).progress.stage == Stage::End(GameEnd::Lose) && r.done,
        r.done == (final(state).progress.stage is End),
        old(state).progress.stage is End ==> {
            &&& r.done
            &&& final(state).round == old(state).round
            &&& final(state).cards == old(state).cards
            &&& final(state).jokers@ == old(state).jokers@
            &&& final(state).progress.blind_type == old(state).progress.blind_type
        },
        r.score_delta == final(state).round.score - old(state).round.score,
        r.money_delta == final(state).cards.money - old(state).cards.money,
        old(state).progress.stage == Stage::Blind && action_type == ACTION_TYPE_PLAY && inputs.play is Some
            && play_allowed(old(state).round, old(state).cards, old(state).progress.boss_blind) ==> {
            let p = inputs.play.unwrap();
            &&& final(state).round.plays_left == old(state).round.plays_left - 1
            &&& final(state).round.score == old(state).round.score + p.score
            &&& final(state).cards.selected_mask == 0
            &&& (final(state).round.score >= p.required && final(state).episode_step < MAX_STEPS
                ==> final(state).progress.stage == Stage::PostBlind)
            &&& (final(state).round.score < p.required && final(state).round.plays_left == 0
                ==> final(state).progress.stage == Stage::End(GameEnd::Lose))
        },
        old(state).progress.stage == Stage::PostBlind && action_type == ACTION_TYPE_CASH_OUT ==> {
            &&& final(state).cards.money == old(state).cards.money + cash_out_money(
                old(state).round,
                old(state).cards,
                old(state).jokers@,
                old(state).usage.planets_used_this_run as int,
                inputs.parking_dollars as int,
            )
            &&& final(state).round.reward == 0
            &&& final(state).shop.items@.len() == SHOP_JOKER_COUNT
            &&& (final(state).episode_step < MAX_STEPS ==> final(state).progress.stage == Stage::Shop)
        },
        // Choosing a blind
        old(state).progress.stage == Stage::PreBlind && action_type == ACTION_TYPE_SELECT_BLIND ==> {
            let a = allowance(
                final(state).progress.boss_blind,
                old(state).jokers@,
                old(state).stake,
                old(state).voucher_effects.extra_hands as int,
                old(state).voucher_effects.extra_discards as int,
            );
            &&& final(state).progress.blind_type == Some(next_blind(old(state).progress.blind_type))
            &&& (final(state).episode_step < MAX_STEPS ==> final(state).progress.stage == Stage::Blind)
            &&& (next_blind(old(state).progress.blind_type) == BlindType::Boss && enabled_count(
                old(state).jokers@,
                JokerId::Chicot,
            ) == 0 <==> final(state).progress.boss_blind is Some)
            &&& final(state).round.plays_left == a.0
            &&& final(state).round.discards_left == a.1
            &&& final(state).round.score == 0
            &&& final(state).round.hands_played == 0
            &&& final(state).round.discards_used == 0
            &&& (enabled_count(old(state).jokers@, JokerId::RiffRaff) == 0 ==> final(state).jokers@
                == row_at_blind_start(old(state).jokers@))
            &&& exists|added: Seq<JokerFacts>|
                riff_raff_additions(
                    added,
                    2 * enabled_count(old(state).jokers@, JokerId::RiffRaff),
                    crate::run_state::joker_slots_of(
                        old(state).joker_slot_base as int,
                        old(state).voucher_effects.joker_slot_bonus as int,
                        old(state).jokers@,
                    ) - old(state).jokers@.len(),
                ) && final(state).jokers@ == daggers_through(
                    values_at_blind_start(old(state).jokers@) + added,
                    (old(state).jokers@.len() + added.len()) as nat,
                )
            &&& final(state).cards.money == old(state).cards.money
            &&& final(state).cards.selected_mask == 0
        },
        // Skipping a blind
        old(state).progress.stage == Stage::PreBlind && action_type == ACTION_TYPE_SKIP_BLIND ==> {
            &&& (old(state).progress.blind_type == Some(BlindType::Boss) ==> final(state).progress.blind_type
                == old(state).progress.blind_type && final(state).progress.boss_blind == old(state).progress.boss_blind
                && final(state).cards.money == old(state).cards.money
                && final(state).tags@ == old(state).tags@ && final(state).blinds_skipped == old(state).blinds_skipped)
            &&& (old(state).progress.blind_type != Some(BlindType::Boss) ==> {
                &&& final(state).progress.blind_type == Some(crate::run_state::blind_after_skip(old(state).progress.blind_type))
                &&& final(state).tags@.len() == old(state).tags@.len() + 1
                &&& final(state).tags@.drop_last() == old(state).tags@
                &&& final(state).cards.money == old(state).cards.money + crate::tags::tag_money(final(state).tags@.last().id)
                &&& final(state).blinds_skipped == old(state).blinds_skipped + 1
                &&& (final(state).episode_step < MAX_STEPS ==> final(state).progress.stage == Stage::PreBlind)
            })
            &&& final(state).round == old(state).round
            &&& final(state).jokers@ == old(state).jokers@
        },
        // Selecting cards
        old(state).progress.stage == Stage::Blind && action_type == ACTION_TYPE_SELECT ==> {
            &&& (selected_positions(picked_mask(action_id), HAND_SIZE as int).len() <= MAX_SELECTED
                ==> final(state).cards.selected_mask == picked_mask(action_id))
            &&& (selected_positions(picked_mask(action_id), HAND_SIZE as int).len() > MAX_SELECTED
                ==> final(state).cards.selected_mask == old(state).cards.selected_mask)
            &&& final(state).cards.hand@ == old(state).cards.hand@
            &&& final(state).round == old(state).round
        },
        // Playing a hand
        old(state).progress.stage == Stage::Blind && action_type == ACTION_TYPE_PLAY && !(inputs.play is Some
            && play_allowed(old(state).round, old(state).cards, old(state).progress.boss_blind)) ==> {
            &&& final(state).round == old(state).round
            &&& final(state).cards == old(state).cards
            &&& !r.blind_cleared
            &&& r.hand_type == 0
        },
        old(state).progress.stage == Stage::Blind && action_type == ACTION_TYPE_PLAY && inputs.play is Some
            && play_allowed(old(state).round, old(state).cards, old(state).progress.boss_blind) ==> {
            let p = inputs.play.unwrap();
            &&& final(state).round.plays_left == old(state).round.plays_left - 1
            &&& final(state).round.hands_played == old(state).round.hands_played + 1
            &&& final(state).round.score == old(state).round.score + p.score
            &&& final(state).cards.money == money_after_ox(
                old(state).cards.money + p.money,
                old(state).progress.boss_blind,
                p.hand_type as int,
                old(state).progress.ante,
            ) + 4 * todo_hits(old(state).jokers@, p.hand_type as int)
            &&& final(state).jokers@.len() == old(state).jokers@.len()
            &&& forall|k: int|
                0 <= k < old(state).jokers@.len() ==> if todo_hit(old(state).jokers@[k], p.hand_type as int) {
                    &&& (#[trigger] final(state).jokers@[k]) == (JokerFacts {
                        counter: final(state).jokers@[k].counter,
                        ..old(state).jokers@[k]
                    })
                    &&& 0 <= final(state).jokers@[k].counter < 13
                } else if p.selzer_used > 0 && k == first_selzer(old(state).jokers@, old(state).jokers@.len() as int) {
                    final(state).jokers@[k] == selzer_after(old(state).jokers@[k], p.selzer_used as int)
                } else {
                    final(state).jokers@[k] == old(state).jokers@[k]
                }
            &&& final(state).cards.selected_mask == 0
            &&& r.cards_played == selected_count(old(state).cards)
            &&& r.hand_type == p.hand_type as i32
            &&& r.blind_cleared == (final(state).round.score >= p.required)
            &&& final(state).last_hand_type == Some(p.hand_type)
            &&& (final(state).round.score >= p.required ==> final(state).cards.hand@ == hand_after_glass(
                old(state).cards,
                p.glass@,
                old(state).jokers@,
            ) && final(state).round.reward == p.reward)
            &&& (final(state).round.score >= p.required && final(state).episode_step < MAX_STEPS
                ==> final(state).progress.stage == Stage::PostBlind)
            &&& (final(state).round.score < p.required && final(state).round.plays_left == 0
                ==> final(state).progress.stage == Stage::End(GameEnd::Lose))
            &&& (final(state).round.score < p.required && final(state).round.plays_left > 0 && final(state).episode_step
                < MAX_STEPS ==> final(state).progress.stage == Stage::Blind)
        },
        // Discarding
        old(state).progress.stage == Stage::Blind && action_type == ACTION_TYPE_DISCARD ==> {
            &&& !(old(state).round.discards_left > 0 && old(state).cards.selected_mask > 0) ==> final(state).round
                == old(state).round && final(state).cards == old(state).cards && r.cards_discarded == 0
            &&& old(state).round.discards_left > 0 && old(state).cards.selected_mask > 0 ==> {
                let hand = old(state).cards.hand@;
                let mask = old(state).cards.selected_mask;
                &&& r.cards_discarded == mask_bits(mask)
                &&& final(state).round.discards_left == old(state).round.discards_left - 1
                &&& final(state).round.discards_used == old(state).round.discards_used + 1
                &&& final(state).round.plays_left == old(state).round.plays_left
                &&& final(state).round.score == old(state).round.score
                &&& final(state).cards.discarded@ == old(state).cards.discarded@ + masked_cards(hand, mask, hand.len() as int)
                &&& (final(state).cards.hand@ + final(state).cards.deck@ + final(state).cards.discarded@).to_multiset()
                    == (hand + old(state).cards.deck@ + old(state).cards.discarded@).to_multiset()
                &&& final(state).cards.selected_mask == 0
                &&& final(state).cards.money == old(state).cards.money
            }
        },
        // Using a consumable in a blind
        old(state).progress.stage == Stage::Blind && action_type == ACTION_TYPE_USE_CONSUMABLE ==> {
            &&& (action_id as int) >= old(state).cards.consumables.items@.len() ==> final(state).usage == old(state).usage
                && final(state).cards.consumables.items@ == old(state).cards.consumables.items@
                && final(state).cards.hand@ == old(state).cards.hand@ && final(state).cards.money == old(state).cards.money
                && final(state).jokers@ == old(state).jokers@
            &&& (action_id as int) < old(state).cards.consumables.items@.len() ==> final(state).usage.last_consumable_id
                == crate::consumables::consumable_global_index(old(state).cards.consumables.items@[action_id as int])
        },
        // The shop
        old(state).progress.stage == Stage::Shop && action_type == ACTION_TYPE_BUY_JOKER ==> {
            let limit = crate::run_state::joker_slots_of(
                old(state).joker_slot_base as int,
                old(state).voucher_effects.joker_slot_bonus as int,
                old(state).jokers@,
            );
            let i = action_id as int;
            &&& can_buy_joker(old(state).shop, old(state).jokers@.len() as int, old(state).cards.money as int, old(state).debt_limit as int, i, limit) ==> {
                &&& r.action_cost == old(state).shop.items@[i].cost
                &&& final(state).cards.money == old(state).cards.money - old(state).shop.items@[i].cost
                &&& final(state).shop.items@ == old(state).shop.items@.remove(i)
                &&& final(state).jokers@ == old(state).jokers@.push(
                    (JokerFacts { counter: final(state).jokers@.last().counter, ..bought_joker(old(state).shop.items@[i]) }),
                )
                &&& old(state).shop.items@[i].joker != JokerId::ToDoList ==> final(state).jokers@.last().counter == 0
                &&& old(state).shop.items@[i].joker == JokerId::ToDoList ==> 0 <= final(state).jokers@.last().counter < 13
            }
            &&& !can_buy_joker(old(state).shop, old(state).jokers@.len() as int, old(state).cards.money as int, old(state).debt_limit as int, i, limit) ==> {
                &&& r.action_cost == 0
                &&& final(state).cards.money == old(state).cards.money
                &&& final(state).shop.items@ == old(state).shop.items@
                &&& final(state).jokers@ == old(state).jokers@
            }
        },
        old(state).progress.stage == Stage::Shop && action_type == ACTION_TYPE_SELL_JOKER ==> {
            let i = action_id as int;
            &&& i < old(state).jokers@.len() && !old(state).jokers@[i].is_eternal ==> {
                &&& final(state).jokers@ == old(state).jokers@.remove(i)
                &&& final(state).cards.money == old(state).cards.money + old(state).jokers@[i].sell_value
                &&& final(state).tags@ == if old(state).jokers@[i].id == JokerId::DietCola {
                    old(state).tags@.push(Tag { id: TagId::DoubleTag, used: false })
                } else {
                    old(state).tags@
                }
                &&& (old(state).jokers@[i].id == JokerId::Luchador ==> final(state).progress.boss_blind is None)
                &&& (old(state).jokers@[i].id != JokerId::Luchador ==> final(state).progress.boss_blind
                    == old(state).progress.boss_blind)
            }
            &&& !(i < old(state).jokers@.len() && !old(state).jokers@[i].is_eternal) ==> final(state).jokers@
                == old(state).jokers@ && final(state).cards.money == old(state).cards.money && final(state).tags@
                == old(state).tags@
        },
        old(state).progress.stage == Stage::Shop && action_type == ACTION_TYPE_REROLL ==> {
            let price = old(state).shop.reroll_cost + old(state).shop.reroll_count;
            &&& price <= old(state).cards.money + old(state).debt_limit ==> r.action_cost == price
                && final(state).cards.money == old(state).cards.money - price && final(state).shop.reroll_count
                == old(state).shop.reroll_count + 1 && final(state).shop.items@.len() == SHOP_JOKER_COUNT
                && final(state).rerolls == old(state).rerolls + 1
            &&& price > old(state).cards.money + old(state).debt_limit ==> r.action_cost == 0 && final(state).cards.money
                == old(state).cards.money && final(state).shop == old(state).shop && final(state).rerolls == old(state).rerolls
        },
        old(state).progress.stage == Stage::Shop && action_type == ACTION_TYPE_BUY_PACK ==> {
            let i = action_id as int;
            &&& i < old(state).shop_packs@.len() && old(state).shop_packs@[i].cost <= old(state).cards.money
                + old(state).debt_limit ==> r.action_cost == old(state).shop_packs@[i].cost && final(state).cards.money
                == old(state).cards.money - old(state).shop_packs@[i].cost && final(state).shop_packs@
                == old(state).shop_packs@.remove(i) && final(state).cards.hand@ == old(state).cards.hand@
            &&& !(i < old(state).shop_packs@.len() && old(state).shop_packs@[i].cost <= old(state).cards.money
                + old(state).debt_limit) ==> r.action_cost == 0 && final(state).cards == old(state).cards
                && final(state).shop_packs@ == old(state).shop_packs@ && final(state).jokers@ == old(state).jokers@
        },
        old(state).progress.stage == Stage::Shop && action_type == ACTION_TYPE_BUY_VOUCHER ==> {
            &&& old(state).shop_voucher.is_some() && 10 <= old(state).cards.money + old(state).debt_limit ==> {
                &&& r.action_cost == 10
                &&& final(state).cards.money == old(state).cards.money - 10
                &&& final(state).shop_voucher.is_none()
                &&& (can_buy(old(state).voucher_effects.owned@, old(state).shop_voucher.unwrap())
                    ==> final(state).voucher_effects.owned@ == old(state).voucher_effects.owned@.push(
                    old(state).shop_voucher.unwrap(),
                ))
            }
            &&& !(old(state).shop_voucher.is_some() && 10 <= old(state).cards.money + old(state).debt_limit)
                ==> r.action_cost == 0 && final(state).cards.money == old(state).cards.money
                && final(state).voucher_effects == old(state).voucher_effects
        },
        old(state).progress.stage == Stage::Shop && action_type == ACTION_TYPE_USE_CONSUMABLE ==> {
            &&& (action_id as int) >= old(state).cards.consumables.items@.len() ==> final(state).cards
                == old(state).cards && final(state).usage == old(state).usage
            &&& (action_id as int) < old(state).cards.consumables.items@.len() ==> final(state).usage.last_consumable_id
                == crate::consumables::consumable_global_index(old(state).cards.consumables.items@[action_id as int])
                && final(state).cards.hand@ == old(state).cards.hand@ && final(state).cards.money == old(state).cards.money
        },
        old(state).progress.stage == Stage::Shop && action_type == ACTION_TYPE_NEXT_ROUND ==> {
            let won = old(state).progress.blind_type == Some(BlindType::Boss) && !(old(state).endless_mode || (
            crate::blinds::ante_number(old(state).progress.ante) < crate::run_state::target_ante(
                old(state).voucher_effects.ante_reduction as int,
            ) && old(state).progress.ante != crate::blinds::Ante::Eight));
            &&& won ==> r.done && final(state).progress.stage == Stage::End(GameEnd::Win) || final(state).episode_step
                >= MAX_STEPS
            &&& !won ==> final(state).round_number == old(state).round_number + 1 && (final(state).episode_step
                < MAX_STEPS ==> final(state).progress.stage == Stage::PreBlind)
            &&& !won && old(state).progress.blind_type == Some(BlindType::Boss) ==> final(state).progress.blind_type is None
                && final(state).tags@ == if old(state).deck_type == DeckType::Anaglyph {
                old(state).tags@.push(Tag { id: TagId::DoubleTag, used: false })
            } else {
                old(state).tags@
            }
            &&& old(state).progress.blind_type != Some(BlindType::Boss) ==> final(state).jokers@ == row_after_round(
                old(state).jokers@,
                old(state).cards.money as int,
            ) && final(state).cards.money == old(state).cards.money - rent_paid(old(state).jokers@, old(state).cards.money as int)
        },
{
    let score_before = state.round.score;
    let money_before = state.cards.money;
    let mut done = false;
    let mut cost: i64 = 0;
    let mut cards_played: i32 = 0;
    let mut hand_type: i32 = 0;
    let mut blind_cleared = false;
    let mut cards_discarded: i32 = 0;
    match state.progress.stage {
        Stage::PreBlind => {
            if action_type == ACTION_TYPE_SELECT_BLIND {
                let limit = effective_joker_slot_limit(state.joker_slot_base, state.voucher_effects.joker_slot_bonus, &state.jokers);
                select_blind(
                    &mut state.progress,
                    &mut state.round,
                    &mut state.cards,
                    &mut state.jokers,
                    &mut state.usage,
                    state.stake,
                    state.voucher_effects.extra_hands,
                    state.voucher_effects.extra_discards,
                    state.hand_size,
                    limit,
                    rng,
                );
            } else if action_type == ACTION_TYPE_SKIP_BLIND {
                let skipped = skip_blind(&mut state.progress, &mut state.cards.money, &mut state.tags, rng);
                if skipped.is_some() {
                    state.blinds_skipped = state.blinds_skipped + 1;
                }
            }
        },
        Stage::Blind => {
            if action_type == ACTION_TYPE_SELECT {
                select_cards(&mut state.cards, action_id);
            } else if action_type == ACTION_TYPE_PLAY {
                match &inputs.play {
                    Some(p) => {
                        if state.round.plays_left > 0 && state.cards.selected_mask > 0 {
                            proof {
                                lemma_selected_positions_len(state.cards.selected_mask, state.cards.hand@.len() as int);
                            }
                            cards_played = selected_indices(state.cards.hand.len(), state.cards.selected_mask).len() as i32;
                        }
                        let boss = state.progress.boss_blind;
                        let ante = state.progress.ante;
                        proof {
                            state.cards.hand_levels.lemma_slot_count();
                            if p.hand_type < HAND_LEVEL_SLOTS {
                                assert(state.cards.hand_levels@[p.hand_type as int] <= 4_000_000_000);
                            }
                        }
                        let ghost jokers_before = state.jokers@;
                        proof {
                            lemma_todo_hits_bound(jokers_before, p.hand_type as int);
                        }
                        let outcome = play_hand(
                            &mut state.progress.stage,
                            boss,
                            ante,
                            &mut state.round,
                            &mut state.cards,
                            &mut state.jokers,
                            p,
                            state.hand_size,
                            rng,
                        );
                        if outcome != PlayOutcome::Ignored {
                            state.last_hand_type = Some(p.hand_type);
                            hand_type = p.hand_type as i32;
                        }
                        if outcome == PlayOutcome::Cleared {
                            blind_cleared = true;
                        }
                        if outcome == PlayOutcome::Lost {
                            done = true;
                        }
                    },
                    None => {},
                }
            } else if action_type == ACTION_TYPE_DISCARD {
                match discard(&mut state.round, &mut state.cards, state.hand_size) {
                    Some(n) => {
                        cards_discarded = n as i32;
                    },
                    None => {},
                }
            } else if action_type == ACTION_TYPE_USE_CONSUMABLE {
                let limit = effective_joker_slot_limit(state.joker_slot_base, state.voucher_effects.joker_slot_bonus, &state.jokers);
                proof {
                    lemma_enabled_sell_total_bounds(state.jokers@);
                }
                match execute_use_consumable_in_blind(&mut state.cards, &mut state.usage, action_id, &state.jokers, limit, rng) {
                    Some(change) => apply_joker_change(&mut state.jokers, change),
                    None => {},
                }
            }
        },
        Stage::PostBlind => {
            if action_type == ACTION_TYPE_CASH_OUT {
                let _ = cash_out(
                    &mut state.progress.stage,
                    &mut state.round,
                    &mut state.cards,
                    &mut state.jokers,
                    state.usage.planets_used_this_run,
                    inputs.parking_dollars,
                );
                add_blue_seal_planets(&mut state.cards, state.last_hand_type);
                let (voucher, packs) = refresh_shop(&mut state.shop, state.stake, &state.voucher_effects.owned, rng);
                state.shop_voucher = voucher;
                state.shop_packs = packs;
                let limit = effective_joker_slot_limit(state.joker_slot_base, state.voucher_effects.joker_slot_bonus, &state.jokers);
                let new_jokers = execute_tag_effects(&mut state.cards, &mut state.tags, state.jokers.len(), limit, rng);
                add_jokers(&mut state.jokers, &new_jokers);
                let perkeos = count_enabled(&state.jokers, JokerId::Perkeo);
                if state.cards.consumables.items.len() <= 1_000_000 && perkeos <= 1_000_000 {
                    perkeo_copies(&mut state.cards, perkeos, rng);
                }
            }
        },
        Stage::Shop => {
            if action_type == ACTION_TYPE_BUY_JOKER {
                let limit = effective_joker_slot_limit(state.joker_slot_base, state.voucher_effects.joker_slot_bonus, &state.jokers);
                match buy_joker(
                    &mut state.shop,
                    &mut state.jokers,
                    &mut state.cards.money,
                    action_id as usize,
                    limit,
                    state.debt_limit,
                    rng,
                ) {
                    Some(c) => {
                        cost = c;
                    },
                    None => {},
                }
            } else if action_type == ACTION_TYPE_SELL_JOKER {
                match sell_joker(&mut state.jokers, &mut state.cards.money, action_id as usize) {
                    Some(sold) => {
                        if sold.id == JokerId::DietCola {
                            state.tags.push(Tag::new(TagId::DoubleTag));
                        }
                        if sold.id == JokerId::Luchador {
                            state.progress.boss_blind = None;
                        }
                    },
                    None => {},
                }
            } else if action_type == ACTION_TYPE_REROLL {
                match reroll(&mut state.shop, &mut state.cards.money, state.debt_limit, state.stake, rng) {
                    Some(c) => {
                        cost = c;
                        state.rerolls = state.rerolls + 1;
                    },
                    None => {},
                }
            } else if action_type == ACTION_TYPE_USE_CONSUMABLE {
                let _ = use_consumable_in_shop(&mut state.cards, &mut state.usage, action_id as usize);
            } else if action_type == ACTION_TYPE_BUY_PACK {
                let limit = effective_joker_slot_limit(state.joker_slot_base, state.voucher_effects.joker_slot_bonus, &state.jokers);
                match buy_pack(
                    &mut state.shop_packs,
                    &mut state.cards,
                    &mut state.jokers,
                    action_id as usize,
                    limit,
                    state.debt_limit,
                    rng,
                ) {
                    Some(c) => {
                        cost = c;
                    },
                    None => {},
                }
            } else if action_type == ACTION_TYPE_BUY_VOUCHER {
                match buy_voucher(&mut state.shop_voucher, &mut state.voucher_effects, &mut state.cards.money, state.debt_limit) {
                    Some(c) => {
                        cost = c;
                    },
                    None => {},
                }
            } else if action_type == ACTION_TYPE_NEXT_ROUND {
                let was_boss = state.progress.blind_type == Some(BlindType::Boss);
                let mut ante = AnteProgress {
                    ante: state.progress.ante,
                    endless_mode: state.endless_mode,
                    endless_ante: state.endless_ante,
                };
                let won = next_round(
                    &mut state.progress,
                    &mut ante,
                    &mut state.jokers,
                    &mut state.cards.money,
                    &mut state.round_number,
                    state.voucher_effects.ante_reduction,
                );
                state.endless_ante = ante.endless_ante;
                if won {
                    done = true;
                } else if was_boss && state.deck_type == DeckType::Anaglyph {
                    state.tags.push(Tag::new(TagId::DoubleTag));
                }
            }
        },
        Stage::End(_) => {
            done = true;
        },
    }
    state.episode_step = state.episode_step + 1;
    if state.episode_step >= MAX_STEPS {
        state.progress.stage = Stage::End(GameEnd::Lose);
        done = true;
    }
    StepOutcome {
        done,
        score_delta: state.round.score - score_before,
        money_delta: state.cards.money - money_before,
        action_cost: cost,
        cards_played,
        hand_type,
        blind_cleared,
        cards_discarded,
    }
}

} // verus!
