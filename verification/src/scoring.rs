//! Hand evaluation: which poker hand a set of played cards makes, under the
//! rule changes that some jokers bring.

use vstd::prelude::*;

use crate::cards::{Card, Enhancement, smeared_suit};
use crate::constants::MAX_SELECTED;
use crate::hand_types::{hand_index, hand_score_of, HandId, HandScore};
use crate::joker::JokerId;

verus! {

/// Rule changes from jokers that bend hand evaluation.
#[derive(Clone, Debug, Default)]
pub struct JokerRules {
    /// Four Fingers: straights and flushes need only four cards.
    pub four_fingers: bool,
    /// Shortcut: straights may skip one rank.
    pub shortcut: bool,
    /// Splash: every played card scores.
    pub splash: bool,
    /// Pareidolia: every card counts as a face card.
    pub pareidolia: bool,
    /// Smeared: hearts with diamonds and spades with clubs count as one suit.
    pub smeared: bool,
    /// Oops! All 6s: every 6 counts as every suit.
    pub oops_all_6s: bool,
}

/// Cards a straight or flush needs under the rules.
pub open spec fn min_cards_for(rules: JokerRules) -> int {
    if rules.four_fingers {
        4
    } else {
        5
    }
}

/// Whether a joker list holds an enabled copy of a joker.
pub open spec fn has_enabled(jokers: Seq<(JokerId, bool)>, id: JokerId) -> bool {
    exists|i: int| 0 <= i < jokers.len() && #[trigger] jokers[i] == (id, true)
}

impl JokerRules {
    /// No rule changes (spec form).
    pub open spec fn new_spec() -> JokerRules {
        JokerRules {
            four_fingers: false,
            shortcut: false,
            splash: false,
            pareidolia: false,
            smeared: false,
            oops_all_6s: false,
        }
    }

    /// No rule changes.
    pub fn new() -> (r: JokerRules)
        ensures
            r == JokerRules::new_spec(),
    {
        JokerRules {
            four_fingers: false,
            shortcut: false,
            splash: false,
            pareidolia: false,
            smeared: false,
            oops_all_6s: false,
        }
    }

    /// The rules that the enabled jokers bring; each joker is given with whether it is enabled.
    pub fn from_jokers(jokers: &[(JokerId, bool)]) -> (r: JokerRules)
        ensures
            r.four_fingers == has_enabled(jokers@, JokerId::FourFingers),
            r.shortcut == has_enabled(jokers@, JokerId::Shortcut),
            r.splash == has_enabled(jokers@, JokerId::Splash),
            r.pareidolia == has_enabled(jokers@, JokerId::Pareidolia),
            r.smeared == has_enabled(jokers@, JokerId::Smeared),
            r.oops_all_6s == has_enabled(jokers@, JokerId::OopsAll6s),
    {
        let mut rules = JokerRules::new();
        let mut i: usize = 0;
        while i < jokers.len()
            invariant
                i <= jokers.len(),
                rules.four_fingers == has_enabled(jokers@.take(i as int), JokerId::FourFingers),
                rules.shortcut == has_enabled(jokers@.take(i as int), JokerId::Shortcut),
                rules.splash == has_enabled(jokers@.take(i as int), JokerId::Splash),
                rules.pareidolia == has_enabled(jokers@.take(i as int), JokerId::Pareidolia),
                rules.smeared == has_enabled(jokers@.take(i as int), JokerId::Smeared),
                rules.oops_all_6s == has_enabled(jokers@.take(i as int), JokerId::OopsAll6s),
            decreases jokers.len() - i,
        {
            let (id, enabled) = jokers[i];
            let ghost prev = jokers@.take(i as int);
            let ghost next = jokers@.take(i as int + 1);
            proof {
                assert(next =~= prev.push((id, enabled)));
                assert forall|j: JokerId| has_enabled(next, j) == (has_enabled(prev, j) || (id, enabled) == (j, true)) by {
                    if has_enabled(next, j) {
                        let k = choose|k: int| 0 <= k < next.len() && #[trigger] next[k] == (j, true);
                        if k < prev.len() {
                            assert(prev[k] == next[k]);
                        }
                    }
                    if has_enabled(prev, j) {
                        let k = choose|k: int| 0 <= k < prev.len() && #[trigger] prev[k] == (j, true);
                        assert(next[k] == prev[k]);
                    }
                    if (id, enabled) == (j, true) {
                        assert(next[i as int] == (j, true));
                    }
                }
            }
            if enabled {
                match id {
                    JokerId::FourFingers => rules.four_fingers = true,
                    JokerId::Shortcut => rules.shortcut = true,
                    JokerId::Splash => rules.splash = true,
                    JokerId::Pareidolia => rules.pareidolia = true,
                    JokerId::Smeared => rules.smeared = true,
                    JokerId::OopsAll6s => rules.oops_all_6s = true,
                    _ => {},
                }
            }
            i = i + 1;
        }
        proof {
            assert(jokers@.take(jokers.len() as int) =~= jokers@);
        }
        rules
    }

    /// Cards a straight or flush needs: four with Four Fingers, else five.
    pub fn min_cards_for_straight_flush(&self) -> (r: usize)
        ensures
            r == min_cards_for(*self),
    {
        if self.four_fingers {
            4
        } else {
            5
        }
    }
}

// ---------------------------------------------------------------------------
// The mathematical model of hand evaluation
// ---------------------------------------------------------------------------

/// A card takes part in forming a hand unless it is stone or face down.
pub open spec fn takes_part(c: Card) -> bool {
    c.enhancement != Enhancement::Stone && !c.face_down
}

/// Wild for flushes: Wild cards, and every 6 under Oops! All 6s.
pub open spec fn is_wild_for(c: Card, rules: JokerRules) -> bool {
    c.enhancement == Enhancement::Wild || (rules.oops_all_6s && c.rank == 6)
}

/// Suit a non-wild card adds to for flushes.
pub open spec fn flush_suit(c: Card, rules: JokerRules) -> int {
    if rules.smeared {
        smeared_suit(c.suit) as int
    } else {
        c.suit as int
    }
}

/// Only the first five cards are looked at.
pub open spec fn hand_window(hand: Seq<Card>) -> Seq<Card> {
    if hand.len() <= MAX_SELECTED {
        hand
    } else {
        hand.take(MAX_SELECTED as int)
    }
}

/// Cards of `s` that take part.
pub open spec fn part_count(s: Seq<Card>) -> nat
    decreases s.len(),
{
    if s.len() == 0 {
        0
    } else {
        part_count(s.drop_last()) + if takes_part(s.last()) { 1nat } else { 0nat }
    }
}

/// Cards of `s` that take part and have rank `r`.
pub open spec fn rank_count(s: Seq<Card>, r: int) -> nat
    decreases s.len(),
{
    if s.len() == 0 {
        0
    } else {
        rank_count(s.drop_last(), r) + if takes_part(s.last()) && s.last().rank == r {
            1nat
        } else {
            0nat
        }
    }
}

/// Cards of `s` that take part and are wild for flushes.
pub open spec fn wild_count(s: Seq<Card>, rules: JokerRules) -> nat
    decreases s.len(),
{
    if s.len() == 0 {
        0
    } else {
        wild_count(s.drop_last(), rules) + if takes_part(s.last()) && is_wild_for(s.last(), rules) {
            1nat
        } else {
            0nat
        }
    }
}

/// Cards of `s` that take part, are not wild, and add to flush suit `su`.
pub open spec fn suit_count(s: Seq<Card>, rules: JokerRules, su: int) -> nat
    decreases s.len(),
{
    if s.len() == 0 {
        0
    } else {
        suit_count(s.drop_last(), rules, su) + if takes_part(s.last()) && !is_wild_for(
            s.last(),
            rules,
        ) && flush_suit(s.last(), rules) == su {
            1nat
        } else {
            0nat
        }
    }
}

/// Per-rank counts, index 0 for Aces up to 12 for Kings.
pub open spec fn rank_counts_of(s: Seq<Card>) -> Seq<u8> {
    Seq::new(13, |i: int| rank_count(s, i + 1) as u8)
}

/// The largest flush-suit count.
pub open spec fn max_suit_count(s: Seq<Card>, rules: JokerRules) -> int {
    let a = suit_count(s, rules, 0) as int;
    let b = suit_count(s, rules, 1) as int;
    let c = suit_count(s, rules, 2) as int;
    let d = suit_count(s, rules, 3) as int;
    let ab = if a >= b { a } else { b };
    let cd = if c >= d { c } else { d };
    if ab >= cd { ab } else { cd }
}

/// Ranks among `c[lo..hi]` that are present.
pub open spec fn nonzero_in(c: Seq<u8>, lo: int, hi: int) -> int
    decreases hi - lo,
{
    if hi <= lo {
        0
    } else {
        nonzero_in(c, lo, hi - 1) + if c[hi - 1] > 0 { 1int } else { 0int }
    }
}

/// Rank counts with the Ace counted again above the King, so that a run may end on it.
pub open spec fn ace_both_ends(c: Seq<u8>) -> Seq<u8> {
    c.push(c[0])
}

/// Some run of `size` consecutive entries of `c` holds at least `need` present ranks.
pub open spec fn has_window(c: Seq<u8>, size: int, need: int) -> bool {
    exists|start: int| 0 <= start <= c.len() - size && #[trigger] nonzero_in(c, start, start + size) >= need
}

/// Straight without Shortcut: `m` consecutive ranks, the Ace counting low or high.
pub open spec fn straight_plain(c: Seq<u8>, m: int) -> bool {
    has_window(ace_both_ends(c), m, m)
}

/// Straight with Shortcut: `m` ranks within `m + 1` consecutive ranks (one rank skipped at
/// most), the Ace counting low or high.
pub open spec fn straight_gapped(c: Seq<u8>, m: int) -> bool {
    has_window(ace_both_ends(c), m + 1, m)
}

/// Whether rank counts make a straight under the rules.
pub open spec fn straight_with(c: Seq<u8>, rules: JokerRules) -> bool {
    if rules.shortcut {
        straight_gapped(c, min_cards_for(rules))
    } else {
        straight_plain(c, min_cards_for(rules))
    }
}

/// Ace, 10, Jack, Queen and King all present.
pub open spec fn royal_counts(c: Seq<u8>) -> bool {
    c[0] > 0 && c[9] > 0 && c[10] > 0 && c[11] > 0 && c[12] > 0
}

/// Index of the first largest count among `c[0..n]`.
pub open spec fn count_argmax(c: Seq<u8>, n: int) -> int
    decreases n,
{
    if n <= 1 {
        0
    } else {
        let j = count_argmax(c, n - 1);
        if c[n - 1] > c[j] {
            n - 1
        } else {
            j
        }
    }
}

/// Largest count among `c[0..n]` leaving out index `skip` (0 if none).
pub open spec fn max_excluding(c: Seq<u8>, skip: int, n: int) -> int
    decreases n,
{
    if n <= 0 {
        0
    } else {
        let m = max_excluding(c, skip, n - 1);
        if n - 1 != skip && c[n - 1] > m {
            c[n - 1] as int
        } else {
            m
        }
    }
}

/// The largest rank count.
pub open spec fn top_count(c: Seq<u8>) -> int {
    c[count_argmax(c, 13)] as int
}

/// The second largest rank count, counting repeats (0 if there is none).
pub open spec fn second_count(c: Seq<u8>) -> int {
    max_excluding(c, count_argmax(c, 13), 13)
}

/// The hand that flush, straight, royal ranks and the two largest rank counts make. Five
/// cards of one rank and a full house that is also a flush come first: neither can be a
/// straight.
pub open spec fn classify(flush: bool, straight: bool, royal: bool, first: int, second: int) -> HandId {
    if first == 5 {
        if flush {
            HandId::FlushFive
        } else {
            HandId::FiveKind
        }
    } else if first == 3 && second == 2 && flush {
        HandId::FlushHouse
    } else if flush && straight {
        if royal {
            HandId::RoyalFlush
        } else {
            HandId::StraightFlush
        }
    } else if first == 4 {
        HandId::FourKind
    } else if first == 3 && second == 2 {
        HandId::FullHouse
    } else if flush {
        HandId::Flush
    } else if straight {
        HandId::Straight
    } else if first == 3 {
        HandId::ThreeKind
    } else if first == 2 && second == 2 {
        HandId::TwoPair
    } else if first == 2 {
        HandId::Pair
    } else {
        HandId::HighCard
    }
}

/// The hand type that `hand` makes under `rules`: only its first five cards count, stone and
/// face-down cards take no part, wild cards join the largest suit.
pub open spec fn hand_type_of(hand: Seq<Card>, rules: JokerRules) -> HandId {
    let w = hand_window(hand);
    if part_count(w) == 0 {
        HandId::HighCard
    } else {
        let c = rank_counts_of(w);
        classify(
            max_suit_count(w, rules) + wild_count(w, rules) >= min_cards_for(rules),
            straight_with(c, rules),
            royal_counts(c),
            top_count(c),
            second_count(c),
        )
    }
}

/// Cards that take part in the first five have a rank 1 to 13, and a suit 0 to 3 unless wild.
pub open spec fn hand_cards_valid(hand: Seq<Card>, rules: JokerRules) -> bool {
    forall|i: int|
        0 <= i < hand_window(hand).len() && #[trigger] takes_part(hand_window(hand)[i]) ==> {
            &&& 1 <= hand_window(hand)[i].rank <= 13
            &&& (is_wild_for(hand_window(hand)[i], rules) || hand_window(hand)[i].suit < 4)
        }
}

// ---------------------------------------------------------------------------
// Evaluation
// ---------------------------------------------------------------------------

/// Number of present ranks among `counts[lo..hi]`.
fn count_present(counts: &[u8; 14], lo: usize, hi: usize) -> (r: usize)
    requires
        lo <= hi <= 14,
    ensures
        r == nonzero_in(counts@, lo as int, hi as int),
        r <= hi - lo,
{
    let mut r: usize = 0;
    let mut j: usize = lo;
    while j < hi
        invariant
            lo <= j <= hi <= 14,
            r == nonzero_in(counts@, lo as int, j as int),
            r <= j - lo,
        decreases hi - j,
    {
        if counts[j] > 0 {
            r = r + 1;
        }
        j = j + 1;
    }
    r
}

/// Whether some run of `size` consecutive entries holds at least `need` present ranks.
fn window_found(counts: &[u8; 14], size: usize, need: usize) -> (r: bool)
    requires
        1 <= size <= 14,
    ensures
        r == has_window(counts@, size as int, need as int),
{
    let last = 14 - size;
    let mut start: usize = 0;
    while start <= last
        invariant
            last == 14 - size,
            1 <= size <= 14,
            start <= last + 1,
            forall|s: int| 0 <= s < start ==> #[trigger] nonzero_in(counts@, s, s + size) < need,
        decreases last + 1 - start,
    {
        if count_present(counts, start, start + size) >= need {
            return true;
        }
        start = start + 1;
    }
    false
}

/// The rank counts with the Ace repeated above the King.
fn with_high_ace(c: &[u8; 13]) -> (r: [u8; 14])
    ensures
        r@ == ace_both_ends(c@),
{
    let r: [u8; 14] = [c[0], c[1], c[2], c[3], c[4], c[5], c[6], c[7], c[8], c[9], c[10], c[11], c[12], c[0]];
    assert(r@ =~= ace_both_ends(c@));
    r
}

/// Straight check for rank counts (index 0 for Aces), with no joker rules.
pub fn check_straight(rank_counts: &[u8; 13]) -> (r: bool)
    ensures
        r == straight_plain(rank_counts@, 5),
{
    check_straight_with_rules(rank_counts, &JokerRules::new())
}

/// Straight of `min_cards` consecutive ranks, the Ace low or high.
fn check_straight_normal(rank_counts: &[u8; 13], min_cards: usize) -> (r: bool)
    requires
        1 <= min_cards <= 14,
    ensures
        r == straight_plain(rank_counts@, min_cards as int),
{
    let ext = with_high_ace(rank_counts);
    window_found(&ext, min_cards, min_cards)
}

/// Straight of `min_cards` ranks within `min_cards + max_gaps` consecutive ranks, the Ace
/// low or high.
fn check_straight_with_gap(rank_counts: &[u8; 13], min_cards: usize, max_gaps: usize) -> (r: bool)
    requires
        1 <= min_cards,
        min_cards + max_gaps <= 14,
    ensures
        r == has_window(ace_both_ends(rank_counts@), (min_cards + max_gaps) as int, min_cards as int),
{
    let ext = with_high_ace(rank_counts);
    window_found(&ext, min_cards + max_gaps, min_cards)
}

/// Straight check for rank counts under Four Fingers and Shortcut (one gap allowed).
pub fn check_straight_with_rules(rank_counts: &[u8; 13], rules: &JokerRules) -> (r: bool)
    ensures
        r == straight_with(rank_counts@, *rules),
{
    let m = rules.min_cards_for_straight_flush();
    if rules.shortcut {
        check_straight_with_gap(rank_counts, m, 1)
    } else {
        check_straight_normal(rank_counts, m)
    }
}

/// Ace, 10, Jack, Queen and King all present.
pub fn is_royal(rank_counts: &[u8; 13]) -> (r: bool)
    ensures
        r == royal_counts(rank_counts@),
{
    rank_counts[0] > 0 && rank_counts[9] > 0 && rank_counts[10] > 0 && rank_counts[11] > 0
        && rank_counts[12] > 0
}

/// The hand type of the played cards, with no joker rules.
pub fn score_hand(hand: &[Card]) -> (r: HandScore)
    requires
        hand_cards_valid(hand@, JokerRules::new_spec()),
    ensures
        r == hand_score_of(hand_type_of(hand@, JokerRules::new_spec())),
{
    score_hand_with_rules(hand, &JokerRules::new())
}

/// The hand type of the played cards under the joker rules.
pub fn score_hand_with_rules(hand: &[Card], rules: &JokerRules) -> (r: HandScore)
    requires
        hand_cards_valid(hand@, *rules),
    ensures
        r == hand_score_of(hand_type_of(hand@, *rules)),
{
    let n: usize = if hand.len() <= MAX_SELECTED { hand.len() } else { MAX_SELECTED };
    let ghost w = hand_window(hand@);
    proof {
        assert(hand@.take(n as int) =~= w);
    }
    let mut rank_counts: [u8; 13] = [0u8; 13];
    let mut suit_counts: [u8; 4] = [0u8; 4];
    let mut wild: u8 = 0;
    let mut any = false;
    let mut i: usize = 0;
    proof {
        assert(hand@.take(0) =~= Seq::<Card>::empty());
    }
    while i < n
        invariant
            n <= MAX_SELECTED,
            n <= hand.len(),
            w == hand@.take(n as int),
            w == hand_window(hand@),
            hand_cards_valid(hand@, *rules),
            i <= n,
            forall|r: int|
                0 <= r < 13 ==> #[trigger] rank_counts@[r] == rank_count(hand@.take(i as int), r + 1)
                    && rank_counts@[r] <= i,
            forall|s: int|
                0 <= s < 4 ==> #[trigger] suit_counts@[s] == suit_count(hand@.take(i as int), *rules, s)
                    && suit_counts@[s] <= i,
            wild == wild_count(hand@.take(i as int), *rules),
            wild <= i,
            any == (part_count(hand@.take(i as int)) > 0),
        decreases n - i,
    {
        let card = hand[i];
        let ghost prev = hand@.take(i as int);
        let ghost next = hand@.take(i as int + 1);
        proof {
            assert(next.drop_last() =~= prev);
            assert(next.last() == card);
            assert(w[i as int] == card);
        }
        if card.counts_for_hand() && !card.face_down {
            proof {
                assert(takes_part(w[i as int]));
            }
            any = true;
            let ri = (card.rank - 1) as usize;
            rank_counts[ri] = rank_counts[ri] + 1;
            let is_wild_6 = rules.oops_all_6s && card.rank == 6;
            if card.enhancement == Enhancement::Wild || is_wild_6 {
                wild = wild + 1;
            } else if rules.smeared {
                let es = card.effective_suit_smeared() as usize;
                suit_counts[es] = suit_counts[es] + 1;
            } else {
                let es = card.suit as usize;
                suit_counts[es] = suit_counts[es] + 1;
            }
        }
        proof {
            assert forall|r: int| 0 <= r < 13 implies #[trigger] rank_counts@[r] == rank_count(next, r + 1)
                && rank_counts@[r] <= i + 1 by {
                assert(rank_count(next, r + 1) == rank_count(prev, r + 1) + if takes_part(card)
                    && card.rank == r + 1 { 1nat } else { 0nat });
            }
            assert forall|s: int| 0 <= s < 4 implies #[trigger] suit_counts@[s] == suit_count(next, *rules, s)
                && suit_counts@[s] <= i + 1 by {
                assert(suit_count(next, *rules, s) == suit_count(prev, *rules, s) + if takes_part(card)
                    && !is_wild_for(card, *rules) && flush_suit(card, *rules) == s { 1nat } else { 0nat });
            }
        }
        i = i + 1;
    }
    if !any {
        return HandScore::new(HandId::HighCard);
    }
    proof {
        assert(rank_counts@ =~= rank_counts_of(w));
    }
    let mut max_suit: u8 = suit_counts[0];
    if suit_counts[1] > max_suit {
        max_suit = suit_counts[1];
    }
    let mut max_cd: u8 = suit_counts[2];
    if suit_counts[3] > max_cd {
        max_cd = suit_counts[3];
    }
    if max_cd > max_suit {
        max_suit = max_cd;
    }
    let min_for_flush = rules.min_cards_for_straight_flush() as u8;
    let is_flush = max_suit + wild >= min_for_flush;
    let is_straight = check_straight_with_rules(&rank_counts, rules);
    let royal = is_royal(&rank_counts);

    let mut top: usize = 0;
    let mut k: usize = 1;
    while k < 13
        invariant
            1 <= k <= 13,
            top < k,
            top == count_argmax(rank_counts@, k as int),
        decreases 13 - k,
    {
        if rank_counts[k] > rank_counts[top] {
            top = k;
        }
        k = k + 1;
    }
    let first = rank_counts[top];
    let mut second: u8 = 0;
    let mut k2: usize = 0;
    while k2 < 13
        invariant
            k2 <= 13,
            top < 13,
            second == max_excluding(rank_counts@, top as int, k2 as int),
        decreases 13 - k2,
    {
        if k2 != top && rank_counts[k2] > second {
            second = rank_counts[k2];
        }
        k2 = k2 + 1;
    }

    let id = if first == 5 {
        if is_flush {
            HandId::FlushFive
        } else {
            HandId::FiveKind
        }
    } else if first == 3 && second == 2 && is_flush {
        HandId::FlushHouse
    } else if is_flush && is_straight {
        if royal {
            HandId::RoyalFlush
        } else {
            HandId::StraightFlush
        }
    } else if first == 4 {
        HandId::FourKind
    } else if first == 3 && second == 2 {
        HandId::FullHouse
    } else if is_flush {
        HandId::Flush
    } else if is_straight {
        HandId::Straight
    } else if first == 3 {
        HandId::ThreeKind
    } else if first == 2 && second == 2 {
        HandId::TwoPair
    } else if first == 2 {
        HandId::Pair
    } else {
        HandId::HighCard
    };
    HandScore::new(id)
}

// ---------------------------------------------------------------------------
// Laws of the straight rules
// ---------------------------------------------------------------------------

/// Present ranks over an interval split at `mid` add up.
proof fn lemma_nonzero_split(c: Seq<u8>, lo: int, mid: int, hi: int)
    requires
        lo <= mid <= hi,
    ensures
        nonzero_in(c, lo, hi) == nonzero_in(c, lo, mid) + nonzero_in(c, mid, hi),
    decreases hi - mid,
{
    if hi > mid {
        lemma_nonzero_split(c, lo, mid, hi - 1);
    }
}

/// An interval holds no more present ranks than its length, and no fewer than zero.
proof fn lemma_nonzero_bounds(c: Seq<u8>, lo: int, hi: int)
    requires
        lo <= hi,
    ensures
        0 <= nonzero_in(c, lo, hi) <= hi - lo,
    decreases hi - lo,
{
    if hi > lo {
        lemma_nonzero_bounds(c, lo, hi - 1);
    }
}

/// A wider interval holds at least as many present ranks.
proof fn lemma_nonzero_mono(c: Seq<u8>, lo2: int, lo1: int, hi1: int, hi2: int)
    requires
        lo2 <= lo1 <= hi1 <= hi2,
    ensures
        nonzero_in(c, lo1, hi1) <= nonzero_in(c, lo2, hi2),
{
    lemma_nonzero_split(c, lo2, lo1, hi2);
    lemma_nonzero_split(c, lo1, hi1, hi2);
    lemma_nonzero_bounds(c, lo2, lo1);
    lemma_nonzero_bounds(c, hi1, hi2);
}

/// Shortcut only adds straights: whatever is a straight without it is a straight with it.
pub proof fn lemma_shortcut_keeps_straights(c: Seq<u8>, m: int)
    requires
        c.len() == 13,
        m == 4 || m == 5,
        straight_plain(c, m),
    ensures
        straight_gapped(c, m),
{
    let e = ace_both_ends(c);
    let start = choose|start: int| 0 <= start <= e.len() - m && #[trigger] nonzero_in(e, start, start + m) >= m;
    if start <= 13 - m {
        lemma_nonzero_mono(e, start, start, start + m, start + (m + 1));
        assert(nonzero_in(e, start, start + (m + 1)) >= m);
    } else {
        lemma_nonzero_mono(e, 13 - m, start, start + m, 14);
        assert((13 - m) + (m + 1) == 14);
        assert(nonzero_in(e, 13 - m, (13 - m) + (m + 1)) >= m);
    }
}

/// Four Fingers only adds straights: a five-card straight is also a four-card one,
/// with or without Shortcut.
pub proof fn lemma_four_fingers_keeps_straights(c: Seq<u8>, shortcut: bool)
    requires
        c.len() == 13,
        if shortcut { straight_gapped(c, 5) } else { straight_plain(c, 5) },
    ensures
        if shortcut { straight_gapped(c, 4) } else { straight_plain(c, 4) },
{
    let e = ace_both_ends(c);
    if shortcut {
        let start = choose|start: int| 0 <= start <= e.len() - 6 && #[trigger] nonzero_in(e, start, start + 6) >= 5;
        lemma_nonzero_split(e, start, start + 5, start + 6);
        lemma_nonzero_bounds(e, start + 5, start + 6);
        assert(nonzero_in(e, start, start + 5) >= 4);
    } else {
        let start = choose|start: int| 0 <= start <= e.len() - 5 && #[trigger] nonzero_in(e, start, start + 5) >= 5;
        lemma_nonzero_split(e, start, start + 4, start + 5);
        lemma_nonzero_bounds(e, start + 4, start + 5);
        assert(nonzero_in(e, start, start + 4) >= 4);
    }
}

/// The joker rules only add straights: turning on Four Fingers or Shortcut never removes one.
pub proof fn lemma_rules_only_add_straights(c: Seq<u8>, rules: JokerRules, more: JokerRules)
    requires
        c.len() == 13,
        rules.four_fingers ==> more.four_fingers,
        rules.shortcut ==> more.shortcut,
        straight_with(c, rules),
    ensures
        straight_with(c, more),
{
    let m = min_cards_for(rules);
    // first widen the card count, then add the gap
    let mid = if rules.shortcut { straight_gapped(c, min_cards_for(more)) } else { straight_plain(
        c,
        min_cards_for(more),
    ) };
    if m != min_cards_for(more) {
        lemma_four_fingers_keeps_straights(c, rules.shortcut);
    }
    assert(mid);
    if !rules.shortcut && more.shortcut {
        lemma_shortcut_keeps_straights(c, min_cards_for(more));
    }
}

/// Four Fingers only adds flushes: a suit count that reaches five also reaches four.
pub proof fn lemma_four_fingers_keeps_flushes(hand: Seq<Card>, rules: JokerRules)
    requires
        max_suit_count(hand_window(hand), rules) + wild_count(hand_window(hand), rules) >= min_cards_for(rules),
    ensures
        max_suit_count(hand_window(hand), rules) + wild_count(hand_window(hand), rules)
            >= min_cards_for(JokerRules { four_fingers: true, ..rules }),
{
}

/// Under Smeared the red group counts the Diamonds and Hearts, the black group the Spades
/// and Clubs.
proof fn lemma_smeared_suit_counts(s: Seq<Card>, rules: JokerRules)
    requires
        !rules.smeared,
    ensures
        suit_count(s, JokerRules { smeared: true, ..rules }, 1) == suit_count(s, rules, 1) + suit_count(s, rules, 2),
        suit_count(s, JokerRules { smeared: true, ..rules }, 0) == suit_count(s, rules, 0) + suit_count(s, rules, 3),
    decreases s.len(),
{
    if s.len() > 0 {
        lemma_smeared_suit_counts(s.drop_last(), rules);
    }
}

/// Smeared never breaks a flush: cards that make a flush without it still make one with it,
/// since merging suits into colours only adds to the largest suit.
pub proof fn lemma_smeared_keeps_flushes(hand: Seq<Card>, rules: JokerRules)
    requires
        !rules.smeared,
        max_suit_count(hand_window(hand), rules) + wild_count(hand_window(hand), rules) >= min_cards_for(rules),
    ensures
        max_suit_count(hand_window(hand), JokerRules { smeared: true, ..rules }) + wild_count(
            hand_window(hand),
            JokerRules { smeared: true, ..rules },
        ) >= min_cards_for(JokerRules { smeared: true, ..rules }),
{
    let w = hand_window(hand);
    lemma_smeared_suit_counts(w, rules);
    lemma_wild_count_ignores_smeared(w, rules);
}

/// Wild cards do not depend on Smeared.
proof fn lemma_wild_count_ignores_smeared(s: Seq<Card>, rules: JokerRules)
    ensures
        wild_count(s, JokerRules { smeared: true, ..rules }) == wild_count(s, rules),
    decreases s.len(),
{
    if s.len() > 0 {
        lemma_wild_count_ignores_smeared(s.drop_last(), rules);
    }
}

// ---------------------------------------------------------------------------
// Laws of hand evaluation
// ---------------------------------------------------------------------------

/// Whether the cards make a flush under the rules.
pub open spec fn flush_of(w: Seq<Card>, rules: JokerRules) -> bool {
    max_suit_count(w, rules) + wild_count(w, rules) >= min_cards_for(rules)
}

/// Wild and suit counts depend only on Smeared and Oops! All 6s.
proof fn lemma_counts_follow_suit_rules(s: Seq<Card>, a: JokerRules, b: JokerRules)
    requires
        a.smeared == b.smeared,
        a.oops_all_6s == b.oops_all_6s,
    ensures
        wild_count(s, a) == wild_count(s, b),
        forall|su: int| #[trigger] suit_count(s, a, su) == suit_count(s, b, su),
    decreases s.len(),
{
    if s.len() > 0 {
        lemma_counts_follow_suit_rules(s.drop_last(), a, b);
        let x = s.last();
        assert(is_wild_for(x, a) == is_wild_for(x, b));
        assert(flush_suit(x, a) == flush_suit(x, b));
        assert forall|su: int| #[trigger] suit_count(s, a, su) == suit_count(s, b, su) by {
            assert(suit_count(s.drop_last(), a, su) == suit_count(s.drop_last(), b, su));
        }
    }
}

/// Under Oops! All 6s a 6 leaves its suit and turns wild: no suit plus the wild cards loses.
proof fn lemma_oops_suit_plus_wild(s: Seq<Card>, rules: JokerRules, su: int)
    requires
        !rules.oops_all_6s,
    ensures
        suit_count(s, rules, su) + wild_count(s, rules) <= suit_count(
            s,
            JokerRules { oops_all_6s: true, ..rules },
            su,
        ) + wild_count(s, JokerRules { oops_all_6s: true, ..rules }),
    decreases s.len(),
{
    if s.len() > 0 {
        lemma_oops_suit_plus_wild(s.drop_last(), rules, su);
    }
}

/// Oops! All 6s never breaks a flush.
proof fn lemma_oops_keeps_flushes(w: Seq<Card>, rules: JokerRules)
    requires
        !rules.oops_all_6s,
        flush_of(w, rules),
    ensures
        flush_of(w, JokerRules { oops_all_6s: true, ..rules }),
{
    lemma_oops_suit_plus_wild(w, rules, 0);
    lemma_oops_suit_plus_wild(w, rules, 1);
    lemma_oops_suit_plus_wild(w, rules, 2);
    lemma_oops_suit_plus_wild(w, rules, 3);
}

/// The joker rules only add flushes: turning on Four Fingers, Smeared or Oops! All 6s never
/// removes one.
pub proof fn lemma_rules_only_add_flushes(hand: Seq<Card>, rules: JokerRules, more: JokerRules)
    requires
        rules.four_fingers ==> more.four_fingers,
        rules.smeared ==> more.smeared,
        rules.oops_all_6s ==> more.oops_all_6s,
        flush_of(hand_window(hand), rules),
    ensures
        flush_of(hand_window(hand), more),
{
    let w = hand_window(hand);
    let a = JokerRules { oops_all_6s: more.oops_all_6s, ..rules };
    if !rules.oops_all_6s && more.oops_all_6s {
        lemma_oops_keeps_flushes(w, rules);
    }
    assert(flush_of(w, a));
    let b = JokerRules { smeared: more.smeared, ..a };
    if !a.smeared && more.smeared {
        lemma_smeared_keeps_flushes(hand, a);
    }
    assert(flush_of(w, b));
    let c = JokerRules { four_fingers: more.four_fingers, ..b };
    if !b.four_fingers && more.four_fingers {
        lemma_four_fingers_keeps_flushes(hand, b);
    }
    lemma_counts_follow_suit_rules(w, b, c);
    assert(flush_of(w, c));
    lemma_counts_follow_suit_rules(w, c, more);
}

/// A hand ranks no lower when it is also a flush or also a straight.
proof fn lemma_classify_monotone(f1: bool, s1: bool, f2: bool, s2: bool, royal: bool, first: int, second: int)
    requires
        f1 ==> f2,
        s1 ==> s2,
    ensures
        hand_index(classify(f2, s2, royal, first, second)) >= hand_index(classify(f1, s1, royal, first, second)),
{
}

/// Enabling a rule joker never lowers the hand type: with Four Fingers, Shortcut, Smeared or
/// Oops! All 6s turned on (and none turned off) the same cards rank at least as high.
pub proof fn lemma_rules_never_lower_hand(hand: Seq<Card>, rules: JokerRules, more: JokerRules)
    requires
        rules.four_fingers ==> more.four_fingers,
        rules.shortcut ==> more.shortcut,
        rules.smeared ==> more.smeared,
        rules.oops_all_6s ==> more.oops_all_6s,
    ensures
        hand_index(hand_type_of(hand, more)) >= hand_index(hand_type_of(hand, rules)),
{
    let w = hand_window(hand);
    if part_count(w) > 0 {
        let c = rank_counts_of(w);
        if flush_of(w, rules) {
            lemma_rules_only_add_flushes(hand, rules, more);
        }
        if straight_with(c, rules) {
            lemma_rules_only_add_straights(c, rules, more);
        }
        lemma_classify_monotone(
            flush_of(w, rules),
            straight_with(c, rules),
            flush_of(w, more),
            straight_with(c, more),
            royal_counts(c),
            top_count(c),
            second_count(c),
        );
    }
}

/// Cards of `s` that meet `p`.
pub open spec fn count_where(s: Seq<Card>, p: spec_fn(Card) -> bool) -> nat
    decreases s.len(),
{
    if s.len() == 0 {
        0
    } else {
        count_where(s.drop_last(), p) + if p(s.last()) { 1nat } else { 0nat }
    }
}

/// Taking one card out of `s` takes its part out of the count.
proof fn lemma_count_where_remove(s: Seq<Card>, j: int, p: spec_fn(Card) -> bool)
    requires
        0 <= j < s.len(),
    ensures
        count_where(s, p) == count_where(s.remove(j), p) + if p(s[j]) { 1nat } else { 0nat },
    decreases s.len(),
{
    if j == s.len() - 1 {
        assert(s.remove(j) =~= s.drop_last());
    } else {
        lemma_count_where_remove(s.drop_last(), j, p);
        assert(s.remove(j).drop_last() =~= s.drop_last().remove(j));
        assert(s.remove(j).last() == s.last());
    }
}

/// The count depends only on which cards there are, not on their order.
proof fn lemma_count_where_permutation(s: Seq<Card>, t: Seq<Card>, p: spec_fn(Card) -> bool)
    requires
        s.to_multiset() == t.to_multiset(),
    ensures
        count_where(s, p) == count_where(t, p),
    decreases s.len(),
{
    broadcast use vstd::seq_lib::group_to_multiset_ensures;

    if s.len() == 0 {
        assert(t.to_multiset().len() == 0);
        assert(t.len() == 0);
    } else {
        let x = s.last();
        let rest = s.drop_last();
        assert(s =~= rest.push(x));
        assert(s.to_multiset() == rest.to_multiset().insert(x));
        assert(t.to_multiset().count(x) > 0);
        assert(t.contains(x));
        let j = choose|j: int| 0 <= j < t.len() && t[j] == x;
        assert(t.remove(j).to_multiset() == t.to_multiset().remove(x));
        assert(rest.to_multiset() =~= t.remove(j).to_multiset());
        lemma_count_where_permutation(rest, t.remove(j), p);
        lemma_count_where_remove(t, j, p);
    }
}

/// Cards that take part.
pub open spec fn part_pred() -> spec_fn(Card) -> bool {
    |c: Card| takes_part(c)
}

/// Cards that take part and have rank `r`.
pub open spec fn rank_pred(r: int) -> spec_fn(Card) -> bool {
    |c: Card| takes_part(c) && c.rank == r
}

/// Cards that take part and are wild for flushes.
pub open spec fn wild_pred(rules: JokerRules) -> spec_fn(Card) -> bool {
    |c: Card| takes_part(c) && is_wild_for(c, rules)
}

/// Cards that take part, are not wild, and add to flush suit `su`.
pub open spec fn suit_pred(rules: JokerRules, su: int) -> spec_fn(Card) -> bool {
    |c: Card| takes_part(c) && !is_wild_for(c, rules) && flush_suit(c, rules) == su
}

/// Each count of hand evaluation is a count of cards that meet a condition.
proof fn lemma_counts_are_counts_where(s: Seq<Card>, rules: JokerRules)
    ensures
        part_count(s) == count_where(s, part_pred()),
        wild_count(s, rules) == count_where(s, wild_pred(rules)),
        forall|r: int| #[trigger] rank_count(s, r) == count_where(s, rank_pred(r)),
        forall|su: int| #[trigger] suit_count(s, rules, su) == count_where(s, suit_pred(rules, su)),
    decreases s.len(),
{
    if s.len() > 0 {
        lemma_counts_are_counts_where(s.drop_last(), rules);
        assert forall|r: int| #[trigger] rank_count(s, r) == count_where(s, rank_pred(r)) by {
            assert(rank_count(s.drop_last(), r) == count_where(s.drop_last(), rank_pred(r)));
        }
        assert forall|su: int| #[trigger] suit_count(s, rules, su) == count_where(s, suit_pred(rules, su)) by {
            assert(suit_count(s.drop_last(), rules, su) == count_where(s.drop_last(), suit_pred(rules, su)));
        }
    }
}

/// Two card lists that agree on every count make the same hand.
proof fn lemma_same_counts_same_hand(a: Seq<Card>, b: Seq<Card>, rules: JokerRules)
    requires
        a.len() <= MAX_SELECTED,
        b.len() <= MAX_SELECTED,
        part_count(a) == part_count(b),
        wild_count(a, rules) == wild_count(b, rules),
        forall|r: int| #[trigger] rank_count(a, r) == rank_count(b, r),
        forall|su: int| #[trigger] suit_count(a, rules, su) == suit_count(b, rules, su),
    ensures
        hand_type_of(a, rules) == hand_type_of(b, rules),
{
    assert(hand_window(a) == a);
    assert(hand_window(b) == b);
    assert(rank_counts_of(a) =~= rank_counts_of(b));
    assert(max_suit_count(a, rules) == max_suit_count(b, rules));
}

/// The cards of `s` that take part, in order.
pub open spec fn active_cards(s: Seq<Card>) -> Seq<Card> {
    s.filter(part_pred())
}

/// Leaving out cards that take no part changes no count.
proof fn lemma_filter_keeps_counts(s: Seq<Card>, rules: JokerRules)
    ensures
        active_cards(s).len() <= s.len(),
        part_count(active_cards(s)) == part_count(s),
        wild_count(active_cards(s), rules) == wild_count(s, rules),
        forall|r: int| #[trigger] rank_count(active_cards(s), r) == rank_count(s, r),
        forall|su: int| #[trigger] suit_count(active_cards(s), rules, su) == suit_count(s, rules, su),
    decreases s.len(),
{
    reveal(Seq::filter);
    let p = part_pred();
    if s.len() > 0 {
        lemma_filter_keeps_counts(s.drop_last(), rules);
        let sub = active_cards(s.drop_last());
        let x = s.last();
        if p(x) {
            assert(active_cards(s) == sub.push(x));
            assert(sub.push(x).drop_last() =~= sub);
            assert(sub.push(x).last() == x);
        } else {
            assert(active_cards(s) == sub);
        }
        assert forall|r: int| #[trigger] rank_count(active_cards(s), r) == rank_count(s, r) by {
            assert(rank_count(active_cards(s.drop_last()), r) == rank_count(s.drop_last(), r));
            if p(x) {
                assert(rank_count(sub.push(x), r) == rank_count(sub, r) + if takes_part(x) && x.rank == r { 1nat } else { 0nat });
            }
        }
        assert forall|su: int| #[trigger] suit_count(active_cards(s), rules, su) == suit_count(s, rules, su) by {
            assert(suit_count(active_cards(s.drop_last()), rules, su) == suit_count(s.drop_last(), rules, su));
            if p(x) {
                assert(suit_count(sub.push(x), rules, su) == suit_count(sub, rules, su) + if takes_part(x) && !is_wild_for(x, rules) && flush_suit(x, rules) == su { 1nat } else { 0nat });
            }
        }
    }
}

/// Order, cards past the fifth, and stone or face-down cards never affect the hand type:
/// any reordering `q` of the first five cards makes the same hand, and so does `q` with the
/// cards that take no part left out.
pub proof fn lemma_hand_type_ignores_order_and_idle_cards(hand: Seq<Card>, q: Seq<Card>, rules: JokerRules)
    requires
        q.to_multiset() == hand_window(hand).to_multiset(),
    ensures
        hand_type_of(q, rules) == hand_type_of(hand, rules),
        hand_type_of(active_cards(q), rules) == hand_type_of(hand, rules),
{
    broadcast use vstd::seq_lib::group_to_multiset_ensures;

    let w = hand_window(hand);
    assert(q.len() == w.len()) by {
        assert(q.to_multiset().len() == w.to_multiset().len());
    }
    lemma_counts_are_counts_where(q, rules);
    lemma_counts_are_counts_where(w, rules);
    lemma_count_where_permutation(q, w, part_pred());
    lemma_count_where_permutation(q, w, wild_pred(rules));
    assert forall|r: int| #[trigger] rank_count(q, r) == rank_count(w, r) by {
        lemma_count_where_permutation(q, w, rank_pred(r));
    }
    assert forall|su: int| #[trigger] suit_count(q, rules, su) == suit_count(w, rules, su) by {
        lemma_count_where_permutation(q, w, suit_pred(rules, su));
    }
    assert(hand_window(w) == w);
    lemma_same_counts_same_hand(q, w, rules);
    assert(hand_type_of(w, rules) == hand_type_of(hand, rules));
    lemma_filter_keeps_counts(q, rules);
    lemma_same_counts_same_hand(active_cards(q), q, rules);
}


// ---------------------------------------------------------------------------
// What each hand type means
// ---------------------------------------------------------------------------

/// The hand types by what the participating cards of the first five make, with `t` the
/// largest number of cards sharing a rank and `s` the second largest (another rank), `F`
/// whether they make a flush and `S` a straight under the rules:
/// five of a rank is Five of a Kind (Flush Five if also a flush); four of a rank is Four of a
/// Kind unless also a straight flush; three and two is a Full House (Flush House if a flush);
/// a straight flush without three-and-two or more of a rank is a Straight (or Royal) Flush; a
/// flush alone is a Flush and a straight alone a Straight; otherwise three of a rank is Three
/// of a Kind, two and two Two Pair, two a Pair, and nothing High Card. This holds whatever
/// number of other cards is played, and with no participating card the hand is High Card.
pub proof fn lemma_hand_type_meaning(hand: Seq<Card>, rules: JokerRules)
    ensures
        ({
            let w = hand_window(hand);
            let c = rank_counts_of(w);
            let t = top_count(c);
            let s = second_count(c);
            let f = flush_of(w, rules);
            let st = straight_with(c, rules);
            let h = hand_type_of(hand, rules);
            let full = t == 3 && s == 2;
            &&& part_count(w) == 0 ==> h == HandId::HighCard
            &&& part_count(w) > 0 ==> {
                &&& t == 5 ==> h == (if f { HandId::FlushFive } else { HandId::FiveKind })
                &&& t == 4 && !(f && st) ==> h == HandId::FourKind
                &&& full ==> h == (if f { HandId::FlushHouse } else { HandId::FullHouse })
                &&& f && st && t < 5 && !full ==> h == (if royal_counts(c) {
                    HandId::RoyalFlush
                } else {
                    HandId::StraightFlush
                })
                &&& f && !st && t < 4 && !full ==> h == HandId::Flush
                &&& st && !f && t < 4 && !full ==> h == HandId::Straight
                &&& t == 3 && s < 2 && !f && !st ==> h == HandId::ThreeKind
                &&& t == 2 && s == 2 && !f && !st ==> h == HandId::TwoPair
                &&& t == 2 && s < 2 && !f && !st ==> h == HandId::Pair
                &&& t < 2 && !f && !st ==> h == HandId::HighCard
            }
        }),
{
}


proof fn lemma_argmax_is_max(c: Seq<u8>, n: int)
    requires
        1 <= n <= c.len(),
    ensures
        0 <= count_argmax(c, n) < n,
        forall|i: int| 0 <= i < n ==> #[trigger] c[i] <= c[count_argmax(c, n)],
    decreases n,
{
    if n > 1 {
        lemma_argmax_is_max(c, n - 1);
    }
}

proof fn lemma_max_excluding_bounds(c: Seq<u8>, skip: int, n: int, b: int)
    requires
        0 <= n <= c.len(),
        0 <= b,
        forall|i: int| 0 <= i < n && i != skip ==> #[trigger] c[i] <= b,
    ensures
        0 <= max_excluding(c, skip, n) <= b,
        forall|i: int| 0 <= i < n && i != skip ==> #[trigger] c[i] <= max_excluding(c, skip, n),
    decreases n,
{
    if n > 0 {
        lemma_max_excluding_bounds(c, skip, n - 1, b);
    }
}

/// When rank index `a` holds the largest count `t0` and every other rank at most `s0`, the
/// top count is `t0` and the second at most `s0`; it is `s0` when another rank `b` holds it.
proof fn lemma_top_and_second(c: Seq<u8>, a: int, b: int, t0: int, s0: int)
    requires
        c.len() == 13,
        0 <= a < 13,
        c[a] == t0,
        0 <= s0 <= t0,
        forall|i: int| 0 <= i < 13 ==> #[trigger] c[i] <= t0,
        forall|i: int| 0 <= i < 13 && i != a ==> #[trigger] c[i] <= s0,
    ensures
        top_count(c) == t0,
        second_count(c) <= s0,
        0 <= b < 13 && b != a && c[b] == s0 ==> second_count(c) == s0,
{
    lemma_argmax_is_max(c, 13);
    let m = count_argmax(c, 13);
    assert(c[m] >= c[a]);
    assert(c[m] == t0);
    if m != a {
        assert(c[m] <= s0);
        assert(c[a] <= s0);
    }
    lemma_max_excluding_bounds(c, m, 13, s0);
    if 0 <= b < 13 && b != a && c[b] == s0 {
        if m != a {
            assert(c[a] <= max_excluding(c, m, 13));
        } else {
            assert(c[b] <= max_excluding(c, m, 13));
        }
    }
}

proof fn lemma_rank_count_bounded(s: Seq<Card>, r: int)
    ensures
        rank_count(s, r) <= part_count(s) <= s.len(),
    decreases s.len(),
{
    if s.len() > 0 {
        lemma_rank_count_bounded(s.drop_last(), r);
    }
}

/// The participating cards of the first five that have rank `r`.
pub open spec fn cards_of_rank(hand: Seq<Card>, r: int) -> int {
    rank_count(hand_window(hand), r) as int
}

/// Every rank 1 to 13 other than `r1` and `r2` has at most `k` participating cards.
pub open spec fn others_at_most(hand: Seq<Card>, r1: int, r2: int, k: int) -> bool {
    forall|r: int| 1 <= r <= 13 && r != r1 && r != r2 ==> #[trigger] cards_of_rank(hand, r) <= k
}

proof fn lemma_counts_are_rank_counts(hand: Seq<Card>)
    ensures
        rank_counts_of(hand_window(hand)).len() == 13,
        forall|i: int|
            0 <= i < 13 ==> #[trigger] rank_counts_of(hand_window(hand))[i] as int == cards_of_rank(hand, i + 1),
        forall|i: int| 0 <= i < 13 ==> #[trigger] rank_counts_of(hand_window(hand))[i] <= 5,
{
    let w = hand_window(hand);
    assert(w.len() <= 5);
    assert forall|i: int| 0 <= i < 13 implies #[trigger] rank_counts_of(w)[i] as int == cards_of_rank(hand, i + 1)
        && rank_counts_of(w)[i] <= 5 by {
        lemma_rank_count_bounded(w, i + 1);
    }
}

/// The hand types by how many participating cards of the first five share each rank, for
/// two different ranks `r1` and `r2`, when the cards make neither a flush nor a straight:
/// three of `r1` and at most one of every other rank is Three of a Kind, however many other
/// cards are played (three equal ranks alone are Three of a Kind); two of `r1` and at most
/// one of every other rank is a Pair; two of `r1` and of `r2` and at most one of every other
/// rank is Two Pair; three of `r1`, two of `r2` and at most one of every other rank is a Full
/// House; four of `r1` and at most one of every other rank is Four of a Kind; five of `r1`
/// is Five of a Kind; some card but at most one of every rank is High Card.
pub proof fn lemma_hand_type_by_ranks(hand: Seq<Card>, rules: JokerRules, r1: int, r2: int)
    requires
        1 <= r1 <= 13,
        1 <= r2 <= 13,
        r1 != r2,
        !flush_of(hand_window(hand), rules),
        !straight_with(rank_counts_of(hand_window(hand)), rules),
    ensures
        cards_of_rank(hand, r1) == 3 && others_at_most(hand, r1, r1, 1) ==> hand_type_of(hand, rules)
            == HandId::ThreeKind,
        cards_of_rank(hand, r1) == 2 && others_at_most(hand, r1, r1, 1) ==> hand_type_of(hand, rules)
            == HandId::Pair,
        cards_of_rank(hand, r1) == 2 && cards_of_rank(hand, r2) == 2 && others_at_most(hand, r1, r2, 1)
            ==> hand_type_of(hand, rules) == HandId::TwoPair,
        cards_of_rank(hand, r1) == 3 && cards_of_rank(hand, r2) == 2 && others_at_most(hand, r1, r2, 1)
            ==> hand_type_of(hand, rules) == HandId::FullHouse,
        cards_of_rank(hand, r1) == 4 && others_at_most(hand, r1, r1, 1) ==> hand_type_of(hand, rules)
            == HandId::FourKind,
        cards_of_rank(hand, r1) == 5 ==> hand_type_of(hand, rules) == HandId::FiveKind,
        part_count(hand_window(hand)) > 0 && others_at_most(hand, 0, 0, 1) ==> hand_type_of(hand, rules)
            == HandId::HighCard,
{
    let w = hand_window(hand);
    let c = rank_counts_of(w);
    lemma_counts_are_rank_counts(hand);
    lemma_rank_count_bounded(w, r1);
    lemma_hand_type_meaning(hand, rules);
    let a = r1 - 1;
    let b = r2 - 1;
    assert(c[a] as int == cards_of_rank(hand, r1));
    assert(c[b] as int == cards_of_rank(hand, r2));
    if others_at_most(hand, r1, r1, 1) && 1 <= cards_of_rank(hand, r1) <= 4 {
        let t0 = cards_of_rank(hand, r1);
        assert forall|i: int| 0 <= i < 13 && i != a implies #[trigger] c[i] <= 1 by {
            assert(cards_of_rank(hand, i + 1) <= 1);
        }
        lemma_top_and_second(c, a, b, t0, 1);
    }
    if others_at_most(hand, r1, r2, 1) && cards_of_rank(hand, r2) == 2 && 2 <= cards_of_rank(hand, r1) <= 3 {
        let t0 = cards_of_rank(hand, r1);
        assert forall|i: int| 0 <= i < 13 && i != a implies #[trigger] c[i] <= 2 by {
            assert(cards_of_rank(hand, i + 1) <= 2 || i == b);
        }
        lemma_top_and_second(c, a, b, t0, 2);
    }
    if cards_of_rank(hand, r1) == 5 {
        lemma_top_and_second(c, a, b, 5, 5);
    }
    if part_count(w) > 0 && others_at_most(hand, 0, 0, 1) {
        lemma_argmax_is_max(c, 13);
        assert forall|i: int| 0 <= i < 13 implies #[trigger] c[i] <= 1 by {
            assert(cards_of_rank(hand, i + 1) <= 1);
        }
    }
}


/// The rank at position `k` of a run going up from rank `lo`, an Ace (1) standing above the
/// King.
pub open spec fn run_rank(lo: int, k: int) -> int {
    if lo + k == 14 {
        1
    } else {
        lo + k
    }
}

proof fn lemma_nonzero_all_present(c: Seq<u8>, lo: int, hi: int)
    requires
        0 <= lo <= hi <= c.len(),
        forall|i: int| lo <= i < hi ==> #[trigger] c[i] > 0,
    ensures
        nonzero_in(c, lo, hi) == hi - lo,
    decreases hi - lo,
{
    if hi > lo {
        lemma_nonzero_all_present(c, lo, hi - 1);
    }
}

/// Five ranks in a row make a straight under any rules: from Ace-2-3-4-5 (`lo` 1) up to
/// 10-Jack-Queen-King-Ace (`lo` 10), the Ace counting low or high.
pub proof fn lemma_runs_make_straights(hand: Seq<Card>, rules: JokerRules, lo: int)
    requires
        1 <= lo <= 10,
        forall|k: int| 0 <= k < 5 ==> cards_of_rank(hand, #[trigger] run_rank(lo, k)) > 0,
    ensures
        straight_with(rank_counts_of(hand_window(hand)), rules),
{
    let c = rank_counts_of(hand_window(hand));
    let e = ace_both_ends(c);
    lemma_counts_are_rank_counts(hand);
    assert forall|i: int| lo - 1 <= i < lo + 4 implies #[trigger] e[i] > 0 by {
        let k = i - (lo - 1);
        assert(cards_of_rank(hand, run_rank(lo, k)) > 0);
        if i == 13 {
            assert(e[13] == c[0]);
        } else {
            assert(e[i] == c[i]);
        }
    }
    lemma_nonzero_all_present(e, lo - 1, lo + 4);
    assert(e.len() == 14);
    assert(nonzero_in(e, lo - 1, (lo - 1) + 5) >= 5);
    assert(straight_plain(c, 5));
    lemma_rules_only_add_straights(c, JokerRules::new_spec(), rules);
}

/// A straight needs as many different ranks as the rules ask cards for: five, or four with
/// Four Fingers (an Ace counted high and low is one rank).
pub proof fn lemma_straights_need_ranks(c: Seq<u8>, rules: JokerRules)
    requires
        c.len() == 13,
        straight_with(c, rules),
    ensures
        nonzero_in(c, 0, 13) >= min_cards_for(rules),
{
    let e = ace_both_ends(c);
    let m = min_cards_for(rules);
    let size = if rules.shortcut { m + 1 } else { m };
    let start = choose|start: int| 0 <= start <= e.len() - size && #[trigger] nonzero_in(e, start, start + size) >= m;
    assert(nonzero_in(e, start, start + size) >= m);
    assert forall|i: int| 0 <= i < 13 implies #[trigger] e[i] == c[i] by {}
    if start + size <= 13 {
        assert forall|lo: int, hi: int| 0 <= lo <= hi <= 13 implies nonzero_in(e, lo, hi) == #[trigger] nonzero_in(
            c,
            lo,
            hi,
        ) by {
            lemma_same_prefix_nonzero(e, c, lo, hi);
        }
        lemma_nonzero_mono(c, 0, start, start + size, 13);
    } else {
        assert(start + size == 14);
        assert(start >= 1);
        lemma_nonzero_split(e, start, 13, 14);
        lemma_same_prefix_nonzero(e, c, start, 13);
        lemma_nonzero_split(c, 0, 1, 13);
        lemma_nonzero_mono(c, 1, start, 13, 13);
        assert(e[13] == c[0]);
        assert(nonzero_in(e, 13, 13) == 0);
        assert(nonzero_in(c, 0, 0) == 0);
        assert(nonzero_in(e, 13, 14) == nonzero_in(c, 0, 1));
    }
}

proof fn lemma_same_prefix_nonzero(e: Seq<u8>, c: Seq<u8>, lo: int, hi: int)
    requires
        0 <= lo <= hi <= 13,
        c.len() == 13,
        e.len() >= 13,
        forall|i: int| 0 <= i < 13 ==> #[trigger] e[i] == c[i],
    ensures
        nonzero_in(e, lo, hi) == nonzero_in(c, lo, hi),
    decreases hi - lo,
{
    if hi > lo {
        lemma_same_prefix_nonzero(e, c, lo, hi - 1);
    }
}

/// A flush is as many cards of one suit as the rules ask for, wild cards counting for every
/// suit: the cards make a flush exactly when some suit's cards and the wild cards together
/// reach that number.
pub proof fn lemma_flush_meaning(w: Seq<Card>, rules: JokerRules)
    ensures
        flush_of(w, rules) <==> exists|su: int|
            0 <= su < 4 && #[trigger] suit_count(w, rules, su) + wild_count(w, rules) >= min_cards_for(rules),
{
    if flush_of(w, rules) {
        let a = suit_count(w, rules, 0) as int;
        let b = suit_count(w, rules, 1) as int;
        let c = suit_count(w, rules, 2) as int;
        let d = suit_count(w, rules, 3) as int;
        if max_suit_count(w, rules) == a {
            assert(suit_count(w, rules, 0) + wild_count(w, rules) >= min_cards_for(rules));
        } else if max_suit_count(w, rules) == b {
            assert(suit_count(w, rules, 1) + wild_count(w, rules) >= min_cards_for(rules));
        } else if max_suit_count(w, rules) == c {
            assert(suit_count(w, rules, 2) + wild_count(w, rules) >= min_cards_for(rules));
        } else {
            assert(suit_count(w, rules, 3) + wild_count(w, rules) >= min_cards_for(rules));
        }
    }
}


/// Stone cards and face-down cards take no part in the hand: adding one to four played
/// cards or fewer leaves the hand type as it was; any other card takes part.
pub proof fn lemma_idle_cards_change_nothing(hand: Seq<Card>, c: Card, rules: JokerRules)
    requires
        hand.len() < MAX_SELECTED,
    ensures
        takes_part(c) <==> (c.enhancement != Enhancement::Stone && !c.face_down),
        c.enhancement == Enhancement::Stone || c.face_down ==> hand_type_of(hand.push(c), rules) == hand_type_of(
            hand,
            rules,
        ),
{
    if c.enhancement == Enhancement::Stone || c.face_down {
        let w1 = hand.push(c);
        assert(hand_window(w1) == w1);
        assert(hand_window(hand) == hand);
        assert(w1.drop_last() =~= hand);
        assert(part_count(w1) == part_count(hand));
        assert(wild_count(w1, rules) == wild_count(hand, rules));
        assert(suit_count(w1, rules, 0) == suit_count(hand, rules, 0));
        assert(suit_count(w1, rules, 1) == suit_count(hand, rules, 1));
        assert(suit_count(w1, rules, 2) == suit_count(hand, rules, 2));
        assert(suit_count(w1, rules, 3) == suit_count(hand, rules, 3));
        assert forall|i: int| 0 <= i < 13 implies #[trigger] rank_counts_of(w1)[i] == rank_counts_of(hand)[i] by {
            assert(rank_count(w1, i + 1) == rank_count(hand, i + 1));
        }
        assert(rank_counts_of(w1) =~= rank_counts_of(hand));
    }
}


/// The suit rules for flushes: without Smeared every suit stands alone; with Smeared the
/// red suits (Diamonds 1, Hearts 2) count as one and the black suits (Spades 0, Clubs 3) as
/// another; Wild cards, and every 6 under Oops! All 6s, count for any suit.
pub proof fn lemma_suit_rules(c: Card, d: Card, rules: JokerRules)
    requires
        c.suit < 4,
        d.suit < 4,
    ensures
        !rules.smeared ==> (flush_suit(c, rules) == flush_suit(d, rules) <==> c.suit == d.suit),
        rules.smeared ==> (flush_suit(c, rules) == flush_suit(d, rules) <==> ((c.suit == 1 || c.suit == 2) == (d.suit
            == 1 || d.suit == 2))),
        is_wild_for(c, rules) <==> (c.enhancement == Enhancement::Wild || (rules.oops_all_6s && c.rank == 6)),
{
}

} // verus!
