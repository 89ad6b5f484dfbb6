//! Starting decks and what each one changes.

use vstd::prelude::*;

use rand::rngs::StdRng;

use crate::cards::{Card, plain_card, standard_deck};
use crate::consumables::TarotId;
use crate::constants::{DISCARDS_PER_BLIND, HAND_SIZE, JOKER_SLOTS, PLAYS_PER_BLIND, STARTING_MONEY};
use crate::rng::gen_below;
use crate::vouchers::VoucherId;

verus! {

/// Number of starting decks.
pub const DECK_TYPE_COUNT: usize = 16;

/// Starting deck.
#[derive(Clone, Copy, Debug, PartialEq, Eq, Structural)]
pub enum DeckType {
    Standard,
    Red,
    Blue,
    Yellow,
    Green,
    Black,
    GhostDeck,
    Abandoned,
    Checkered,
    Painted,
    Plasma,
    Erratic,
    Magic,
    Nebula,
    Zodiac,
    Anaglyph,
}

/// Position of a deck in `DeckType::all`.
pub open spec fn deck_index(d: DeckType) -> int {
    match d {
        DeckType::Standard => 0,
        DeckType::Red => 1,
        DeckType::Blue => 2,
        DeckType::Yellow => 3,
        DeckType::Green => 4,
        DeckType::Black => 5,
        DeckType::GhostDeck => 6,
        DeckType::Abandoned => 7,
        DeckType::Checkered => 8,
        DeckType::Painted => 9,
        DeckType::Plasma => 10,
        DeckType::Erratic => 11,
        DeckType::Magic => 12,
        DeckType::Nebula => 13,
        DeckType::Zodiac => 14,
        DeckType::Anaglyph => 15,
    }
}

/// Display name of a deck.
pub open spec fn deck_name(d: DeckType) -> &'static str {
    match d {
        DeckType::Standard => "Standard Deck",
        DeckType::Red => "Red Deck",
        DeckType::Blue => "Blue Deck",
        DeckType::Yellow => "Yellow Deck",
        DeckType::Green => "Green Deck",
        DeckType::Black => "Black Deck",
        DeckType::GhostDeck => "Ghost Deck",
        DeckType::Abandoned => "Abandoned Deck",
        DeckType::Checkered => "Checkered Deck",
        DeckType::Painted => "Painted Deck",
        DeckType::Plasma => "Plasma Deck",
        DeckType::Erratic => "Erratic Deck",
        DeckType::Magic => "Magic Deck",
        DeckType::Nebula => "Nebula Deck",
        DeckType::Zodiac => "Zodiac Deck",
        DeckType::Anaglyph => "Anaglyph Deck",
    }
}

/// Change to starting money.
pub open spec fn deck_money_mod(d: DeckType) -> int {
    match d {
        DeckType::Yellow => 10,
        _ => 0,
    }
}

/// Change to hands per blind.
pub open spec fn deck_plays_mod(d: DeckType) -> int {
    match d {
        DeckType::Blue => 1,
        DeckType::Black => -1,
        _ => 0,
    }
}

/// Change to discards per blind.
pub open spec fn deck_discards_mod(d: DeckType) -> int {
    match d {
        DeckType::Red => 1,
        _ => 0,
    }
}

/// Change to joker slots.
pub open spec fn deck_joker_slots_mod(d: DeckType) -> int {
    match d {
        DeckType::Black => 1,
        DeckType::Painted => -1,
        _ => 0,
    }
}

/// Change to hand size.
pub open spec fn deck_hand_size_mod(d: DeckType) -> int {
    match d {
        DeckType::Painted => 2,
        _ => 0,
    }
}

/// Change to consumable slots.
pub open spec fn deck_consumable_slots_mod(d: DeckType) -> int {
    match d {
        DeckType::Nebula => -1,
        _ => 0,
    }
}

/// Money per hand left at the end of a round.
pub open spec fn deck_money_per_hand(d: DeckType) -> int {
    match d {
        DeckType::Green => 2,
        _ => 1,
    }
}

/// Whether interest is off (Green).
pub open spec fn deck_disables_interest(d: DeckType) -> bool {
    d == DeckType::Green
}

/// Whether chips and mult are balanced before scoring (Plasma).
pub open spec fn deck_plasma(d: DeckType) -> bool {
    d == DeckType::Plasma
}

/// Whether beating a boss gives a Double Tag (Anaglyph).
pub open spec fn deck_double_tag(d: DeckType) -> bool {
    d == DeckType::Anaglyph
}

impl DeckType {
    /// Every deck, in index order.
    pub fn all() -> (r: &'static [DeckType])
        ensures
            r@.len() == DECK_TYPE_COUNT,
            forall|i: int| 0 <= i < DECK_TYPE_COUNT ==> deck_index(#[trigger] r@[i]) == i,
    {
        let r: &'static [DeckType] = &[
            DeckType::Standard,
            DeckType::Red,
            DeckType::Blue,
            DeckType::Yellow,
            DeckType::Green,
            DeckType::Black,
            DeckType::GhostDeck,
            DeckType::Abandoned,
            DeckType::Checkered,
            DeckType::Painted,
            DeckType::Plasma,
            DeckType::Erratic,
            DeckType::Magic,
            DeckType::Nebula,
            DeckType::Zodiac,
            DeckType::Anaglyph,
        ];
        r
    }

    pub fn name(&self) -> (r: &'static str)
        ensures
            r == deck_name(*self),
    {
        match self {
            DeckType::Standard => "Standard Deck",
            DeckType::Red => "Red Deck",
            DeckType::Blue => "Blue Deck",
            DeckType::Yellow => "Yellow Deck",
            DeckType::Green => "Green Deck",
            DeckType::Black => "Black Deck",
            DeckType::GhostDeck => "Ghost Deck",
            DeckType::Abandoned => "Abandoned Deck",
            DeckType::Checkered => "Checkered Deck",
            DeckType::Painted => "Painted Deck",
            DeckType::Plasma => "Plasma Deck",
            DeckType::Erratic => "Erratic Deck",
            DeckType::Magic => "Magic Deck",
            DeckType::Nebula => "Nebula Deck",
            DeckType::Zodiac => "Zodiac Deck",
            DeckType::Anaglyph => "Anaglyph Deck",
        }
    }

    /// Change to starting money.
    pub fn starting_money_modifier(&self) -> (r: i64)
        ensures
            r == deck_money_mod(*self),
    {
        match self {
            DeckType::Yellow => 10,
            _ => 0,
        }
    }

    /// Change to hands per blind.
    pub fn plays_per_blind_modifier(&self) -> (r: i32)
        ensures
            r == deck_plays_mod(*self),
    {
        match self {
            DeckType::Blue => 1,
            DeckType::Black => -1,
            _ => 0,
        }
    }

    /// Change to discards per blind.
    pub fn discards_per_blind_modifier(&self) -> (r: i32)
        ensures
            r == deck_discards_mod(*self),
    {
        match self {
            DeckType::Red => 1,
            _ => 0,
        }
    }

    /// Change to joker slots.
    pub fn joker_slots_modifier(&self) -> (r: i32)
        ensures
            r == deck_joker_slots_mod(*self),
    {
        match self {
            DeckType::Black => 1,
            DeckType::Painted => -1,
            _ => 0,
        }
    }

    /// Change to hand size.
    pub fn hand_size_modifier(&self) -> (r: i32)
        ensures
            r == deck_hand_size_mod(*self),
    {
        match self {
            DeckType::Painted => 2,
            _ => 0,
        }
    }

    /// Change to consumable slots.
    pub fn consumable_slots_modifier(&self) -> (r: i32)
        ensures
            r == deck_consumable_slots_mod(*self),
    {
        match self {
            DeckType::Nebula => -1,
            _ => 0,
        }
    }

    /// Money per hand left at the end of a round.
    pub fn money_per_remaining_hand(&self) -> (r: i64)
        ensures
            r == deck_money_per_hand(*self),
    {
        match self {
            DeckType::Green => 2,
            _ => 1,
        }
    }

    /// Whether interest is off (Green).
    pub fn disables_interest(&self) -> (r: bool)
        ensures
            r == deck_disables_interest(*self),
    {
        matches!(self, DeckType::Green)
    }

    /// Whether chips and mult are balanced before scoring (Plasma).
    pub fn uses_plasma_scoring(&self) -> (r: bool)
        ensures
            r == deck_plasma(*self),
    {
        matches!(self, DeckType::Plasma)
    }

    /// Whether beating a boss gives a Double Tag (Anaglyph).
    pub fn gives_double_tag_after_boss(&self) -> (r: bool)
        ensures
            r == deck_double_tag(*self),
    {
        matches!(self, DeckType::Anaglyph)
    }

    pub fn to_index(&self) -> (r: usize)
        ensures
            r == deck_index(*self),
    {
        match self {
            DeckType::Standard => 0,
            DeckType::Red => 1,
            DeckType::Blue => 2,
            DeckType::Yellow => 3,
            DeckType::Green => 4,
            DeckType::Black => 5,
            DeckType::GhostDeck => 6,
            DeckType::Abandoned => 7,
            DeckType::Checkered => 8,
            DeckType::Painted => 9,
            DeckType::Plasma => 10,
            DeckType::Erratic => 11,
            DeckType::Magic => 12,
            DeckType::Nebula => 13,
            DeckType::Zodiac => 14,
            DeckType::Anaglyph => 15,
        }
    }

    /// The cards a deck starts with: no face cards for Abandoned, two suits for Checkered,
    /// random cards for Erratic, the standard 52 otherwise.
    pub fn create_deck(&self, rng: &mut StdRng) -> (r: Vec<Card>)
        ensures
            *self == DeckType::Abandoned ==> r@ == abandoned_cards(),
            *self == DeckType::Checkered ==> r@ == checkered_cards(),
            *self == DeckType::Erratic ==> r@.len() == 52 && forall|i: int|
                0 <= i < 52 ==> 1 <= (#[trigger] r@[i]).rank <= 13 && r@[i].suit < 4 && r@[i]
                    == plain_card(r@[i].rank, r@[i].suit),
            *self != DeckType::Abandoned && *self != DeckType::Checkered && *self
                != DeckType::Erratic ==> r@.len() == 52 && forall|i: int|
                0 <= i < 52 ==> 1 <= (#[trigger] r@[i]).rank <= 13 && r@[i].suit < 4 && r@[i]
                    == plain_card(r@[i].rank, r@[i].suit) && r@[i].suit * 13 + r@[i].rank - 1 == i,
    {
        match self {
            DeckType::Abandoned => create_abandoned_deck(),
            DeckType::Checkered => create_checkered_deck(),
            DeckType::Erratic => create_erratic_deck(rng),
            _ => standard_deck(),
        }
    }

    /// Vouchers a deck starts with.
    pub fn starting_vouchers(&self) -> (r: Vec<VoucherId>)
        ensures
            r@ == (match *self {
                DeckType::Magic => seq![VoucherId::CrystalBall],
                DeckType::Nebula => seq![VoucherId::Telescope],
                DeckType::Zodiac => seq![VoucherId::Tarot_Merchant, VoucherId::Planet_Merchant, VoucherId::Overstock],
                _ => Seq::<VoucherId>::empty(),
            }),
    {
        let mut r: Vec<VoucherId> = Vec::new();
        match self {
            DeckType::Magic => {
                r.push(VoucherId::CrystalBall);
            },
            DeckType::Nebula => {
                r.push(VoucherId::Telescope);
            },
            DeckType::Zodiac => {
                r.push(VoucherId::Tarot_Merchant);
                r.push(VoucherId::Planet_Merchant);
                r.push(VoucherId::Overstock);
            },
            _ => {},
        }
        proof {
            assert(r@ =~= (match *self {
                DeckType::Magic => seq![VoucherId::CrystalBall],
                DeckType::Nebula => seq![VoucherId::Telescope],
                DeckType::Zodiac => seq![VoucherId::Tarot_Merchant, VoucherId::Planet_Merchant, VoucherId::Overstock],
                _ => Seq::<VoucherId>::empty(),
            }));
        }
        r
    }

    /// Tarot cards a deck starts with: two Fools for Magic, none otherwise.
    pub fn starting_consumables(&self) -> (r: Vec<TarotId>)
        ensures
            r@ == (match *self {
                DeckType::Magic => seq![TarotId::TheFool, TarotId::TheFool],
                _ => Seq::<TarotId>::empty(),
            }),
    {
        let mut r: Vec<TarotId> = Vec::new();
        match self {
            DeckType::Magic => {
                r.push(TarotId::TheFool);
                r.push(TarotId::TheFool);
            },
            _ => {},
        }
        proof {
            assert(r@ =~= (match *self {
                DeckType::Magic => seq![TarotId::TheFool, TarotId::TheFool],
                _ => Seq::<TarotId>::empty(),
            }));
        }
        r
    }
}

/// Deck positions identify decks.
pub proof fn lemma_deck_index_injective(a: DeckType, b: DeckType)
    requires
        deck_index(a) == deck_index(b),
    ensures
        a == b,
{
}

/// Starting settings of a run with a given deck.
#[derive(Clone, Debug)]
pub struct DeckConfig {
    pub deck_type: DeckType,
    pub starting_money: i64,
    pub plays_per_blind: i32,
    pub discards_per_blind: i32,
    pub joker_slots: usize,
    pub hand_size: usize,
}

impl DeckConfig {
    /// The base game settings with the deck's changes applied.
    pub fn from_deck_type(deck_type: DeckType) -> (r: DeckConfig)
        ensures
            r.deck_type == deck_type,
            r.starting_money == STARTING_MONEY + deck_money_mod(deck_type),
            r.plays_per_blind == PLAYS_PER_BLIND + deck_plays_mod(deck_type),
            r.discards_per_blind == DISCARDS_PER_BLIND + deck_discards_mod(deck_type),
            r.joker_slots == JOKER_SLOTS + deck_joker_slots_mod(deck_type),
            r.hand_size == HAND_SIZE + deck_hand_size_mod(deck_type),
    {
        DeckConfig {
            deck_type,
            starting_money: STARTING_MONEY + deck_type.starting_money_modifier(),
            plays_per_blind: PLAYS_PER_BLIND + deck_type.plays_per_blind_modifier(),
            discards_per_blind: DISCARDS_PER_BLIND + deck_type.discards_per_blind_modifier(),
            joker_slots: (JOKER_SLOTS as i32 + deck_type.joker_slots_modifier()) as usize,
            hand_size: (HAND_SIZE as i32 + deck_type.hand_size_modifier()) as usize,
        }
    }
}

/// Abandoned deck: Ace to 10 of each suit, suit by suit.
pub open spec fn abandoned_cards() -> Seq<Card> {
    Seq::new(40, |i: int| plain_card((i % 10 + 1) as u8, (i / 10) as u8))
}

/// Checkered deck: each rank twice in suit 0, then each rank twice in suit 1.
pub open spec fn checkered_cards() -> Seq<Card> {
    Seq::new(52, |i: int| plain_card(((i % 26) / 2 + 1) as u8, (i / 26) as u8))
}

/// The deck without face cards.
fn create_abandoned_deck() -> (r: Vec<Card>)
    ensures
        r@ == abandoned_cards(),
{
    let mut deck: Vec<Card> = Vec::new();
    let mut suit: u8 = 0;
    while suit < 4
        invariant
            suit <= 4,
            deck@.len() == suit * 10,
            forall|i: int| 0 <= i < deck@.len() ==> #[trigger] deck@[i] == abandoned_cards()[i],
        decreases 4 - suit,
    {
        let mut rank: u8 = 1;
        while rank <= 10
            invariant
                suit < 4,
                1 <= rank <= 11,
                deck@.len() == suit * 10 + rank - 1,
                forall|i: int| 0 <= i < deck@.len() ==> #[trigger] deck@[i] == abandoned_cards()[i],
            decreases 11 - rank,
        {
            proof {
                let i = deck@.len() as int;
                assert(i % 10 + 1 == rank && i / 10 == suit) by (nonlinear_arith)
                    requires
                        i == suit * 10 + rank - 1,
                        1 <= rank <= 10,
                ;
            }
            deck.push(Card::new(rank, suit));
            rank = rank + 1;
        }
        suit = suit + 1;
    }
    proof {
        assert(deck@ =~= abandoned_cards());
    }
    deck
}

/// Twenty-six cards of suit 0 and twenty-six of suit 1, each rank twice.
fn create_checkered_deck() -> (r: Vec<Card>)
    ensures
        r@ == checkered_cards(),
{
    let mut deck: Vec<Card> = Vec::new();
    let mut suit: u8 = 0;
    while suit < 2
        invariant
            suit <= 2,
            deck@.len() == suit * 26,
            forall|i: int| 0 <= i < deck@.len() ==> #[trigger] deck@[i] == checkered_cards()[i],
        decreases 2 - suit,
    {
        let mut rank: u8 = 1;
        while rank <= 13
            invariant
                suit < 2,
                1 <= rank <= 14,
                deck@.len() == suit * 26 + 2 * (rank - 1),
                forall|i: int| 0 <= i < deck@.len() ==> #[trigger] deck@[i] == checkered_cards()[i],
            decreases 14 - rank,
        {
            proof {
                let i = deck@.len() as int;
                assert((i % 26) / 2 + 1 == rank && i / 26 == suit && ((i + 1) % 26) / 2 + 1 == rank
                    && (i + 1) / 26 == suit) by (nonlinear_arith)
                    requires
                        i == suit * 26 + 2 * (rank - 1),
                        1 <= rank <= 13,
                        0 <= suit < 2,
                ;
            }
            deck.push(Card::new(rank, suit));
            deck.push(Card::new(rank, suit));
            rank = rank + 1;
        }
        suit = suit + 1;
    }
    proof {
        assert(deck@ =~= checkered_cards());
    }
    deck
}

/// Fifty-two cards of random rank and suit.
fn create_erratic_deck(rng: &mut StdRng) -> (r: Vec<Card>)
    ensures
        r@.len() == 52,
        forall|i: int|
            0 <= i < 52 ==> 1 <= (#[trigger] r@[i]).rank <= 13 && r@[i].suit < 4 && r@[i] == plain_card(
                r@[i].rank,
                r@[i].suit,
            ),
{
    let mut deck: Vec<Card> = Vec::new();
    let mut k: usize = 0;
    while k < 52
        invariant
            k <= 52,
            deck@.len() == k,
            forall|i: int|
                0 <= i < k ==> 1 <= (#[trigger] deck@[i]).rank <= 13 && deck@[i].suit < 4 && deck@[i]
                    == plain_card(deck@[i].rank, deck@[i].suit),
        decreases 52 - k,
    {
        let suit = gen_below(rng, 4) as u8;
        let rank = (gen_below(rng, 13) + 1) as u8;
        deck.push(Card::new(rank, suit));
        k = k + 1;
    }
    deck
}

} // verus!
