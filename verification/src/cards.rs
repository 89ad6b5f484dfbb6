//! Playing cards, their enhancements, seals and editions.

use vstd::prelude::*;

verus! {

/// Card enhancement.
#[derive(Clone, Copy, Debug, PartialEq, Eq, Structural, Default)]
pub enum Enhancement {
    #[default]
    NoEnhancement,
    /// +30 chips
    Bonus,
    /// +4 mult
    Mult,
    /// counts as every suit
    Wild,
    /// x2 mult, may break
    Glass,
    /// x1.5 mult while held
    Steel,
    /// +50 chips, no rank or suit
    Stone,
    /// +$3 at end of round
    Gold,
    /// chance of +20 mult or +$20
    Lucky,
}

impl Enhancement {
    /// Integer id used in observations.
    pub fn to_int(&self) -> (r: u8)
        ensures
            r == enhancement_index(*self),
    {
        match self {
            Enhancement::NoEnhancement => 0,
            Enhancement::Bonus => 1,
            Enhancement::Mult => 2,
            Enhancement::Wild => 3,
            Enhancement::Glass => 4,
            Enhancement::Steel => 5,
            Enhancement::Stone => 6,
            Enhancement::Gold => 7,
            Enhancement::Lucky => 8,
        }
    }

    /// Every real enhancement (all but `NoEnhancement`), in declaration order.
    pub fn all() -> (r: &'static [Enhancement])
        ensures
            r@ == seq![
                Enhancement::Bonus,
                Enhancement::Mult,
                Enhancement::Wild,
                Enhancement::Glass,
                Enhancement::Steel,
                Enhancement::Stone,
                Enhancement::Gold,
                Enhancement::Lucky,
            ],
    {
        let r: &'static [Enhancement] = &[
            Enhancement::Bonus,
            Enhancement::Mult,
            Enhancement::Wild,
            Enhancement::Glass,
            Enhancement::Steel,
            Enhancement::Stone,
            Enhancement::Gold,
            Enhancement::Lucky,
        ];
        r
    }
}

/// Observation index of an enhancement.
pub open spec fn enhancement_index(e: Enhancement) -> int {
    match e {
        Enhancement::NoEnhancement => 0,
        Enhancement::Bonus => 1,
        Enhancement::Mult => 2,
        Enhancement::Wild => 3,
        Enhancement::Glass => 4,
        Enhancement::Steel => 5,
        Enhancement::Stone => 6,
        Enhancement::Gold => 7,
        Enhancement::Lucky => 8,
    }
}

} // verus!

verus! {

/// Card seal.
#[derive(Clone, Copy, Debug, PartialEq, Eq, Structural, Default)]
pub enum Seal {
    #[default]
    NoSeal,
    /// +$3 when played
    Gold,
    /// retriggers once
    Red,
    /// creates a Planet on the last hand
    Blue,
    /// creates a Tarot when discarded
    Purple,
}

impl Seal {
    /// Integer id used in observations.
    pub fn to_int(&self) -> (r: u8)
        ensures
            r == seal_index(*self),
    {
        match self {
            Seal::NoSeal => 0,
            Seal::Gold => 1,
            Seal::Red => 2,
            Seal::Blue => 3,
            Seal::Purple => 4,
        }
    }

    /// Every real seal (all but `NoSeal`), in declaration order.
    pub fn all() -> (r: &'static [Seal])
        ensures
            r@ == seq![Seal::Gold, Seal::Red, Seal::Blue, Seal::Purple],
    {
        let r: &'static [Seal] = &[Seal::Gold, Seal::Red, Seal::Blue, Seal::Purple];
        r
    }
}

/// Observation index of a seal.
pub open spec fn seal_index(s: Seal) -> int {
    match s {
        Seal::NoSeal => 0,
        Seal::Gold => 1,
        Seal::Red => 2,
        Seal::Blue => 3,
        Seal::Purple => 4,
    }
}

/// Card edition.
#[derive(Clone, Copy, Debug, PartialEq, Eq, Structural, Default)]
pub enum Edition {
    #[default]
    Base,
    /// +50 chips
    Foil,
    /// +10 mult
    Holographic,
    /// x1.5 mult
    Polychrome,
    /// +1 joker slot
    Negative,
}

impl Edition {
    /// Integer id used in observations.
    pub fn to_int(&self) -> (r: u8)
        ensures
            r == edition_index(*self),
    {
        match self {
            Edition::Base => 0,
            Edition::Foil => 1,
            Edition::Holographic => 2,
            Edition::Polychrome => 3,
            Edition::Negative => 4,
        }
    }

    /// The editions that appear at random (all but `Base` and `Negative`).
    pub fn all_common() -> (r: &'static [Edition])
        ensures
            r@ == seq![Edition::Foil, Edition::Holographic, Edition::Polychrome],
    {
        let r: &'static [Edition] = &[Edition::Foil, Edition::Holographic, Edition::Polychrome];
        r
    }
}

/// Observation index of an edition.
pub open spec fn edition_index(e: Edition) -> int {
    match e {
        Edition::Base => 0,
        Edition::Foil => 1,
        Edition::Holographic => 2,
        Edition::Polychrome => 3,
        Edition::Negative => 4,
    }
}

/// A playing card. Ranks run 1..=13 with the Ace as 1; suits run 0..=3.
#[derive(Clone, Copy, Debug, PartialEq, Eq, Structural)]
pub struct Card {
    pub rank: u8,
    pub suit: u8,
    pub enhancement: Enhancement,
    pub seal: Seal,
    pub edition: Edition,
    /// Turned face down by some boss blinds.
    pub face_down: bool,
    /// Permanent chip bonus (e.g. from Hiker).
    pub bonus_chips: i64,
}

/// A fresh card: no enhancement, seal, edition or bonus, face up.
pub open spec fn plain_card(rank: u8, suit: u8) -> Card {
    Card {
        rank,
        suit,
        enhancement: Enhancement::NoEnhancement,
        seal: Seal::NoSeal,
        edition: Edition::Base,
        face_down: false,
        bonus_chips: 0,
    }
}

/// Chips printed on a card's rank.
pub open spec fn base_chips_of(rank: u8) -> int {
    if rank == 1 {
        11
    } else if rank == 11 || rank == 12 || rank == 13 {
        10
    } else {
        rank as int
    }
}

/// Total chips of a card: rank, enhancement, edition and permanent bonus.
pub open spec fn card_chips(c: Card) -> int {
    base_chips_of(c.rank) + (match c.enhancement {
        Enhancement::Bonus => 30int,
        Enhancement::Stone => 50int,
        _ => 0int,
    }) + (match c.edition {
        Edition::Foil => 50int,
        _ => 0int,
    }) + c.bonus_chips
}

/// Additive mult of a card: enhancement and edition.
pub open spec fn card_add_mult(c: Card) -> int {
    (match c.enhancement {
        Enhancement::Mult => 4int,
        _ => 0int,
    }) + (match c.edition {
        Edition::Holographic => 10int,
        _ => 0int,
    })
}

/// Jack, Queen or King.
pub open spec fn is_face_rank(rank: u8) -> bool {
    11 <= rank <= 13
}

/// Suit colour group under Smeared: red (1, 2) becomes 1, black (0, 3) becomes 0.
pub open spec fn smeared_suit(suit: u8) -> u8 {
    if suit == 1 || suit == 2 {
        1
    } else if suit == 0 || suit == 3 {
        0
    } else {
        suit
    }
}

/// Index of a card in the 52-card layout (suit-major, Ace first).
pub open spec fn card_index_of(c: Card) -> int {
    c.suit as int * 13 + c.rank as int - 1
}

impl Card {
    pub fn new(rank: u8, suit: u8) -> (c: Card)
        ensures
            c == plain_card(rank, suit),
    {
        Card {
            rank,
            suit,
            enhancement: Enhancement::NoEnhancement,
            seal: Seal::NoSeal,
            edition: Edition::Base,
            face_down: false,
            bonus_chips: 0,
        }
    }

    /// Chips of the rank alone.
    pub fn base_chips(&self) -> (r: i64)
        ensures
            r == base_chips_of(self.rank),
    {
        match self.rank {
            1 => 11,
            11 | 12 | 13 => 10,
            n => n as i64,
        }
    }

    /// Total chips including enhancement, edition and permanent bonus.
    pub fn chips(&self) -> (r: i64)
        requires
            i64::MIN <= card_chips(*self) <= i64::MAX,
        ensures
            r == card_chips(*self),
    {
        let base = self.base_chips();
        let enhancement_bonus: i64 = match self.enhancement {
            Enhancement::Bonus => 30,
            Enhancement::Stone => 50,
            _ => 0,
        };
        let edition_bonus: i64 = match self.edition {
            Edition::Foil => 50,
            _ => 0,
        };
        base + enhancement_bonus + edition_bonus + self.bonus_chips
    }

    /// Additive mult from enhancement and edition.
    pub fn add_mult(&self) -> (r: i64)
        ensures
            r == card_add_mult(*self),
    {
        let enhancement_mult: i64 = match self.enhancement {
            Enhancement::Mult => 4,
            _ => 0,
        };
        let edition_mult: i64 = match self.edition {
            Edition::Holographic => 10,
            _ => 0,
        };
        enhancement_mult + edition_mult
    }

    /// Jack, Queen or King.
    pub fn is_face(&self) -> (r: bool)
        ensures
            r == is_face_rank(self.rank),
    {
        self.rank >= 11 && self.rank <= 13
    }

    /// Face card, where Pareidolia makes every card a face card.
    pub fn is_face_with_pareidolia(&self, pareidolia: bool) -> (r: bool)
        ensures
            r == (pareidolia || is_face_rank(self.rank)),
    {
        if pareidolia {
            true
        } else {
            self.is_face()
        }
    }

    /// Whether the card counts as the given suit (Wild counts as every suit).
    pub fn matches_suit(&self, target_suit: u8) -> (r: bool)
        ensures
            r == (self.enhancement == Enhancement::Wild || self.suit == target_suit),
    {
        if self.enhancement == Enhancement::Wild {
            true
        } else {
            self.suit == target_suit
        }
    }

    /// Stone cards take no part in forming a hand.
    pub fn counts_for_hand(&self) -> (r: bool)
        ensures
            r == (self.enhancement != Enhancement::Stone),
    {
        self.enhancement != Enhancement::Stone
    }

    /// Suit used for scoring; a Stone card has none (255).
    pub fn effective_suit(&self) -> (r: u8)
        ensures
            r == (if self.enhancement == Enhancement::Stone { 255u8 } else { self.suit }),
    {
        if self.enhancement == Enhancement::Stone {
            255
        } else {
            self.suit
        }
    }

    /// Suit under Smeared: hearts and diamonds merge into 1, spades and clubs into 0.
    pub fn effective_suit_smeared(&self) -> (r: u8)
        ensures
            r == smeared_suit(self.suit),
    {
        match self.suit {
            1 | 2 => 1,
            0 | 3 => 0,
            _ => self.suit,
        }
    }
}

/// The standard 52-card deck, suit by suit, Ace to King.
pub fn standard_deck() -> (deck: Vec<Card>)
    ensures
        deck.len() == 52,
        forall|i: int|
            0 <= i < 52 ==> {
                &&& 1 <= #[trigger] deck@[i].rank <= 13
                &&& deck@[i].suit < 4
                &&& deck@[i] == plain_card(deck@[i].rank, deck@[i].suit)
                &&& card_index_of(deck@[i]) == i
            },
{
    let mut deck: Vec<Card> = Vec::with_capacity(52);
    let mut suit: u8 = 0;
    while suit < 4
        invariant
            suit <= 4,
            deck.len() == suit as int * 13,
            forall|i: int|
                0 <= i < deck.len() ==> {
                    &&& 1 <= #[trigger] deck@[i].rank <= 13
                    &&& deck@[i].suit < 4
                    &&& deck@[i] == plain_card(deck@[i].rank, deck@[i].suit)
                    &&& card_index_of(deck@[i]) == i
                },
        decreases 4 - suit,
    {
        let mut rank: u8 = 1;
        while rank <= 13
            invariant
                suit < 4,
                1 <= rank <= 14,
                deck.len() == suit as int * 13 + rank - 1,
                forall|i: int|
                    0 <= i < deck.len() ==> {
                        &&& 1 <= #[trigger] deck@[i].rank <= 13
                        &&& deck@[i].suit < 4
                        &&& deck@[i] == plain_card(deck@[i].rank, deck@[i].suit)
                        &&& card_index_of(deck@[i]) == i
                    },
            decreases 14 - rank,
        {
            deck.push(Card::new(rank, suit));
            rank = rank + 1;
        }
        suit = suit + 1;
    }
    deck
}

/// Index of a card in the 52-card layout.
pub fn card_index(card: Card) -> (r: usize)
    requires
        card.rank >= 1,
    ensures
        r == card_index_of(card),
{
    (card.suit as usize * 13) + (card.rank as usize - 1)
}

} // verus!
