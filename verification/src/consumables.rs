//! Consumables (tarot, planet and spectral cards), consumable slots and hand levels.

use vstd::prelude::*;

use rand::rngs::StdRng;

use crate::rng::choose_from;
use crate::hand_types::{hand_index, HandId};

verus! {

/// Consumable slots.
pub const CONSUMABLE_SLOTS: usize = 2;
/// Tarot cards.
pub const TAROT_COUNT: usize = 22;
/// Planet cards.
pub const PLANET_COUNT: usize = 12;
/// Spectral cards.
pub const SPECTRAL_COUNT: usize = 18;
/// Consumables in all.
pub const CONSUMABLE_COUNT: usize = 52;

/// Kind of consumable.
#[derive(Clone, Copy, Debug, PartialEq, Eq, Structural)]
pub enum ConsumableType {
    Tarot,
    Planet,
    Spectral,
}

/// Tarot card: changes cards in hand.
#[derive(Clone, Copy, Debug, PartialEq, Eq, Structural, Hash)]
pub enum TarotId {
    TheFool,
    TheMagician,
    TheHighPriestess,
    TheEmpress,
    TheEmperor,
    TheHierophant,
    TheLovers,
    TheChariot,
    Justice,
    TheHermit,
    TheWheelOfFortune,
    Strength,
    TheHangedMan,
    Death,
    Temperance,
    TheDevil,
    TheTower,
    TheStar,
    TheMoon,
    TheSun,
    Judgement,
    TheWorld,
}

/// Position of a tarot card in `TarotId::all`.
pub open spec fn tarot_index(c: TarotId) -> int {
    match c {
        TarotId::TheFool => 0,
        TarotId::TheMagician => 1,
        TarotId::TheHighPriestess => 2,
        TarotId::TheEmpress => 3,
        TarotId::TheEmperor => 4,
        TarotId::TheHierophant => 5,
        TarotId::TheLovers => 6,
        TarotId::TheChariot => 7,
        TarotId::Justice => 8,
        TarotId::TheHermit => 9,
        TarotId::TheWheelOfFortune => 10,
        TarotId::Strength => 11,
        TarotId::TheHangedMan => 12,
        TarotId::Death => 13,
        TarotId::Temperance => 14,
        TarotId::TheDevil => 15,
        TarotId::TheTower => 16,
        TarotId::TheStar => 17,
        TarotId::TheMoon => 18,
        TarotId::TheSun => 19,
        TarotId::Judgement => 20,
        TarotId::TheWorld => 21,
    }
}

/// Display name of a tarot card.
pub open spec fn tarot_name(c: TarotId) -> &'static str {
    match c {
        TarotId::TheFool => "The Fool",
        TarotId::TheMagician => "The Magician",
        TarotId::TheHighPriestess => "The High Priestess",
        TarotId::TheEmpress => "The Empress",
        TarotId::TheEmperor => "The Emperor",
        TarotId::TheHierophant => "The Hierophant",
        TarotId::TheLovers => "The Lovers",
        TarotId::TheChariot => "The Chariot",
        TarotId::Justice => "Justice",
        TarotId::TheHermit => "The Hermit",
        TarotId::TheWheelOfFortune => "The Wheel of Fortune",
        TarotId::Strength => "Strength",
        TarotId::TheHangedMan => "The Hanged Man",
        TarotId::Death => "Death",
        TarotId::Temperance => "Temperance",
        TarotId::TheDevil => "The Devil",
        TarotId::TheTower => "The Tower",
        TarotId::TheStar => "The Star",
        TarotId::TheMoon => "The Moon",
        TarotId::TheSun => "The Sun",
        TarotId::Judgement => "Judgement",
        TarotId::TheWorld => "The World",
    }
}

/// Cards a tarot card asks to select, as (least, most).
pub open spec fn tarot_selection(c: TarotId) -> (int, int) {
    match c {
        TarotId::TheMagician | TarotId::TheEmpress | TarotId::TheHierophant | TarotId::TheLovers | TarotId::TheChariot | TarotId::Justice | TarotId::TheDevil | TarotId::TheTower | TarotId::TheStar | TarotId::TheMoon | TarotId::TheSun | TarotId::TheWorld => (1, 3),
        TarotId::Strength | TarotId::TheHangedMan => (1, 2),
        TarotId::Death => (2, 2),
        _ => (0, 0),
    }
}


impl TarotId {
    /// Every tarot card, in index order.
    pub fn all() -> (r: &'static [TarotId])
        ensures
            r@.len() == 22,
            forall|i: int| 0 <= i < 22 ==> tarot_index(#[trigger] r@[i]) == i,
    {
        let r: &'static [TarotId] = &[
            TarotId::TheFool,
            TarotId::TheMagician,
            TarotId::TheHighPriestess,
            TarotId::TheEmpress,
            TarotId::TheEmperor,
            TarotId::TheHierophant,
            TarotId::TheLovers,
            TarotId::TheChariot,
            TarotId::Justice,
            TarotId::TheHermit,
            TarotId::TheWheelOfFortune,
            TarotId::Strength,
            TarotId::TheHangedMan,
            TarotId::Death,
            TarotId::Temperance,
            TarotId::TheDevil,
            TarotId::TheTower,
            TarotId::TheStar,
            TarotId::TheMoon,
            TarotId::TheSun,
            TarotId::Judgement,
            TarotId::TheWorld,
        ];
        r
    }

    pub fn name(&self) -> (r: &'static str)
        ensures
            r == tarot_name(*self),
    {
        match self {
            TarotId::TheFool => "The Fool",
            TarotId::TheMagician => "The Magician",
            TarotId::TheHighPriestess => "The High Priestess",
            TarotId::TheEmpress => "The Empress",
            TarotId::TheEmperor => "The Emperor",
            TarotId::TheHierophant => "The Hierophant",
            TarotId::TheLovers => "The Lovers",
            TarotId::TheChariot => "The Chariot",
            TarotId::Justice => "Justice",
            TarotId::TheHermit => "The Hermit",
            TarotId::TheWheelOfFortune => "The Wheel of Fortune",
            TarotId::Strength => "Strength",
            TarotId::TheHangedMan => "The Hanged Man",
            TarotId::Death => "Death",
            TarotId::Temperance => "Temperance",
            TarotId::TheDevil => "The Devil",
            TarotId::TheTower => "The Tower",
            TarotId::TheStar => "The Star",
            TarotId::TheMoon => "The Moon",
            TarotId::TheSun => "The Sun",
            TarotId::Judgement => "Judgement",
            TarotId::TheWorld => "The World",
        }
    }

    /// Cards to select when using it, as (least, most).
    pub fn selection_count(&self) -> (r: (usize, usize))
        ensures
            r.0 == tarot_selection(*self).0,
            r.1 == tarot_selection(*self).1,
    {
        match self {
            TarotId::TheMagician | TarotId::TheEmpress | TarotId::TheHierophant | TarotId::TheLovers | TarotId::TheChariot | TarotId::Justice | TarotId::TheDevil | TarotId::TheTower | TarotId::TheStar | TarotId::TheMoon | TarotId::TheSun | TarotId::TheWorld => (1, 3),
            TarotId::Strength | TarotId::TheHangedMan => (1, 2),
            TarotId::Death => (2, 2),
            _ => (0, 0),
        }
    }

    pub fn to_index(&self) -> (r: usize)
        ensures
            r == tarot_index(*self),
    {
        match self {
            TarotId::TheFool => 0,
            TarotId::TheMagician => 1,
            TarotId::TheHighPriestess => 2,
            TarotId::TheEmpress => 3,
            TarotId::TheEmperor => 4,
            TarotId::TheHierophant => 5,
            TarotId::TheLovers => 6,
            TarotId::TheChariot => 7,
            TarotId::Justice => 8,
            TarotId::TheHermit => 9,
            TarotId::TheWheelOfFortune => 10,
            TarotId::Strength => 11,
            TarotId::TheHangedMan => 12,
            TarotId::Death => 13,
            TarotId::Temperance => 14,
            TarotId::TheDevil => 15,
            TarotId::TheTower => 16,
            TarotId::TheStar => 17,
            TarotId::TheMoon => 18,
            TarotId::TheSun => 19,
            TarotId::Judgement => 20,
            TarotId::TheWorld => 21,
        }
    }

    /// The card at a position, if the position is in range.
    pub fn from_index(index: usize) -> (r: Option<TarotId>)
        ensures
            index < 22 ==> r is Some && tarot_index(r.unwrap()) == index,
            index >= 22 ==> r is None,
    {
        let all = Self::all();
        if index < all.len() {
            Some(all[index])
        } else {
            None
        }
    }

    /// A random card, each equally likely.
    pub fn random(rng: &mut StdRng) -> (r: TarotId)
        ensures
            0 <= tarot_index(r) < 22,
    {
        match choose_from(rng, Self::all()) {
            Some(c) => c,
            None => TarotId::TheFool,
        }
    }


}

/// Positions identify tarot cards.
pub proof fn lemma_tarot_index_injective(a: TarotId, b: TarotId)
    requires
        tarot_index(a) == tarot_index(b),
    ensures
        a == b,
{
}

/// Planet card: levels up one hand type.
#[derive(Clone, Copy, Debug, PartialEq, Eq, Structural, Hash)]
pub enum PlanetId {
    Mercury,
    Venus,
    Earth,
    Mars,
    Jupiter,
    Saturn,
    Uranus,
    Neptune,
    Pluto,
    PlanetX,
    Ceres,
    Eris,
}

/// Position of a planet card in `PlanetId::all`.
pub open spec fn planet_index(c: PlanetId) -> int {
    match c {
        PlanetId::Mercury => 0,
        PlanetId::Venus => 1,
        PlanetId::Earth => 2,
        PlanetId::Mars => 3,
        PlanetId::Jupiter => 4,
        PlanetId::Saturn => 5,
        PlanetId::Uranus => 6,
        PlanetId::Neptune => 7,
        PlanetId::Pluto => 8,
        PlanetId::PlanetX => 9,
        PlanetId::Ceres => 10,
        PlanetId::Eris => 11,
    }
}

/// Display name of a planet card.
pub open spec fn planet_name(c: PlanetId) -> &'static str {
    match c {
        PlanetId::Mercury => "Mercury",
        PlanetId::Venus => "Venus",
        PlanetId::Earth => "Earth",
        PlanetId::Mars => "Mars",
        PlanetId::Jupiter => "Jupiter",
        PlanetId::Saturn => "Saturn",
        PlanetId::Uranus => "Uranus",
        PlanetId::Neptune => "Neptune",
        PlanetId::Pluto => "Pluto",
        PlanetId::PlanetX => "Planet X",
        PlanetId::Ceres => "Ceres",
        PlanetId::Eris => "Eris",
    }
}

/// The hand type a planet card names: Pluto High Card, Mercury Pair, Uranus Two Pair, Venus
/// Three of a Kind, Saturn Straight, Jupiter Flush, Earth Full House, Mars Four of a Kind,
/// Neptune Straight Flush, Planet X Five of a Kind, Ceres Flush House, Eris Flush Five.
pub open spec fn planet_hand(c: PlanetId) -> HandId {
    match c {
        PlanetId::Pluto => HandId::HighCard,
        PlanetId::Mercury => HandId::Pair,
        PlanetId::Uranus => HandId::TwoPair,
        PlanetId::Venus => HandId::ThreeKind,
        PlanetId::Saturn => HandId::Straight,
        PlanetId::Jupiter => HandId::Flush,
        PlanetId::Earth => HandId::FullHouse,
        PlanetId::Mars => HandId::FourKind,
        PlanetId::Neptune => HandId::StraightFlush,
        PlanetId::PlanetX => HandId::FiveKind,
        PlanetId::Ceres => HandId::FlushHouse,
        PlanetId::Eris => HandId::FlushFive,
    }
}

/// The level slot of a hand type: its index in declaration order, except that a Royal
/// Flush is a Straight Flush and has no slot of its own, so the hands after it move down one.
pub open spec fn level_slot(h: HandId) -> int {
    if hand_index(h) <= hand_index(HandId::StraightFlush) {
        hand_index(h)
    } else {
        hand_index(h) - 1
    }
}

/// Each planet raises the level slot of the hand type it names, every planet has its own
/// slot among the twelve, and no planet names a Royal Flush.
pub proof fn lemma_planet_raises_its_hand(p: PlanetId, q: PlanetId)
    ensures
        planet_hand_type(p) == level_slot(planet_hand(p)),
        planet_hand(p) != HandId::RoyalFlush,
        0 <= planet_hand_type(p) < 12,
        p != q ==> planet_hand_type(p) != planet_hand_type(q),
{
}

/// Hand-level slot a planet card upgrades.
pub open spec fn planet_hand_type(c: PlanetId) -> int {
    match c {
        PlanetId::Mercury => 1,
        PlanetId::Venus => 3,
        PlanetId::Earth => 6,
        PlanetId::Mars => 7,
        PlanetId::Jupiter => 5,
        PlanetId::Saturn => 4,
        PlanetId::Uranus => 2,
        PlanetId::Neptune => 8,
        PlanetId::Pluto => 0,
        PlanetId::PlanetX => 9,
        PlanetId::Ceres => 10,
        PlanetId::Eris => 11,
    }
}

impl PlanetId {
    /// Every planet card, in index order.
    pub fn all() -> (r: &'static [PlanetId])
        ensures
            r@.len() == 12,
            forall|i: int| 0 <= i < 12 ==> planet_index(#[trigger] r@[i]) == i,
    {
        let r: &'static [PlanetId] = &[
            PlanetId::Mercury,
            PlanetId::Venus,
            PlanetId::Earth,
            PlanetId::Mars,
            PlanetId::Jupiter,
            PlanetId::Saturn,
            PlanetId::Uranus,
            PlanetId::Neptune,
            PlanetId::Pluto,
            PlanetId::PlanetX,
            PlanetId::Ceres,
            PlanetId::Eris,
        ];
        r
    }

    pub fn name(&self) -> (r: &'static str)
        ensures
            r == planet_name(*self),
    {
        match self {
            PlanetId::Mercury => "Mercury",
            PlanetId::Venus => "Venus",
            PlanetId::Earth => "Earth",
            PlanetId::Mars => "Mars",
            PlanetId::Jupiter => "Jupiter",
            PlanetId::Saturn => "Saturn",
            PlanetId::Uranus => "Uranus",
            PlanetId::Neptune => "Neptune",
            PlanetId::Pluto => "Pluto",
            PlanetId::PlanetX => "Planet X",
            PlanetId::Ceres => "Ceres",
            PlanetId::Eris => "Eris",
        }
    }

    pub fn to_index(&self) -> (r: usize)
        ensures
            r == planet_index(*self),
    {
        match self {
            PlanetId::Mercury => 0,
            PlanetId::Venus => 1,
            PlanetId::Earth => 2,
            PlanetId::Mars => 3,
            PlanetId::Jupiter => 4,
            PlanetId::Saturn => 5,
            PlanetId::Uranus => 6,
            PlanetId::Neptune => 7,
            PlanetId::Pluto => 8,
            PlanetId::PlanetX => 9,
            PlanetId::Ceres => 10,
            PlanetId::Eris => 11,
        }
    }

    /// The card at a position, if the position is in range.
    pub fn from_index(index: usize) -> (r: Option<PlanetId>)
        ensures
            index < 12 ==> r is Some && planet_index(r.unwrap()) == index,
            index >= 12 ==> r is None,
    {
        let all = Self::all();
        if index < all.len() {
            Some(all[index])
        } else {
            None
        }
    }

    /// A random card, each equally likely.
    pub fn random(rng: &mut StdRng) -> (r: PlanetId)
        ensures
            0 <= planet_index(r) < 12,
    {
        match choose_from(rng, Self::all()) {
            Some(c) => c,
            None => PlanetId::Mercury,
        }
    }

    /// Hand-level slot this planet upgrades: the slot of the hand type it names.
    pub fn hand_type_index(&self) -> (r: usize)
        ensures
            r == planet_hand_type(*self),
            r == level_slot(planet_hand(*self)),
    {
        match self {
            PlanetId::Mercury => 1,
            PlanetId::Venus => 3,
            PlanetId::Earth => 6,
            PlanetId::Mars => 7,
            PlanetId::Jupiter => 5,
            PlanetId::Saturn => 4,
            PlanetId::Uranus => 2,
            PlanetId::Neptune => 8,
            PlanetId::Pluto => 0,
            PlanetId::PlanetX => 9,
            PlanetId::Ceres => 10,
            PlanetId::Eris => 11,
        }
    }

    /// The planet that upgrades a hand-level slot, if any.
    pub fn from_hand_type_index(idx: usize) -> (r: Option<PlanetId>)
        ensures
            r matches Some(p) ==> planet_hand_type(p) == idx,
            r is None ==> forall|p: PlanetId| planet_hand_type(p) != idx,
    {
        let all = Self::all();
        let mut i: usize = 0;
        while i < all.len()
            invariant
                i <= all.len(),
                all@.len() == 12,
                forall|k: int| 0 <= k < 12 ==> planet_index(#[trigger] all@[k]) == k,
                forall|k: int| 0 <= k < i ==> planet_hand_type(#[trigger] all@[k]) != idx,
            decreases all.len() - i,
        {
            if all[i].hand_type_index() == idx {
                return Some(all[i]);
            }
            i = i + 1;
        }
        proof {
            assert forall|p: PlanetId| planet_hand_type(p) != idx by {
                lemma_planet_index_injective(all@[planet_index(p)], p);
            }
        }
        None
    }

}

/// Positions identify planet cards.
pub proof fn lemma_planet_index_injective(a: PlanetId, b: PlanetId)
    requires
        planet_index(a) == planet_index(b),
    ensures
        a == b,
{
}

/// Spectral card: strong, often risky effects.
#[derive(Clone, Copy, Debug, PartialEq, Eq, Structural, Hash)]
pub enum SpectralId {
    Familiar,
    Grim,
    Incantation,
    Talisman,
    Aura,
    Wraith,
    Sigil,
    Ouija,
    Ectoplasm,
    Immolate,
    Ankh,
    DejaVu,
    Hex,
    Trance,
    Medium,
    Cryptid,
    TheSoul,
    BlackHole,
}

/// Position of a spectral card in `SpectralId::all`.
pub open spec fn spectral_index(c: SpectralId) -> int {
    match c {
        SpectralId::Familiar => 0,
        SpectralId::Grim => 1,
        SpectralId::Incantation => 2,
        SpectralId::Talisman => 3,
        SpectralId::Aura => 4,
        SpectralId::Wraith => 5,
        SpectralId::Sigil => 6,
        SpectralId::Ouija => 7,
        SpectralId::Ectoplasm => 8,
        SpectralId::Immolate => 9,
        SpectralId::Ankh => 10,
        SpectralId::DejaVu => 11,
        SpectralId::Hex => 12,
        SpectralId::Trance => 13,
        SpectralId::Medium => 14,
        SpectralId::Cryptid => 15,
        SpectralId::TheSoul => 16,
        SpectralId::BlackHole => 17,
    }
}

/// Display name of a spectral card.
pub open spec fn spectral_name(c: SpectralId) -> &'static str {
    match c {
        SpectralId::Familiar => "Familiar",
        SpectralId::Grim => "Grim",
        SpectralId::Incantation => "Incantation",
        SpectralId::Talisman => "Talisman",
        SpectralId::Aura => "Aura",
        SpectralId::Wraith => "Wraith",
        SpectralId::Sigil => "Sigil",
        SpectralId::Ouija => "Ouija",
        SpectralId::Ectoplasm => "Ectoplasm",
        SpectralId::Immolate => "Immolate",
        SpectralId::Ankh => "Ankh",
        SpectralId::DejaVu => "Deja Vu",
        SpectralId::Hex => "Hex",
        SpectralId::Trance => "Trance",
        SpectralId::Medium => "Medium",
        SpectralId::Cryptid => "Cryptid",
        SpectralId::TheSoul => "The Soul",
        SpectralId::BlackHole => "Black Hole",
    }
}

/// Cards a spectral card asks to select, as (least, most).
pub open spec fn spectral_selection(c: SpectralId) -> (int, int) {
    match c {
        SpectralId::Familiar | SpectralId::Grim | SpectralId::Incantation | SpectralId::Talisman | SpectralId::Aura | SpectralId::DejaVu | SpectralId::Trance | SpectralId::Medium | SpectralId::Cryptid => (1, 1),
        _ => (0, 0),
    }
}


impl SpectralId {
    /// Every spectral card, in index order.
    pub fn all() -> (r: &'static [SpectralId])
        ensures
            r@.len() == 18,
            forall|i: int| 0 <= i < 18 ==> spectral_index(#[trigger] r@[i]) == i,
    {
        let r: &'static [SpectralId] = &[
            SpectralId::Familiar,
            SpectralId::Grim,
            SpectralId::Incantation,
            SpectralId::Talisman,
            SpectralId::Aura,
            SpectralId::Wraith,
            SpectralId::Sigil,
            SpectralId::Ouija,
            SpectralId::Ectoplasm,
            SpectralId::Immolate,
            SpectralId::Ankh,
            SpectralId::DejaVu,
            SpectralId::Hex,
            SpectralId::Trance,
            SpectralId::Medium,
            SpectralId::Cryptid,
            SpectralId::TheSoul,
            SpectralId::BlackHole,
        ];
        r
    }

    pub fn name(&self) -> (r: &'static str)
        ensures
            r == spectral_name(*self),
    {
        match self {
            SpectralId::Familiar => "Familiar",
            SpectralId::Grim => "Grim",
            SpectralId::Incantation => "Incantation",
            SpectralId::Talisman => "Talisman",
            SpectralId::Aura => "Aura",
            SpectralId::Wraith => "Wraith",
            SpectralId::Sigil => "Sigil",
            SpectralId::Ouija => "Ouija",
            SpectralId::Ectoplasm => "Ectoplasm",
            SpectralId::Immolate => "Immolate",
            SpectralId::Ankh => "Ankh",
            SpectralId::DejaVu => "Deja Vu",
            SpectralId::Hex => "Hex",
            SpectralId::Trance => "Trance",
            SpectralId::Medium => "Medium",
            SpectralId::Cryptid => "Cryptid",
            SpectralId::TheSoul => "The Soul",
            SpectralId::BlackHole => "Black Hole",
        }
    }

    /// Cards to select when using it, as (least, most).
    pub fn selection_count(&self) -> (r: (usize, usize))
        ensures
            r.0 == spectral_selection(*self).0,
            r.1 == spectral_selection(*self).1,
    {
        match self {
            SpectralId::Familiar | SpectralId::Grim | SpectralId::Incantation | SpectralId::Talisman | SpectralId::Aura | SpectralId::DejaVu | SpectralId::Trance | SpectralId::Medium | SpectralId::Cryptid => (1, 1),
            _ => (0, 0),
        }
    }

    pub fn to_index(&self) -> (r: usize)
        ensures
            r == spectral_index(*self),
    {
        match self {
            SpectralId::Familiar => 0,
            SpectralId::Grim => 1,
            SpectralId::Incantation => 2,
            SpectralId::Talisman => 3,
            SpectralId::Aura => 4,
            SpectralId::Wraith => 5,
            SpectralId::Sigil => 6,
            SpectralId::Ouija => 7,
            SpectralId::Ectoplasm => 8,
            SpectralId::Immolate => 9,
            SpectralId::Ankh => 10,
            SpectralId::DejaVu => 11,
            SpectralId::Hex => 12,
            SpectralId::Trance => 13,
            SpectralId::Medium => 14,
            SpectralId::Cryptid => 15,
            SpectralId::TheSoul => 16,
            SpectralId::BlackHole => 17,
        }
    }

    /// The card at a position, if the position is in range.
    pub fn from_index(index: usize) -> (r: Option<SpectralId>)
        ensures
            index < 18 ==> r is Some && spectral_index(r.unwrap()) == index,
            index >= 18 ==> r is None,
    {
        let all = Self::all();
        if index < all.len() {
            Some(all[index])
        } else {
            None
        }
    }

    /// A random card, each equally likely.
    pub fn random(rng: &mut StdRng) -> (r: SpectralId)
        ensures
            0 <= spectral_index(r) < 18,
    {
        match choose_from(rng, Self::all()) {
            Some(c) => c,
            None => SpectralId::Familiar,
        }
    }


}

/// Positions identify spectral cards.
pub proof fn lemma_spectral_index_injective(a: SpectralId, b: SpectralId)
    requires
        spectral_index(a) == spectral_index(b),
    ensures
        a == b,
{
}

/// A consumable card.
#[derive(Clone, Copy, Debug, PartialEq, Eq, Structural)]
pub enum Consumable {
    Tarot(TarotId),
    Planet(PlanetId),
    Spectral(SpectralId),
}

/// Position of a consumable among all 52: tarots, then planets, then spectrals.
pub open spec fn consumable_global_index(c: Consumable) -> int {
    match c {
        Consumable::Tarot(t) => tarot_index(t),
        Consumable::Planet(p) => TAROT_COUNT + planet_index(p),
        Consumable::Spectral(s) => TAROT_COUNT + PLANET_COUNT + spectral_index(s),
    }
}

impl Consumable {
    pub fn consumable_type(&self) -> (r: ConsumableType)
        ensures
            r == (match *self {
                Consumable::Tarot(_) => ConsumableType::Tarot,
                Consumable::Planet(_) => ConsumableType::Planet,
                Consumable::Spectral(_) => ConsumableType::Spectral,
            }),
    {
        match self {
            Consumable::Tarot(_) => ConsumableType::Tarot,
            Consumable::Planet(_) => ConsumableType::Planet,
            Consumable::Spectral(_) => ConsumableType::Spectral,
        }
    }

    pub fn name(&self) -> (r: &'static str)
        ensures
            r == (match *self {
                Consumable::Tarot(t) => tarot_name(t),
                Consumable::Planet(p) => planet_name(p),
                Consumable::Spectral(s) => spectral_name(s),
            }),
    {
        match self {
            Consumable::Tarot(id) => id.name(),
            Consumable::Planet(id) => id.name(),
            Consumable::Spectral(id) => id.name(),
        }
    }

    /// Shop price: $3 for tarot and planet cards, $4 for spectral ones.
    pub fn cost(&self) -> (r: i64)
        ensures
            r == (match *self {
                Consumable::Spectral(_) => 4int,
                _ => 3int,
            }),
    {
        match self {
            Consumable::Tarot(_) => 3,
            Consumable::Planet(_) => 3,
            Consumable::Spectral(_) => 4,
        }
    }

    /// Cards to select when using it, as (least, most); planets need none.
    pub fn selection_count(&self) -> (r: (usize, usize))
        ensures
            (r.0 as int, r.1 as int) == (match *self {
                Consumable::Tarot(t) => tarot_selection(t),
                Consumable::Planet(_) => (0int, 0int),
                Consumable::Spectral(s) => spectral_selection(s),
            }),
    {
        match self {
            Consumable::Tarot(id) => id.selection_count(),
            Consumable::Planet(_) => (0, 0),
            Consumable::Spectral(id) => id.selection_count(),
        }
    }

    /// Position among all 52 consumables.
    pub fn to_global_index(&self) -> (r: usize)
        ensures
            r == consumable_global_index(*self),
    {
        match self {
            Consumable::Tarot(id) => id.to_index(),
            Consumable::Planet(id) => TAROT_COUNT + id.to_index(),
            Consumable::Spectral(id) => TAROT_COUNT + PLANET_COUNT + id.to_index(),
        }
    }

    /// The consumable at a global position, if the position is below `CONSUMABLE_COUNT`.
    pub fn from_global_index(index: usize) -> (r: Option<Consumable>)
        ensures
            index < CONSUMABLE_COUNT ==> r is Some && consumable_global_index(r.unwrap()) == index,
            index >= CONSUMABLE_COUNT ==> r is None,
    {
        if index < TAROT_COUNT {
            match TarotId::from_index(index) {
                Some(t) => Some(Consumable::Tarot(t)),
                None => None,
            }
        } else if index < TAROT_COUNT + PLANET_COUNT {
            match PlanetId::from_index(index - TAROT_COUNT) {
                Some(p) => Some(Consumable::Planet(p)),
                None => None,
            }
        } else if index < CONSUMABLE_COUNT {
            match SpectralId::from_index(index - TAROT_COUNT - PLANET_COUNT) {
                Some(s) => Some(Consumable::Spectral(s)),
                None => None,
            }
        } else {
            None
        }
    }

    /// A random tarot card.
    pub fn random_tarot(rng: &mut StdRng) -> (r: Consumable)
        ensures
            r is Tarot,
    {
        Consumable::Tarot(TarotId::random(rng))
    }

    /// A random planet card.
    pub fn random_planet(rng: &mut StdRng) -> (r: Consumable)
        ensures
            r is Planet,
    {
        Consumable::Planet(PlanetId::random(rng))
    }

    /// A random spectral card.
    pub fn random_spectral(rng: &mut StdRng) -> (r: Consumable)
        ensures
            r is Spectral,
    {
        Consumable::Spectral(SpectralId::random(rng))
    }
}

/// Global positions identify consumables: distinct consumables have distinct positions,
/// and every position below 52 is taken.
pub proof fn lemma_consumable_global_index_injective(a: Consumable, b: Consumable)
    requires
        consumable_global_index(a) == consumable_global_index(b),
    ensures
        a == b,
{
    match (a, b) {
        (Consumable::Tarot(x), Consumable::Tarot(y)) => lemma_tarot_index_injective(x, y),
        (Consumable::Planet(x), Consumable::Planet(y)) => lemma_planet_index_injective(x, y),
        (Consumable::Spectral(x), Consumable::Spectral(y)) => lemma_spectral_index_injective(x, y),
        _ => {},
    }
}

/// Consumables held by the player, up to a capacity.
#[derive(Clone, Debug, Default)]
pub struct ConsumableSlots {
    pub items: Vec<Consumable>,
    pub capacity: usize,
}

impl ConsumableSlots {
    /// No consumables, `CONSUMABLE_SLOTS` slots.
    pub fn new() -> (r: ConsumableSlots)
        ensures
            r.items@.len() == 0,
            r.capacity == CONSUMABLE_SLOTS,
    {
        ConsumableSlots { items: Vec::new(), capacity: CONSUMABLE_SLOTS }
    }

    /// Adds a consumable if a slot is free; tells whether it was added.
    pub fn add(&mut self, consumable: Consumable) -> (r: bool)
        ensures
            final(self).capacity == old(self).capacity,
            r == (old(self).items@.len() < old(self).capacity),
            r ==> final(self).items@ == old(self).items@.push(consumable),
            !r ==> final(self).items@ == old(self).items@,
            old(self).items@.len() <= old(self).capacity ==> final(self).items@.len() <= final(self).capacity,
    {
        if self.items.len() < self.capacity {
            self.items.push(consumable);
            true
        } else {
            false
        }
    }

    /// Takes out the consumable at `index`, if there is one.
    pub fn use_item(&mut self, index: usize) -> (r: Option<Consumable>)
        ensures
            final(self).capacity == old(self).capacity,
            index < old(self).items@.len() ==> r == Some(old(self).items@[index as int])
                && final(self).items@ == old(self).items@.remove(index as int),
            index >= old(self).items@.len() ==> r is None && final(self).items@ == old(self).items@,
    {
        if index < self.items.len() {
            Some(self.items.remove(index))
        } else {
            None
        }
    }

    /// Whether every slot is taken.
    pub fn is_full(&self) -> (r: bool)
        ensures
            r == (self.items@.len() >= self.capacity),
    {
        self.items.len() >= self.capacity
    }

    /// Free slots.
    pub fn remaining(&self) -> (r: usize)
        requires
            self.items@.len() <= self.capacity,
        ensures
            r == self.capacity - self.items@.len(),
    {
        self.capacity - self.items.len()
    }
}

/// Number of hand-level slots.
pub const HAND_LEVEL_SLOTS: usize = 12;

/// Level of each hand type; every level starts at 1.
#[derive(Clone, Debug)]
pub struct HandLevels {
    levels: [u32; 12],
}

impl View for HandLevels {
    type V = Seq<u32>;

    closed spec fn view(&self) -> Seq<u32> {
        self.levels@
    }
}

/// Level of slot `h`; slots out of range read as level 1.
pub open spec fn level_of(levels: Seq<u32>, h: int) -> int {
    if 0 <= h < levels.len() {
        levels[h] as int
    } else {
        1
    }
}

/// A level lowered by one, but not below 1.
pub open spec fn lowered(level: u32) -> u32 {
    if level > 1 {
        (level - 1) as u32
    } else {
        1u32
    }
}

impl HandLevels {
    /// There are always twelve slots.
    pub proof fn lemma_slot_count(&self)
        ensures
            self@.len() == HAND_LEVEL_SLOTS,
    {
        assert(self@ == self.levels@);
    }

    /// Twelve slots, each at level 1.
    pub fn new() -> (r: HandLevels)
        ensures
            r@.len() == HAND_LEVEL_SLOTS,
            forall|h: int| 0 <= h < HAND_LEVEL_SLOTS ==> #[trigger] r@[h] == 1,
    {
        let r = HandLevels { levels: [1u32; 12] };
        proof {
            assert(r@ == r.levels@);
        }
        r
    }

    /// Level of a hand type (1 for a slot out of range).
    pub fn get(&self, hand_type: usize) -> (r: u32)
        ensures
            r == level_of(self@, hand_type as int),
    {
        proof {
            assert(self@ == self.levels@);
        }
        if hand_type < 12 {
            self.levels[hand_type]
        } else {
            1
        }
    }

    /// Raises one level by 1 (slots out of range are ignored).
    pub fn upgrade(&mut self, hand_type: usize)
        requires
            hand_type < HAND_LEVEL_SLOTS ==> old(self)@[hand_type as int] < u32::MAX,
        ensures
            final(self)@ == if hand_type < HAND_LEVEL_SLOTS {
                old(self)@.update(hand_type as int, (old(self)@[hand_type as int] + 1) as u32)
            } else {
                old(self)@
            },
    {
        proof {
            assert(old(self)@ == old(self).levels@);
        }
        if hand_type < 12 {
            self.levels[hand_type] = self.levels[hand_type] + 1;
        }
        proof {
            assert(final(self)@ == final(self).levels@);
        }
    }

    /// Raises every level by 1 (Black Hole).
    pub fn upgrade_all(&mut self)
        requires
            forall|h: int| 0 <= h < old(self)@.len() ==> #[trigger] old(self)@[h] < u32::MAX,
        ensures
            final(self)@.len() == old(self)@.len(),
            forall|h: int| 0 <= h < old(self)@.len() ==> #[trigger] final(self)@[h] == old(self)@[h] + 1,
    {
        proof {
            assert(old(self)@ == old(self).levels@);
        }
        let mut i: usize = 0;
        while i < 12
            invariant
                i <= 12,
                self.levels@.len() == 12,
                old(self).levels@.len() == 12,
                forall|h: int| 0 <= h < 12 ==> #[trigger] old(self).levels@[h] < u32::MAX,
                forall|h: int| 0 <= h < i ==> #[trigger] self.levels@[h] == old(self).levels@[h] + 1,
                forall|h: int| i <= h < 12 ==> #[trigger] self.levels@[h] == old(self).levels@[h],
            decreases 12 - i,
        {
            self.levels[i] = self.levels[i] + 1;
            i = i + 1;
        }
        proof {
            assert(final(self)@ == final(self).levels@);
        }
    }

    /// Lowers one level by 1, never below 1 (The Arm); slots out of range are ignored.
    pub fn downgrade(&mut self, hand_type: usize)
        ensures
            final(self)@ == if hand_type < HAND_LEVEL_SLOTS {
                old(self)@.update(hand_type as int, lowered(old(self)@[hand_type as int]))
            } else {
                old(self)@
            },
    {
        proof {
            assert(old(self)@ == old(self).levels@);
        }
        if hand_type < 12 {
            let level = self.levels[hand_type];
            self.levels[hand_type] = if level > 1 { level - 1 } else { 1 };
        }
        proof {
            assert(final(self)@ == final(self).levels@);
        }
    }

    /// Bonus of a hand type's level: +10 chips and +1 mult per level above 1.
    pub fn bonus(&self, hand_type: usize) -> (r: (i64, i64))
        ensures
            r.0 == 10 * (if level_of(self@, hand_type as int) > 1 { level_of(self@, hand_type as int) - 1 } else { 0 }),
            r.1 == (if level_of(self@, hand_type as int) > 1 { level_of(self@, hand_type as int) - 1 } else { 0 }),
    {
        let level = self.get(hand_type);
        let extra: i64 = if level > 1 { (level - 1) as i64 } else { 0 };
        (extra * 10, extra)
    }
}

/// Levels never drop below 1: every operation keeps all levels at least 1.
pub proof fn lemma_levels_stay_positive(before: Seq<u32>, h: int)
    requires
        forall|k: int| 0 <= k < before.len() ==> #[trigger] before[k] >= 1,
        0 <= h < before.len(),
        before[h] < u32::MAX,
    ensures
        forall|k: int| 0 <= k < before.len() ==> #[trigger] before.update(h, (before[h] + 1) as u32)[k] >= 1,
        forall|k: int| 0 <= k < before.len() ==> #[trigger] before.update(h, lowered(before[h]))[k] >= 1,
{
}

/// A downgrade undoes an upgrade: upgrading a slot and then downgrading it restores the levels.
pub proof fn lemma_downgrade_undoes_upgrade(before: Seq<u32>, h: int)
    requires
        0 <= h < before.len(),
        1 <= before[h] < u32::MAX,
    ensures
        ({
            let up = before.update(h, (before[h] + 1) as u32);
            up.update(h, lowered(up[h]))
        }) =~= before,
{
}

/// Each planet upgrades its own hand-level slot: the slot's planet is that planet.
pub proof fn lemma_planet_hand_type_roundtrip(p: PlanetId, q: PlanetId)
    requires
        planet_hand_type(p) == planet_hand_type(q),
    ensures
        p == q,
        0 <= planet_hand_type(p) < HAND_LEVEL_SLOTS,
{
}

} // verus!
