//! Booster packs: their kinds, prices, what they hold, and the picking of their contents.

use vstd::prelude::*;

use rand::rngs::StdRng;

use crate::cards::{Card, Edition, Enhancement, Seal};
use crate::consumables::{PlanetId, SpectralId, TarotId, tarot_index, planet_index, spectral_index};
use crate::joker::JokerId;
use crate::rng::{choose_from, gen_below, sample_indices};

verus! {

/// Number of pack kinds.
pub const PACK_TYPE_COUNT: usize = 12;

/// What a pack holds.
#[derive(Clone, Copy, Debug, PartialEq, Eq, Structural)]
pub enum PackContentType {
    Tarot,
    Planet,
    Spectral,
    PlayingCard,
    Joker,
}

/// Pack kind: five standard packs, three Mega packs, four Jumbo packs.
#[derive(Clone, Copy, Debug, PartialEq, Eq, Structural)]
pub enum PackType {
    Arcana,
    Celestial,
    Spectral,
    Standard,
    Buffoon,
    MegaArcana,
    MegaCelestial,
    MegaStandard,
    JumboArcana,
    JumboCelestial,
    JumboStandard,
    JumboBuffoon,
}

/// Position of a pack kind in `PackType::all`.
pub open spec fn pack_index(p: PackType) -> int {
    match p {
        PackType::Arcana => 0,
        PackType::Celestial => 1,
        PackType::Spectral => 2,
        PackType::Standard => 3,
        PackType::Buffoon => 4,
        PackType::MegaArcana => 5,
        PackType::MegaCelestial => 6,
        PackType::MegaStandard => 7,
        PackType::JumboArcana => 8,
        PackType::JumboCelestial => 9,
        PackType::JumboStandard => 10,
        PackType::JumboBuffoon => 11,
    }
}

/// Display name of a pack kind.
pub open spec fn pack_name(p: PackType) -> &'static str {
    match p {
        PackType::Arcana => "Arcana Pack",
        PackType::Celestial => "Celestial Pack",
        PackType::Spectral => "Spectral Pack",
        PackType::Standard => "Standard Pack",
        PackType::Buffoon => "Buffoon Pack",
        PackType::MegaArcana => "Mega Arcana Pack",
        PackType::MegaCelestial => "Mega Celestial Pack",
        PackType::MegaStandard => "Mega Standard Pack",
        PackType::JumboArcana => "Jumbo Arcana Pack",
        PackType::JumboCelestial => "Jumbo Celestial Pack",
        PackType::JumboStandard => "Jumbo Standard Pack",
        PackType::JumboBuffoon => "Jumbo Buffoon Pack",
    }
}

/// Price of a pack: $4 standard, $8 Mega, $6 Jumbo.
pub open spec fn pack_cost(p: PackType) -> int {
    if pack_index(p) < 5 {
        4
    } else if pack_index(p) < 8 {
        8
    } else {
        6
    }
}

/// Cards shown in a pack.
pub open spec fn pack_card_count(p: PackType) -> int {
    match p {
        PackType::Arcana | PackType::Celestial | PackType::Standard => 3,
        PackType::Spectral | PackType::Buffoon => 2,
        PackType::JumboBuffoon => 4,
        _ => 5,
    }
}

/// Cards that may be taken from a pack.
pub open spec fn pack_pick_count(p: PackType) -> int {
    match p {
        PackType::MegaArcana | PackType::MegaCelestial | PackType::MegaStandard => 2,
        _ => 1,
    }
}

/// What a pack holds.
pub open spec fn pack_content(p: PackType) -> PackContentType {
    match p {
        PackType::Arcana | PackType::MegaArcana | PackType::JumboArcana => PackContentType::Tarot,
        PackType::Celestial | PackType::MegaCelestial | PackType::JumboCelestial => PackContentType::Planet,
        PackType::Spectral => PackContentType::Spectral,
        PackType::Standard | PackType::MegaStandard | PackType::JumboStandard => PackContentType::PlayingCard,
        PackType::Buffoon | PackType::JumboBuffoon => PackContentType::Joker,
    }
}

/// The pack kind a roll in `0..100` picks: weights 20, 20, 5, 20, 15, 4, 4, 4, 2, 2, 2, 2
/// in index order.
pub open spec fn pack_for_roll(roll: int) -> PackType {
    if roll < 20 {
        PackType::Arcana
    } else if roll < 40 {
        PackType::Celestial
    } else if roll < 45 {
        PackType::Spectral
    } else if roll < 65 {
        PackType::Standard
    } else if roll < 80 {
        PackType::Buffoon
    } else if roll < 84 {
        PackType::MegaArcana
    } else if roll < 88 {
        PackType::MegaCelestial
    } else if roll < 92 {
        PackType::MegaStandard
    } else if roll < 94 {
        PackType::JumboArcana
    } else if roll < 96 {
        PackType::JumboCelestial
    } else if roll < 98 {
        PackType::JumboStandard
    } else {
        PackType::JumboBuffoon
    }
}

impl PackType {
    /// Every pack kind, in index order.
    pub fn all() -> (r: &'static [PackType])
        ensures
            r@.len() == PACK_TYPE_COUNT,
            forall|i: int| 0 <= i < PACK_TYPE_COUNT ==> pack_index(#[trigger] r@[i]) == i,
    {
        let r: &'static [PackType] = &[
            PackType::Arcana,
            PackType::Celestial,
            PackType::Spectral,
            PackType::Standard,
            PackType::Buffoon,
            PackType::MegaArcana,
            PackType::MegaCelestial,
            PackType::MegaStandard,
            PackType::JumboArcana,
            PackType::JumboCelestial,
            PackType::JumboStandard,
            PackType::JumboBuffoon,
        ];
        r
    }

    pub fn name(&self) -> (r: &'static str)
        ensures
            r == pack_name(*self),
    {
        match self {
            PackType::Arcana => "Arcana Pack",
            PackType::Celestial => "Celestial Pack",
            PackType::Spectral => "Spectral Pack",
            PackType::Standard => "Standard Pack",
            PackType::Buffoon => "Buffoon Pack",
            PackType::MegaArcana => "Mega Arcana Pack",
            PackType::MegaCelestial => "Mega Celestial Pack",
            PackType::MegaStandard => "Mega Standard Pack",
            PackType::JumboArcana => "Jumbo Arcana Pack",
            PackType::JumboCelestial => "Jumbo Celestial Pack",
            PackType::JumboStandard => "Jumbo Standard Pack",
            PackType::JumboBuffoon => "Jumbo Buffoon Pack",
        }
    }

    pub fn cost(&self) -> (r: i64)
        ensures
            r == pack_cost(*self),
    {
        match self {
            PackType::Arcana | PackType::Celestial | PackType::Spectral | PackType::Standard
            | PackType::Buffoon => 4,
            PackType::MegaArcana | PackType::MegaCelestial | PackType::MegaStandard => 8,
            _ => 6,
        }
    }

    pub fn card_count(&self) -> (r: usize)
        ensures
            r == pack_card_count(*self),
    {
        match self {
            PackType::Arcana | PackType::Celestial | PackType::Standard => 3,
            PackType::Spectral | PackType::Buffoon => 2,
            PackType::JumboBuffoon => 4,
            _ => 5,
        }
    }

    pub fn pick_count(&self) -> (r: usize)
        ensures
            r == pack_pick_count(*self),
    {
        match self {
            PackType::MegaArcana | PackType::MegaCelestial | PackType::MegaStandard => 2,
            _ => 1,
        }
    }

    pub fn content_type(&self) -> (r: PackContentType)
        ensures
            r == pack_content(*self),
    {
        match self {
            PackType::Arcana | PackType::MegaArcana | PackType::JumboArcana => PackContentType::Tarot,
            PackType::Celestial | PackType::MegaCelestial | PackType::JumboCelestial => PackContentType::Planet,
            PackType::Spectral => PackContentType::Spectral,
            PackType::Standard | PackType::MegaStandard | PackType::JumboStandard => PackContentType::PlayingCard,
            PackType::Buffoon | PackType::JumboBuffoon => PackContentType::Joker,
        }
    }

    pub fn to_index(&self) -> (r: usize)
        ensures
            r == pack_index(*self),
    {
        match self {
            PackType::Arcana => 0,
            PackType::Celestial => 1,
            PackType::Spectral => 2,
            PackType::Standard => 3,
            PackType::Buffoon => 4,
            PackType::MegaArcana => 5,
            PackType::MegaCelestial => 6,
            PackType::MegaStandard => 7,
            PackType::JumboArcana => 8,
            PackType::JumboCelestial => 9,
            PackType::JumboStandard => 10,
            PackType::JumboBuffoon => 11,
        }
    }

    /// The pack kind at a position, if the position is below `PACK_TYPE_COUNT`.
    pub fn from_index(index: usize) -> (r: Option<PackType>)
        ensures
            index < PACK_TYPE_COUNT ==> r is Some && pack_index(r.unwrap()) == index,
            index >= PACK_TYPE_COUNT ==> r is None,
    {
        let all = Self::all();
        if index < all.len() {
            Some(all[index])
        } else {
            None
        }
    }

    /// The pack kind that a weighted roll in `0..100` picks.
    fn from_roll(roll: usize) -> (r: PackType)
        ensures
            r == pack_for_roll(roll as int),
    {
        if roll < 20 {
            PackType::Arcana
        } else if roll < 40 {
            PackType::Celestial
        } else if roll < 45 {
            PackType::Spectral
        } else if roll < 65 {
            PackType::Standard
        } else if roll < 80 {
            PackType::Buffoon
        } else if roll < 84 {
            PackType::MegaArcana
        } else if roll < 88 {
            PackType::MegaCelestial
        } else if roll < 92 {
            PackType::MegaStandard
        } else if roll < 94 {
            PackType::JumboArcana
        } else if roll < 96 {
            PackType::JumboCelestial
        } else if roll < 98 {
            PackType::JumboStandard
        } else {
            PackType::JumboBuffoon
        }
    }

    /// A random pack kind for the shop, by the weights of `pack_for_roll`.
    pub fn random(rng: &mut StdRng) -> (r: PackType)
        ensures
            exists|roll: int| 0 <= roll < 100 && r == pack_for_roll(roll),
    {
        let roll = gen_below(rng, 100);
        Self::from_roll(roll)
    }
}

/// Pack positions identify pack kinds.
pub proof fn lemma_pack_index_injective(a: PackType, b: PackType)
    requires
        pack_index(a) == pack_index(b),
    ensures
        a == b,
{
}

/// `after` is `before` with the first occurrence of `x` taken out.
pub open spec fn first_removed(before: Seq<usize>, x: usize, after: Seq<usize>) -> bool {
    exists|p: int|
        0 <= p < before.len() && before[p] == x && (forall|k: int| 0 <= k < p ==> before[k] != x)
            && after == #[trigger] before.remove(p)
}

/// No position occurs twice.
pub open spec fn no_repeats(s: Seq<usize>) -> bool {
    forall|i: int, j: int| 0 <= i < j < s.len() ==> s[i] != s[j]
}

/// The state of picking cards from an opened pack.
#[derive(Clone, Debug)]
pub struct PackOpeningState {
    /// The pack being opened.
    pub pack_type: PackType,
    /// Positions of the cards still on offer.
    pub available_choices: Vec<usize>,
    /// Picks left.
    pub picks_remaining: usize,
    /// Whether picking is over.
    pub completed: bool,
}

impl PackOpeningState {
    /// A freshly opened pack: every card on offer, every pick left.
    pub fn new(pack_type: PackType) -> (r: PackOpeningState)
        ensures
            r.pack_type == pack_type,
            r.available_choices@ == Seq::new(pack_card_count(pack_type) as nat, |i: int| i as usize),
            no_repeats(r.available_choices@),
            r.picks_remaining == pack_pick_count(pack_type),
            !r.completed,
    {
        let card_count = pack_type.card_count();
        let mut choices: Vec<usize> = Vec::new();
        let mut i: usize = 0;
        while i < card_count
            invariant
                i <= card_count,
                choices@ == Seq::new(i as nat, |k: int| k as usize),
            decreases card_count - i,
        {
            choices.push(i);
            i = i + 1;
            proof {
                assert(choices@ =~= Seq::new(i as nat, |k: int| k as usize));
            }
        }
        PackOpeningState {
            pack_type,
            available_choices: choices,
            picks_remaining: pack_type.pick_count(),
            completed: false,
        }
    }

    /// Takes the card at position `index`: refused (false, nothing changes) when picking is
    /// over, no pick is left, or the card is not on offer; otherwise the card leaves the offer,
    /// one pick is used, and picking ends with the last pick.
    pub fn pick(&mut self, index: usize) -> (r: bool)
        ensures
            final(self).pack_type == old(self).pack_type,
            r == (!old(self).completed && old(self).picks_remaining > 0
                && old(self).available_choices@.contains(index)),
            !r ==> *final(self) == *old(self),
            r ==> final(self).picks_remaining == old(self).picks_remaining - 1
                && final(self).completed == (final(self).picks_remaining == 0)
                && first_removed(old(self).available_choices@, index, final(self).available_choices@),
    {
        if self.completed || self.picks_remaining == 0 {
            return false;
        }
        let mut pos: usize = 0;
        while pos < self.available_choices.len() && self.available_choices[pos] != index
            invariant
                pos <= self.available_choices.len(),
                forall|k: int| 0 <= k < pos ==> self.available_choices@[k] != index,
            decreases self.available_choices.len() - pos,
        {
            pos = pos + 1;
        }
        if pos == self.available_choices.len() {
            proof {
                assert(!self.available_choices@.contains(index));
            }
            return false;
        }
        let ghost before = self.available_choices@;
        self.available_choices.remove(pos);
        proof {
            assert(first_removed(before, index, self.available_choices@) && before.contains(index)) by {
                assert(before[pos as int] == index);
            }
        }
        self.picks_remaining = self.picks_remaining - 1;
        if self.picks_remaining == 0 {
            self.completed = true;
        }
        true
    }

    /// Ends picking, giving up the picks left.
    pub fn skip(&mut self)
        ensures
            final(self).pack_type == old(self).pack_type,
            final(self).available_choices@ == old(self).available_choices@,
            final(self).picks_remaining == 0,
            final(self).completed,
    {
        self.picks_remaining = 0;
        self.completed = true;
    }
}

/// A card found in a pack.
#[derive(Clone, Debug)]
pub enum PackItem {
    Tarot(TarotId),
    Planet(PlanetId),
    Spectral(SpectralId),
    Joker(JokerId, Edition),
    PlayingCard(Card),
}

/// The cards of an opened pack.
#[derive(Clone, Debug)]
pub struct PackContents {
    pub pack_type: PackType,
    pub items: Vec<PackItem>,
}

/// Items of the kind a pack's content asks for.
pub open spec fn item_fits(content: PackContentType, item: PackItem) -> bool {
    match content {
        PackContentType::Tarot => item is Tarot,
        PackContentType::Planet => item is Planet,
        PackContentType::Spectral => item is Spectral,
        PackContentType::Joker => item is Joker,
        PackContentType::PlayingCard => item is PlayingCard,
    }
}

/// The edition a roll in `0..100` gives a pack joker: base below 85, foil below 92,
/// holographic below 97, polychrome above.
pub open spec fn joker_edition_for_roll(roll: int) -> Edition {
    if roll < 85 {
        Edition::Base
    } else if roll < 92 {
        Edition::Foil
    } else if roll < 97 {
        Edition::Holographic
    } else {
        Edition::Polychrome
    }
}

/// The enhancement a roll in `0..8` gives a pack card.
pub open spec fn enhancement_for_roll(roll: int) -> Enhancement {
    if roll == 0 {
        Enhancement::Bonus
    } else if roll == 1 {
        Enhancement::Mult
    } else if roll == 2 {
        Enhancement::Wild
    } else if roll == 3 {
        Enhancement::Glass
    } else if roll == 4 {
        Enhancement::Steel
    } else if roll == 5 {
        Enhancement::Stone
    } else if roll == 6 {
        Enhancement::Gold
    } else if roll == 7 {
        Enhancement::Lucky
    } else {
        Enhancement::NoEnhancement
    }
}

/// The seal a roll in `0..4` gives a pack card.
pub open spec fn seal_for_roll(roll: int) -> Seal {
    if roll == 0 {
        Seal::Gold
    } else if roll == 1 {
        Seal::Red
    } else if roll == 2 {
        Seal::Blue
    } else if roll == 3 {
        Seal::Purple
    } else {
        Seal::NoSeal
    }
}

/// The edition a roll in `0..3` gives a pack card.
pub open spec fn card_edition_for_roll(roll: int) -> Edition {
    if roll == 0 {
        Edition::Foil
    } else if roll == 1 {
        Edition::Holographic
    } else if roll == 2 {
        Edition::Polychrome
    } else {
        Edition::Base
    }
}

/// The playing card that pack rolls make: rank and suit, then an enhancement when the
/// enhancement roll is 70 or more, a seal when the seal roll is 85 or more, and an edition
/// when the edition roll is 90 or more.
pub open spec fn pack_card_for_rolls(
    rank: int,
    suit: int,
    enh_roll: int,
    enh_kind: int,
    seal_roll: int,
    seal_kind: int,
    ed_roll: int,
    ed_kind: int,
) -> Card {
    Card {
        rank: rank as u8,
        suit: suit as u8,
        enhancement: if enh_roll >= 70 { enhancement_for_roll(enh_kind) } else { Enhancement::NoEnhancement },
        seal: if seal_roll >= 85 { seal_for_roll(seal_kind) } else { Seal::NoSeal },
        edition: if ed_roll >= 90 { card_edition_for_roll(ed_kind) } else { Edition::Base },
        face_down: false,
        bonus_chips: 0,
    }
}

impl PackContents {
    /// Random contents for a pack: distinct tarot, planet or spectral cards, or random jokers
    /// or playing cards, as many as the pack shows (fewer only when there are not that many
    /// distinct cards of the kind).
    pub fn generate(pack_type: PackType, rng: &mut StdRng) -> (r: PackContents)
        ensures
            r.pack_type == pack_type,
            r.items@.len() == pack_card_count(pack_type),
            forall|i: int| 0 <= i < r.items@.len() ==> item_fits(pack_content(pack_type), #[trigger] r.items@[i]),
    {
        let count = pack_type.card_count();
        let items = match pack_type.content_type() {
            PackContentType::Tarot => Self::generate_tarots(count, rng),
            PackContentType::Planet => Self::generate_planets(count, rng),
            PackContentType::Spectral => Self::generate_spectrals(count, rng),
            PackContentType::Joker => Self::generate_jokers(count, rng),
            PackContentType::PlayingCard => Self::generate_playing_cards(count, rng),
        };
        PackContents { pack_type, items }
    }

    /// Distinct random tarot cards, at most 22.
    fn generate_tarots(count: usize, rng: &mut StdRng) -> (r: Vec<PackItem>)
        ensures
            r@.len() == (if count < 22 { count as int } else { 22 }),
            forall|i: int| 0 <= i < r@.len() ==> #[trigger] r@[i] is Tarot,
            forall|i: int, j: int|
                0 <= i < j < r@.len() ==> r@[i] != r@[j],
    {
        let all = TarotId::all();
        let amount = if count < all.len() { count } else { all.len() };
        let picks = sample_indices(rng, all.len(), amount);
        let mut r: Vec<PackItem> = Vec::new();
        let mut k: usize = 0;
        while k < picks.len()
            invariant
                k <= picks.len(),
                picks@.len() == amount,
                all@.len() == 22,
                forall|i: int| 0 <= i < 22 ==> tarot_index(#[trigger] all@[i]) == i,
                forall|i: int| 0 <= i < amount ==> #[trigger] picks@[i] < 22,
                forall|i: int, j: int| 0 <= i < j < amount ==> picks@[i] != picks@[j],
                r@.len() == k,
                forall|i: int| 0 <= i < k ==> #[trigger] r@[i] == PackItem::Tarot(all@[picks@[i] as int]),
            decreases picks.len() - k,
        {
            r.push(PackItem::Tarot(all[picks[k]]));
            k = k + 1;
        }
        proof {
            assert forall|i: int, j: int| 0 <= i < j < r@.len() implies r@[i] != r@[j] by {
                assert(tarot_index(all@[picks@[i] as int]) != tarot_index(all@[picks@[j] as int]));
            }
        }
        r
    }

    /// Distinct random planet cards, at most 12.
    fn generate_planets(count: usize, rng: &mut StdRng) -> (r: Vec<PackItem>)
        ensures
            r@.len() == (if count < 12 { count as int } else { 12 }),
            forall|i: int| 0 <= i < r@.len() ==> #[trigger] r@[i] is Planet,
            forall|i: int, j: int|
                0 <= i < j < r@.len() ==> r@[i] != r@[j],
    {
        let all = PlanetId::all();
        let amount = if count < all.len() { count } else { all.len() };
        let picks = sample_indices(rng, all.len(), amount);
        let mut r: Vec<PackItem> = Vec::new();
        let mut k: usize = 0;
        while k < picks.len()
            invariant
                k <= picks.len(),
                picks@.len() == amount,
                all@.len() == 12,
                forall|i: int| 0 <= i < 12 ==> planet_index(#[trigger] all@[i]) == i,
                forall|i: int| 0 <= i < amount ==> #[trigger] picks@[i] < 12,
                forall|i: int, j: int| 0 <= i < j < amount ==> picks@[i] != picks@[j],
                r@.len() == k,
                forall|i: int| 0 <= i < k ==> #[trigger] r@[i] == PackItem::Planet(all@[picks@[i] as int]),
            decreases picks.len() - k,
        {
            r.push(PackItem::Planet(all[picks[k]]));
            k = k + 1;
        }
        proof {
            assert forall|i: int, j: int| 0 <= i < j < r@.len() implies r@[i] != r@[j] by {
                assert(planet_index(all@[picks@[i] as int]) != planet_index(all@[picks@[j] as int]));
            }
        }
        r
    }

    /// Distinct random spectral cards, at most 18.
    fn generate_spectrals(count: usize, rng: &mut StdRng) -> (r: Vec<PackItem>)
        ensures
            r@.len() == (if count < 18 { count as int } else { 18 }),
            forall|i: int| 0 <= i < r@.len() ==> #[trigger] r@[i] is Spectral,
            forall|i: int, j: int|
                0 <= i < j < r@.len() ==> r@[i] != r@[j],
    {
        let all = SpectralId::all();
        let amount = if count < all.len() { count } else { all.len() };
        let picks = sample_indices(rng, all.len(), amount);
        let mut r: Vec<PackItem> = Vec::new();
        let mut k: usize = 0;
        while k < picks.len()
            invariant
                k <= picks.len(),
                picks@.len() == amount,
                all@.len() == 18,
                forall|i: int| 0 <= i < 18 ==> spectral_index(#[trigger] all@[i]) == i,
                forall|i: int| 0 <= i < amount ==> #[trigger] picks@[i] < 18,
                forall|i: int, j: int| 0 <= i < j < amount ==> picks@[i] != picks@[j],
                r@.len() == k,
                forall|i: int| 0 <= i < k ==> #[trigger] r@[i] == PackItem::Spectral(all@[picks@[i] as int]),
            decreases picks.len() - k,
        {
            r.push(PackItem::Spectral(all[picks[k]]));
            k = k + 1;
        }
        proof {
            assert forall|i: int, j: int| 0 <= i < j < r@.len() implies r@[i] != r@[j] by {
                assert(spectral_index(all@[picks@[i] as int]) != spectral_index(all@[picks@[j] as int]));
            }
        }
        r
    }

    /// Random jokers: common (roll below 60), uncommon (below 90) or rare, each with an
    /// edition by `joker_edition_for_roll`.
    fn generate_jokers(count: usize, rng: &mut StdRng) -> (r: Vec<PackItem>)
        ensures
            r@.len() == count,
            forall|i: int|
                0 <= i < count ==> (#[trigger] r@[i] matches PackItem::Joker(_, e) && exists|roll: int|
                    0 <= roll < 100 && e == joker_edition_for_roll(roll)),
    {
        let common = JokerId::by_rarity(1);
        let uncommon = JokerId::by_rarity(2);
        let rare = JokerId::by_rarity(3);
        let mut r: Vec<PackItem> = Vec::new();
        let mut k: usize = 0;
        while k < count
            invariant
                k <= count,
                r@.len() == k,
                forall|i: int|
                    0 <= i < k ==> (#[trigger] r@[i] matches PackItem::Joker(_, e) && exists|roll: int|
                        0 <= roll < 100 && e == joker_edition_for_roll(roll)),
            decreases count - k,
        {
            let roll = gen_below(rng, 100);
            let pool = if roll < 60 {
                &common
            } else if roll < 90 {
                if uncommon.len() == 0 {
                    &common
                } else {
                    &uncommon
                }
            } else {
                &rare
            };
            let joker_id = match choose_from(rng, pool.as_slice()) {
                Some(j) => j,
                None => JokerId::Joker,
            };
            let ed_roll = gen_below(rng, 100);
            let edition = joker_edition(ed_roll);
            r.push(PackItem::Joker(joker_id, edition));
            k = k + 1;
        }
        r
    }

    /// Random playing cards, by `pack_card_for_rolls`.
    fn generate_playing_cards(count: usize, rng: &mut StdRng) -> (r: Vec<PackItem>)
        ensures
            r@.len() == count,
            forall|i: int|
                0 <= i < count ==> (#[trigger] r@[i] matches PackItem::PlayingCard(c) && exists|
                    rank: int,
                    suit: int,
                    er: int,
                    ek: int,
                    sr: int,
                    sk: int,
                    dr: int,
                    dk: int,
                |
                    1 <= rank <= 13 && 0 <= suit < 4 && 0 <= er < 100 && 0 <= ek < 8 && 0 <= sr < 100
                        && 0 <= sk < 4 && 0 <= dr < 100 && 0 <= dk < 3 && c == pack_card_for_rolls(
                        rank,
                        suit,
                        er,
                        ek,
                        sr,
                        sk,
                        dr,
                        dk,
                    )),
    {
        let mut r: Vec<PackItem> = Vec::new();
        let mut k: usize = 0;
        while k < count
            invariant
                k <= count,
                r@.len() == k,
                forall|i: int|
                    0 <= i < k ==> (#[trigger] r@[i] matches PackItem::PlayingCard(c) && exists|
                        rank: int,
                        suit: int,
                        er: int,
                        ek: int,
                        sr: int,
                        sk: int,
                        dr: int,
                        dk: int,
                    |
                        1 <= rank <= 13 && 0 <= suit < 4 && 0 <= er < 100 && 0 <= ek < 8 && 0 <= sr
                            < 100 && 0 <= sk < 4 && 0 <= dr < 100 && 0 <= dk < 3 && c
                            == pack_card_for_rolls(rank, suit, er, ek, sr, sk, dr, dk)),
            decreases count - k,
        {
            let rank = gen_below(rng, 13) + 1;
            let suit = gen_below(rng, 4);
            let er = gen_below(rng, 100);
            let ek = gen_below(rng, 8);
            let sr = gen_below(rng, 100);
            let sk = gen_below(rng, 4);
            let dr = gen_below(rng, 100);
            let dk = gen_below(rng, 3);
            let card = pack_card(rank, suit, er, ek, sr, sk, dr, dk);
            r.push(PackItem::PlayingCard(card));
            proof {
                assert(r@[k as int] matches PackItem::PlayingCard(c) && c == pack_card_for_rolls(
                    rank as int, suit as int, er as int, ek as int, sr as int, sk as int, dr as int, dk as int));
            }
            k = k + 1;
        }
        r
    }
}

/// The edition a roll in `0..100` gives a pack joker.
fn joker_edition(roll: usize) -> (r: Edition)
    ensures
        r == joker_edition_for_roll(roll as int),
{
    if roll < 85 {
        Edition::Base
    } else if roll < 92 {
        Edition::Foil
    } else if roll < 97 {
        Edition::Holographic
    } else {
        Edition::Polychrome
    }
}

/// The playing card that pack rolls make.
fn pack_card(
    rank: usize,
    suit: usize,
    er: usize,
    ek: usize,
    sr: usize,
    sk: usize,
    dr: usize,
    dk: usize,
) -> (r: Card)
    requires
        1 <= rank <= 13,
        suit < 4,
    ensures
        r == pack_card_for_rolls(rank as int, suit as int, er as int, ek as int, sr as int, sk as int, dr as int, dk as int),
{
    let mut card = Card::new(rank as u8, suit as u8);
    if er >= 70 {
        card.enhancement = if ek == 0 {
            Enhancement::Bonus
        } else if ek == 1 {
            Enhancement::Mult
        } else if ek == 2 {
            Enhancement::Wild
        } else if ek == 3 {
            Enhancement::Glass
        } else if ek == 4 {
            Enhancement::Steel
        } else if ek == 5 {
            Enhancement::Stone
        } else if ek == 6 {
            Enhancement::Gold
        } else if ek == 7 {
            Enhancement::Lucky
        } else {
            Enhancement::NoEnhancement
        };
    }
    if sr >= 85 {
        card.seal = if sk == 0 {
            Seal::Gold
        } else if sk == 1 {
            Seal::Red
        } else if sk == 2 {
            Seal::Blue
        } else if sk == 3 {
            Seal::Purple
        } else {
            Seal::NoSeal
        };
    }
    if dr >= 90 {
        card.edition = if dk == 0 {
            Edition::Foil
        } else if dk == 1 {
            Edition::Holographic
        } else if dk == 2 {
            Edition::Polychrome
        } else {
            Edition::Base
        };
    }
    card
}

/// A successful pick from an offer without repeats takes the card off the offer for good:
/// the offer shrinks by one, no longer holds the card, and still has no repeats.
pub proof fn lemma_picked_card_leaves_offer(before: Seq<usize>, x: usize, after: Seq<usize>)
    requires
        no_repeats(before),
        first_removed(before, x, after),
    ensures
        after.len() + 1 == before.len(),
        !after.contains(x),
        no_repeats(after),
{
    let p = choose|p: int|
        0 <= p < before.len() && before[p] == x && (forall|k: int| 0 <= k < p ==> before[k] != x)
            && after == #[trigger] before.remove(p);
    assert(after == before.remove(p));
    assert forall|k: int| 0 <= k < after.len() implies after[k] != x by {
        if k < p {
            assert(after[k] == before[k]);
        } else {
            assert(after[k] == before[k + 1]);
        }
    }
    assert forall|i: int, j: int| 0 <= i < j < after.len() implies after[i] != after[j] by {
        let bi = if i < p { i } else { i + 1 };
        let bj = if j < p { j } else { j + 1 };
        assert(after[i] == before[bi]);
        assert(after[j] == before[bj]);
    }
}

/// A pack never lets more cards be taken than it shows.
pub proof fn lemma_picks_within_cards(p: PackType)
    ensures
        1 <= pack_pick_count(p) < pack_card_count(p),
{
}

} // verus!
