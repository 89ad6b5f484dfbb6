//! Vouchers: permanent upgrades bought in the shop, and the effects they add up to.

use vstd::prelude::*;

use rand::rngs::StdRng;

use crate::rng::choose_from;

verus! {

/// Number of vouchers.
pub const VOUCHER_COUNT: usize = 32;

/// Voucher identity: sixteen base vouchers, then their sixteen upgrades.
#[derive(Clone, Copy, Debug, PartialEq, Eq, Structural, Hash)]
#[allow(non_camel_case_types)]
pub enum VoucherId {
    Overstock,
    ClearanceSale,
    Hone,
    RerollSurplus,
    CrystalBall,
    Telescope,
    Grabber,
    Wasteful,
    SeedMoney,
    Blank,
    PaintBrush,
    Tarot_Merchant,
    Planet_Merchant,
    Magic_Trick,
    Antimatter,
    Hieroglyph,
    OverstockPlus,
    Liquidation,
    GlowUp,
    RerollGlut,
    OmenGlobe,
    Nadir,
    GrabberPlus,
    WastefulPlus,
    MoneyTree,
    Palette,
    Tarot_Tycoon,
    Planet_Tycoon,
    Illusion,
    Antimatter_Plus,
    Petroglyph,
    BlankPlus,
}

/// Index of a voucher (declaration order).
pub open spec fn voucher_index(v: VoucherId) -> int {
    match v {
        VoucherId::Overstock => 0,
        VoucherId::ClearanceSale => 1,
        VoucherId::Hone => 2,
        VoucherId::RerollSurplus => 3,
        VoucherId::CrystalBall => 4,
        VoucherId::Telescope => 5,
        VoucherId::Grabber => 6,
        VoucherId::Wasteful => 7,
        VoucherId::SeedMoney => 8,
        VoucherId::Blank => 9,
        VoucherId::PaintBrush => 10,
        VoucherId::Tarot_Merchant => 11,
        VoucherId::Planet_Merchant => 12,
        VoucherId::Magic_Trick => 13,
        VoucherId::Antimatter => 14,
        VoucherId::Hieroglyph => 15,
        VoucherId::OverstockPlus => 16,
        VoucherId::Liquidation => 17,
        VoucherId::GlowUp => 18,
        VoucherId::RerollGlut => 19,
        VoucherId::OmenGlobe => 20,
        VoucherId::Nadir => 21,
        VoucherId::GrabberPlus => 22,
        VoucherId::WastefulPlus => 23,
        VoucherId::MoneyTree => 24,
        VoucherId::Palette => 25,
        VoucherId::Tarot_Tycoon => 26,
        VoucherId::Planet_Tycoon => 27,
        VoucherId::Illusion => 28,
        VoucherId::Antimatter_Plus => 29,
        VoucherId::Petroglyph => 30,
        VoucherId::BlankPlus => 31,
    }
}

/// The voucher an upgrade needs first.
pub open spec fn voucher_prerequisite(v: VoucherId) -> Option<VoucherId> {
    match v {
        VoucherId::OverstockPlus => Some(VoucherId::Overstock),
        VoucherId::Liquidation => Some(VoucherId::ClearanceSale),
        VoucherId::GlowUp => Some(VoucherId::Hone),
        VoucherId::RerollGlut => Some(VoucherId::RerollSurplus),
        VoucherId::OmenGlobe => Some(VoucherId::CrystalBall),
        VoucherId::Nadir => Some(VoucherId::Telescope),
        VoucherId::GrabberPlus => Some(VoucherId::Grabber),
        VoucherId::WastefulPlus => Some(VoucherId::Wasteful),
        VoucherId::MoneyTree => Some(VoucherId::SeedMoney),
        VoucherId::Palette => Some(VoucherId::PaintBrush),
        VoucherId::Tarot_Tycoon => Some(VoucherId::Tarot_Merchant),
        VoucherId::Planet_Tycoon => Some(VoucherId::Planet_Merchant),
        VoucherId::Illusion => Some(VoucherId::Magic_Trick),
        VoucherId::Antimatter_Plus => Some(VoucherId::Antimatter),
        VoucherId::Petroglyph => Some(VoucherId::Hieroglyph),
        VoucherId::BlankPlus => Some(VoucherId::Blank),
        _ => None,
    }
}

/// The upgrade of a base voucher.
pub open spec fn voucher_upgrade(v: VoucherId) -> Option<VoucherId> {
    match v {
        VoucherId::Overstock => Some(VoucherId::OverstockPlus),
        VoucherId::ClearanceSale => Some(VoucherId::Liquidation),
        VoucherId::Hone => Some(VoucherId::GlowUp),
        VoucherId::RerollSurplus => Some(VoucherId::RerollGlut),
        VoucherId::CrystalBall => Some(VoucherId::OmenGlobe),
        VoucherId::Telescope => Some(VoucherId::Nadir),
        VoucherId::Grabber => Some(VoucherId::GrabberPlus),
        VoucherId::Wasteful => Some(VoucherId::WastefulPlus),
        VoucherId::SeedMoney => Some(VoucherId::MoneyTree),
        VoucherId::Blank => Some(VoucherId::BlankPlus),
        VoucherId::PaintBrush => Some(VoucherId::Palette),
        VoucherId::Tarot_Merchant => Some(VoucherId::Tarot_Tycoon),
        VoucherId::Planet_Merchant => Some(VoucherId::Planet_Tycoon),
        VoucherId::Magic_Trick => Some(VoucherId::Illusion),
        VoucherId::Antimatter => Some(VoucherId::Antimatter_Plus),
        VoucherId::Hieroglyph => Some(VoucherId::Petroglyph),
        _ => None,
    }
}

/// Display name of a voucher.
pub open spec fn voucher_name(v: VoucherId) -> &'static str {
    match v {
        VoucherId::Overstock => "Overstock",
        VoucherId::ClearanceSale => "Clearance Sale",
        VoucherId::Hone => "Hone",
        VoucherId::RerollSurplus => "Reroll Surplus",
        VoucherId::CrystalBall => "Crystal Ball",
        VoucherId::Telescope => "Telescope",
        VoucherId::Grabber => "Grabber",
        VoucherId::Wasteful => "Wasteful",
        VoucherId::SeedMoney => "Seed Money",
        VoucherId::Blank => "Blank",
        VoucherId::PaintBrush => "Paint Brush",
        VoucherId::Tarot_Merchant => "Tarot Merchant",
        VoucherId::Planet_Merchant => "Planet Merchant",
        VoucherId::Magic_Trick => "Magic Trick",
        VoucherId::Antimatter => "Antimatter",
        VoucherId::Hieroglyph => "Hieroglyph",
        VoucherId::OverstockPlus => "Overstock Plus",
        VoucherId::Liquidation => "Liquidation",
        VoucherId::GlowUp => "Glow Up",
        VoucherId::RerollGlut => "Reroll Glut",
        VoucherId::OmenGlobe => "Omen Globe",
        VoucherId::Nadir => "Nadir",
        VoucherId::GrabberPlus => "Grabber Plus",
        VoucherId::WastefulPlus => "Wasteful Plus",
        VoucherId::MoneyTree => "Money Tree",
        VoucherId::Palette => "Palette",
        VoucherId::Tarot_Tycoon => "Tarot Tycoon",
        VoucherId::Planet_Tycoon => "Planet Tycoon",
        VoucherId::Illusion => "Illusion",
        VoucherId::Antimatter_Plus => "Antimatter Plus",
        VoucherId::Petroglyph => "Petroglyph",
        VoucherId::BlankPlus => "Blank Plus",
    }
}

/// Base vouchers: those with no prerequisite.
pub open spec fn is_base_voucher(v: VoucherId) -> bool {
    voucher_index(v) < 16
}

impl VoucherId {
    /// The sixteen base vouchers, in index order.
    pub fn base_vouchers() -> (r: &'static [VoucherId])
        ensures
            r@.len() == 16,
            forall|i: int| 0 <= i < 16 ==> voucher_index(#[trigger] r@[i]) == i,
    {
        let r: &'static [VoucherId] = &[
            VoucherId::Overstock,
            VoucherId::ClearanceSale,
            VoucherId::Hone,
            VoucherId::RerollSurplus,
            VoucherId::CrystalBall,
            VoucherId::Telescope,
            VoucherId::Grabber,
            VoucherId::Wasteful,
            VoucherId::SeedMoney,
            VoucherId::Blank,
            VoucherId::PaintBrush,
            VoucherId::Tarot_Merchant,
            VoucherId::Planet_Merchant,
            VoucherId::Magic_Trick,
            VoucherId::Antimatter,
            VoucherId::Hieroglyph,
        ];
        r
    }

    /// The voucher that must be owned before this one can be bought.
    pub fn prerequisite(&self) -> (r: Option<VoucherId>)
        ensures
            r == voucher_prerequisite(*self),
    {
        match self {
            VoucherId::OverstockPlus => Some(VoucherId::Overstock),
            VoucherId::Liquidation => Some(VoucherId::ClearanceSale),
            VoucherId::GlowUp => Some(VoucherId::Hone),
            VoucherId::RerollGlut => Some(VoucherId::RerollSurplus),
            VoucherId::OmenGlobe => Some(VoucherId::CrystalBall),
            VoucherId::Nadir => Some(VoucherId::Telescope),
            VoucherId::GrabberPlus => Some(VoucherId::Grabber),
            VoucherId::WastefulPlus => Some(VoucherId::Wasteful),
            VoucherId::MoneyTree => Some(VoucherId::SeedMoney),
            VoucherId::Palette => Some(VoucherId::PaintBrush),
            VoucherId::Tarot_Tycoon => Some(VoucherId::Tarot_Merchant),
            VoucherId::Planet_Tycoon => Some(VoucherId::Planet_Merchant),
            VoucherId::Illusion => Some(VoucherId::Magic_Trick),
            VoucherId::Antimatter_Plus => Some(VoucherId::Antimatter),
            VoucherId::Petroglyph => Some(VoucherId::Hieroglyph),
            VoucherId::BlankPlus => Some(VoucherId::Blank),
            _ => None,
        }
    }

    /// The upgraded version of a base voucher.
    pub fn upgrade(&self) -> (r: Option<VoucherId>)
        ensures
            r == voucher_upgrade(*self),
    {
        match self {
            VoucherId::Overstock => Some(VoucherId::OverstockPlus),
            VoucherId::ClearanceSale => Some(VoucherId::Liquidation),
            VoucherId::Hone => Some(VoucherId::GlowUp),
            VoucherId::RerollSurplus => Some(VoucherId::RerollGlut),
            VoucherId::CrystalBall => Some(VoucherId::OmenGlobe),
            VoucherId::Telescope => Some(VoucherId::Nadir),
            VoucherId::Grabber => Some(VoucherId::GrabberPlus),
            VoucherId::Wasteful => Some(VoucherId::WastefulPlus),
            VoucherId::SeedMoney => Some(VoucherId::MoneyTree),
            VoucherId::Blank => Some(VoucherId::BlankPlus),
            VoucherId::PaintBrush => Some(VoucherId::Palette),
            VoucherId::Tarot_Merchant => Some(VoucherId::Tarot_Tycoon),
            VoucherId::Planet_Merchant => Some(VoucherId::Planet_Tycoon),
            VoucherId::Magic_Trick => Some(VoucherId::Illusion),
            VoucherId::Antimatter => Some(VoucherId::Antimatter_Plus),
            VoucherId::Hieroglyph => Some(VoucherId::Petroglyph),
            _ => None,
        }
    }

    pub fn name(&self) -> (r: &'static str)
        ensures
            r == voucher_name(*self),
    {
        match self {
            VoucherId::Overstock => "Overstock",
            VoucherId::ClearanceSale => "Clearance Sale",
            VoucherId::Hone => "Hone",
            VoucherId::RerollSurplus => "Reroll Surplus",
            VoucherId::CrystalBall => "Crystal Ball",
            VoucherId::Telescope => "Telescope",
            VoucherId::Grabber => "Grabber",
            VoucherId::Wasteful => "Wasteful",
            VoucherId::SeedMoney => "Seed Money",
            VoucherId::Blank => "Blank",
            VoucherId::PaintBrush => "Paint Brush",
            VoucherId::Tarot_Merchant => "Tarot Merchant",
            VoucherId::Planet_Merchant => "Planet Merchant",
            VoucherId::Magic_Trick => "Magic Trick",
            VoucherId::Antimatter => "Antimatter",
            VoucherId::Hieroglyph => "Hieroglyph",
            VoucherId::OverstockPlus => "Overstock Plus",
            VoucherId::Liquidation => "Liquidation",
            VoucherId::GlowUp => "Glow Up",
            VoucherId::RerollGlut => "Reroll Glut",
            VoucherId::OmenGlobe => "Omen Globe",
            VoucherId::Nadir => "Nadir",
            VoucherId::GrabberPlus => "Grabber Plus",
            VoucherId::WastefulPlus => "Wasteful Plus",
            VoucherId::MoneyTree => "Money Tree",
            VoucherId::Palette => "Palette",
            VoucherId::Tarot_Tycoon => "Tarot Tycoon",
            VoucherId::Planet_Tycoon => "Planet Tycoon",
            VoucherId::Illusion => "Illusion",
            VoucherId::Antimatter_Plus => "Antimatter Plus",
            VoucherId::Petroglyph => "Petroglyph",
            VoucherId::BlankPlus => "Blank Plus",
        }
    }

    /// Price: $10 for every voucher.
    pub fn cost(&self) -> (r: i64)
        ensures
            r == 10,
    {
        10
    }

    pub fn to_index(&self) -> (r: usize)
        ensures
            r == voucher_index(*self),
    {
        match self {
            VoucherId::Overstock => 0,
            VoucherId::ClearanceSale => 1,
            VoucherId::Hone => 2,
            VoucherId::RerollSurplus => 3,
            VoucherId::CrystalBall => 4,
            VoucherId::Telescope => 5,
            VoucherId::Grabber => 6,
            VoucherId::Wasteful => 7,
            VoucherId::SeedMoney => 8,
            VoucherId::Blank => 9,
            VoucherId::PaintBrush => 10,
            VoucherId::Tarot_Merchant => 11,
            VoucherId::Planet_Merchant => 12,
            VoucherId::Magic_Trick => 13,
            VoucherId::Antimatter => 14,
            VoucherId::Hieroglyph => 15,
            VoucherId::OverstockPlus => 16,
            VoucherId::Liquidation => 17,
            VoucherId::GlowUp => 18,
            VoucherId::RerollGlut => 19,
            VoucherId::OmenGlobe => 20,
            VoucherId::Nadir => 21,
            VoucherId::GrabberPlus => 22,
            VoucherId::WastefulPlus => 23,
            VoucherId::MoneyTree => 24,
            VoucherId::Palette => 25,
            VoucherId::Tarot_Tycoon => 26,
            VoucherId::Planet_Tycoon => 27,
            VoucherId::Illusion => 28,
            VoucherId::Antimatter_Plus => 29,
            VoucherId::Petroglyph => 30,
            VoucherId::BlankPlus => 31,
        }
    }

    /// The voucher with the given index, if the index is below `VOUCHER_COUNT`.
    pub fn from_index(index: usize) -> (r: Option<VoucherId>)
        ensures
            index < VOUCHER_COUNT ==> r is Some && voucher_index(r.unwrap()) == index,
            index >= VOUCHER_COUNT ==> r is None,
    {
        match index {
            0 => Some(VoucherId::Overstock),
            1 => Some(VoucherId::ClearanceSale),
            2 => Some(VoucherId::Hone),
            3 => Some(VoucherId::RerollSurplus),
            4 => Some(VoucherId::CrystalBall),
            5 => Some(VoucherId::Telescope),
            6 => Some(VoucherId::Grabber),
            7 => Some(VoucherId::Wasteful),
            8 => Some(VoucherId::SeedMoney),
            9 => Some(VoucherId::Blank),
            10 => Some(VoucherId::PaintBrush),
            11 => Some(VoucherId::Tarot_Merchant),
            12 => Some(VoucherId::Planet_Merchant),
            13 => Some(VoucherId::Magic_Trick),
            14 => Some(VoucherId::Antimatter),
            15 => Some(VoucherId::Hieroglyph),
            16 => Some(VoucherId::OverstockPlus),
            17 => Some(VoucherId::Liquidation),
            18 => Some(VoucherId::GlowUp),
            19 => Some(VoucherId::RerollGlut),
            20 => Some(VoucherId::OmenGlobe),
            21 => Some(VoucherId::Nadir),
            22 => Some(VoucherId::GrabberPlus),
            23 => Some(VoucherId::WastefulPlus),
            24 => Some(VoucherId::MoneyTree),
            25 => Some(VoucherId::Palette),
            26 => Some(VoucherId::Tarot_Tycoon),
            27 => Some(VoucherId::Planet_Tycoon),
            28 => Some(VoucherId::Illusion),
            29 => Some(VoucherId::Antimatter_Plus),
            30 => Some(VoucherId::Petroglyph),
            31 => Some(VoucherId::BlankPlus),
            _ => None,
        }
    }

    /// A random voucher that can be bought now, each such voucher equally likely;
    /// none when there is none.
    pub fn random_available(rng: &mut StdRng, owned: &[VoucherId]) -> (r: Option<VoucherId>)
        ensures
            r is None <==> (forall|v: VoucherId| !can_buy(owned@, v)),
            r matches Some(v) ==> can_buy(owned@, v),
    {
        let available = available_vouchers(owned);
        let r = choose_from(rng, available.as_slice());
        proof {
            if r is None {
                assert forall|v: VoucherId| !can_buy(owned@, v) by {
                    if can_buy(owned@, v) {
                        assert(available@.contains(v));
                    }
                }
            } else {
                let v = r->0;
                assert(available@.contains(v));
            }
        }
        r
    }
}

/// A voucher can be bought when it is not owned and its prerequisite, if any, is.
pub open spec fn can_buy(owned: Seq<VoucherId>, v: VoucherId) -> bool {
    &&& !owned.contains(v)
    &&& match voucher_prerequisite(v) {
        Some(p) => owned.contains(p),
        None => true,
    }
}

/// Whether `owned` holds `v`.
fn holds(owned: &[VoucherId], v: VoucherId) -> (r: bool)
    ensures
        r == owned@.contains(v),
{
    let mut i: usize = 0;
    while i < owned.len()
        invariant
            i <= owned.len(),
            forall|k: int| 0 <= k < i ==> owned@[k] != v,
        decreases owned.len() - i,
    {
        if owned[i] == v {
            return true;
        }
        i = i + 1;
    }
    false
}

/// The vouchers that can be bought now: the base vouchers not owned, then the upgrades
/// of owned base vouchers that are not owned themselves.
fn available_vouchers(owned: &[VoucherId]) -> (r: Vec<VoucherId>)
    ensures
        forall|v: VoucherId| r@.contains(v) <==> can_buy(owned@, v),
{
    broadcast use vstd::seq_lib::group_seq_properties;

    let bases = VoucherId::base_vouchers();
    let mut r: Vec<VoucherId> = Vec::new();
    let mut i: usize = 0;
    while i < bases.len()
        invariant
            i <= bases.len(),
            bases@.len() == 16,
            forall|k: int| 0 <= k < 16 ==> voucher_index(#[trigger] bases@[k]) == k,
            forall|x: VoucherId| r@.contains(x) ==> can_buy(owned@, x),
            forall|k: int| 0 <= k < i && !owned@.contains(#[trigger] bases@[k]) ==> r@.contains(bases@[k]),
        decreases bases.len() - i,
    {
        let b = bases[i];
        if !holds(owned, b) {
            proof {
                lemma_push_keeps(r@, b);
            }
            r.push(b);
        }
        i = i + 1;
    }
    let mut j: usize = 0;
    while j < bases.len()
        invariant
            j <= bases.len(),
            bases@.len() == 16,
            forall|k: int| 0 <= k < 16 ==> voucher_index(#[trigger] bases@[k]) == k,
            forall|x: VoucherId| r@.contains(x) ==> can_buy(owned@, x),
            forall|k: int| 0 <= k < 16 && !owned@.contains(#[trigger] bases@[k]) ==> r@.contains(bases@[k]),
            forall|k: int|
                0 <= k < j && owned@.contains(#[trigger] bases@[k]) && !owned@.contains(
                    voucher_upgrade(bases@[k]).unwrap(),
                ) ==> r@.contains(voucher_upgrade(bases@[k]).unwrap()),
        decreases bases.len() - j,
    {
        let b = bases[j];
        if holds(owned, b) {
            match b.upgrade() {
                Some(u) => {
                    if !holds(owned, u) {
                        proof {
                            lemma_upgrade_prerequisite_inverse(b, u);
                            lemma_push_keeps(r@, u);
                        }
                        r.push(u);
                    }
                },
                None => {},
            }
        }
        j = j + 1;
    }
    proof {
        assert forall|v: VoucherId| can_buy(owned@, v) implies r@.contains(v) by {
            match voucher_prerequisite(v) {
                Some(p) => {
                    lemma_upgrade_prerequisite_inverse(p, v);
                    let k = voucher_index(p);
                    lemma_voucher_index_injective(bases@[k], p);
                },
                None => {
                    let k = voucher_index(v);
                    lemma_voucher_index_injective(bases@[k], v);
                },
            }
        }
    }
    r
}

/// Occurrences of `v` in `s`.
pub open spec fn voucher_count(s: Seq<VoucherId>, v: VoucherId) -> int
    decreases s.len(),
{
    if s.len() == 0 {
        0
    } else {
        voucher_count(s.drop_last(), v) + if s.last() == v { 1int } else { 0int }
    }
}

/// Two raised to `n` (1 for `n <= 0`): a rate factor doubled once per voucher.
pub open spec fn doubled(n: int) -> int
    decreases n,
{
    if n <= 0 {
        1
    } else {
        2 * doubled(n - 1)
    }
}

/// A price after a percentage cut, rounded up: the ceiling of `price * (100 - cut) / 100`.
pub open spec fn discounted_price(price: int, cut: int) -> int {
    let x = price * (100 - cut);
    if x >= 0 {
        (x + 99) / 100
    } else {
        -((-x) / 100)
    }
}

/// The totals of `e` are what the vouchers of `s` add up to.
pub open spec fn totals_match(e: VoucherEffects, s: Seq<VoucherId>) -> bool {
        &&& e.discount_rate == 25 * (voucher_count(s, VoucherId::ClearanceSale) + voucher_count(
            s,
            VoucherId::Liquidation,
        ))
        &&& e.edition_rate_mult == doubled(
            voucher_count(s, VoucherId::Hone) + voucher_count(s, VoucherId::GlowUp),
        )
        &&& e.planet_rate_mult == doubled(
            voucher_count(s, VoucherId::Telescope) + voucher_count(s, VoucherId::Nadir),
        )
        &&& e.extra_shop_joker_slots == voucher_count(s, VoucherId::Overstock) + voucher_count(
            s,
            VoucherId::OverstockPlus,
        )
        &&& e.reroll_discount == 2 * (voucher_count(s, VoucherId::RerollSurplus) + voucher_count(
            s,
            VoucherId::RerollGlut,
        ))
        &&& e.extra_consumable_slots == voucher_count(s, VoucherId::CrystalBall) + voucher_count(
            s,
            VoucherId::OmenGlobe,
        )
        &&& e.extra_hands == voucher_count(s, VoucherId::Grabber) + voucher_count(
            s,
            VoucherId::GrabberPlus,
        ) - voucher_count(s, VoucherId::Hieroglyph)
        &&& e.extra_discards == voucher_count(s, VoucherId::Wasteful) + voucher_count(
            s,
            VoucherId::WastefulPlus,
        ) - voucher_count(s, VoucherId::Petroglyph)
        &&& e.interest_cap_bonus == 25 * (voucher_count(s, VoucherId::SeedMoney) + voucher_count(
            s,
            VoucherId::MoneyTree,
        ))
        &&& e.joker_sell_bonus == 3 * (voucher_count(s, VoucherId::PaintBrush) + voucher_count(
            s,
            VoucherId::Palette,
        ))
        &&& e.extra_tarot_draw == voucher_count(s, VoucherId::Tarot_Merchant) + voucher_count(
            s,
            VoucherId::Tarot_Tycoon,
        )
        &&& e.extra_shop_slots == voucher_count(s, VoucherId::Magic_Trick) + voucher_count(
            s,
            VoucherId::Illusion,
        )
        &&& e.joker_slot_bonus == voucher_count(s, VoucherId::Blank) + voucher_count(
            s,
            VoucherId::BlankPlus,
        ) + voucher_count(s, VoucherId::Antimatter) + voucher_count(s, VoucherId::Antimatter_Plus)
        &&& e.ante_reduction == voucher_count(s, VoucherId::Hieroglyph) + voucher_count(
            s,
            VoucherId::Petroglyph,
        )
}

/// Permanent effects of the vouchers bought so far.
#[derive(Clone, Debug, Default)]
pub struct VoucherEffects {
    /// Vouchers owned, in the order bought.
    pub owned: Vec<VoucherId>,
    /// Extra joker slots in the shop (Overstock, Overstock Plus).
    pub extra_shop_joker_slots: i32,
    /// Price cut in percent (Clearance Sale, Liquidation: 25 each).
    pub discount_rate: i64,
    /// Factor on edition odds (Hone, Glow Up: each doubles it).
    pub edition_rate_mult: i32,
    /// Reroll price cut (Reroll Surplus, Reroll Glut: $2 each).
    pub reroll_discount: i64,
    /// Extra consumable slots (Crystal Ball, Omen Globe).
    pub extra_consumable_slots: i32,
    /// Factor on planet odds (Telescope, Nadir: each doubles it).
    pub planet_rate_mult: i32,
    /// Extra hands per round (Grabber, Grabber Plus; Hieroglyph takes one).
    pub extra_hands: i32,
    /// Extra discards per round (Wasteful, Wasteful Plus; Petroglyph takes one).
    pub extra_discards: i32,
    /// Higher interest cap (Seed Money, Money Tree: $25 each).
    pub interest_cap_bonus: i64,
    /// Joker sell bonus (Paint Brush, Palette: $3 each).
    pub joker_sell_bonus: i64,
    /// Extra tarot draws (Tarot Merchant, Tarot Tycoon).
    pub extra_tarot_draw: i32,
    /// Extra shop card slots (Magic Trick, Illusion).
    pub extra_shop_slots: i32,
    /// Extra joker slots (Blank, Blank Plus, Antimatter, Antimatter Plus).
    pub joker_slot_bonus: i32,
    /// Antes taken off the goal (Hieroglyph, Petroglyph).
    pub ante_reduction: i32,
}

impl VoucherEffects {
    /// Each voucher is owned at most once, each owned upgrade's base is owned, and every
    /// total is what the owned vouchers add up to.
    pub open spec fn well_formed(&self) -> bool {
        let s = self.owned@;
        &&& forall|i: int, j: int| 0 <= i < j < s.len() ==> s[i] != s[j]
        &&& forall|i: int|
            0 <= i < s.len() ==> match voucher_prerequisite(#[trigger] s[i]) {
                Some(p) => s.contains(p),
                None => true,
            }
        &&& totals_match(*self, s)
    }

    /// No vouchers, no effects.
    pub fn new() -> (r: VoucherEffects)
        ensures
            r.well_formed(),
            r.owned@.len() == 0,
    {
        VoucherEffects {
            owned: Vec::new(),
            extra_shop_joker_slots: 0,
            discount_rate: 0,
            edition_rate_mult: 1,
            reroll_discount: 0,
            extra_consumable_slots: 0,
            planet_rate_mult: 1,
            extra_hands: 0,
            extra_discards: 0,
            interest_cap_bonus: 0,
            joker_sell_bonus: 0,
            extra_tarot_draw: 0,
            extra_shop_slots: 0,
            joker_slot_bonus: 0,
            ante_reduction: 0,
        }
    }

    /// Buys a voucher: refused (false, nothing changes) when it is owned already or its
    /// prerequisite is not owned; otherwise its effect is added and it joins `owned`.
    #[verifier::rlimit(30)]
    pub fn buy(&mut self, voucher: VoucherId) -> (r: bool)
        requires
            old(self).well_formed(),
        ensures
            final(self).well_formed(),
            r == can_buy(old(self).owned@, voucher),
            r ==> final(self).owned@ == old(self).owned@.push(voucher),
            !r ==> *final(self) == *old(self),
    {
        if holds(self.owned.as_slice(), voucher) {
            return false;
        }
        match voucher.prerequisite() {
            Some(p) => {
                if !holds(self.owned.as_slice(), p) {
                    return false;
                }
            },
            None => {},
        }
        let ghost s = self.owned@;
        proof {
            lemma_counts_at_most_one(s);
            lemma_count_absent(s, voucher);
        }
        self.apply_effect(voucher);
        self.owned.push(voucher);
        proof {
            let t = self.owned@;
            assert(t =~= s.push(voucher));
            assert forall|i: int, j: int| 0 <= i < j < t.len() implies t[i] != t[j] by {
                if j == s.len() {
                    assert(s.contains(s[i]));
                }
            }
            assert forall|i: int| 0 <= i < t.len() implies match voucher_prerequisite(#[trigger] t[i]) {
                Some(p) => t.contains(p),
                None => true,
            } by {
                match voucher_prerequisite(t[i]) {
                    Some(p) => {
                        if i < s.len() {
                            assert(s[i] == t[i]);
                            let k = choose|k: int| 0 <= k < s.len() && s[k] == p;
                            assert(t[k] == p);
                        } else {
                            let k = choose|k: int| 0 <= k < s.len() && s[k] == p;
                            assert(t[k] == p);
                        }
                    },
                    None => {},
                }
            }
        }
        true
    }

    /// Adds one voucher's effect to the totals.
    #[verifier::rlimit(60)]
    #[verifier::spinoff_prover]
    fn apply_effect(&mut self, voucher: VoucherId)
        requires
            voucher_count(old(self).owned@, voucher) == 0,
            old(self).well_formed(),
        ensures
            final(self).owned@ == old(self).owned@,
            totals_match(*final(self), old(self).owned@.push(voucher)),
    {
        proof {
            lemma_counts_at_most_one(old(self).owned@);
            let s = old(self).owned@;
            assert(0 <= voucher_count(s, VoucherId::Overstock) <= 1);
            assert(0 <= voucher_count(s, VoucherId::ClearanceSale) <= 1);
            assert(0 <= voucher_count(s, VoucherId::Liquidation) <= 1);
            assert(0 <= voucher_count(s, VoucherId::Hone) <= 1);
            assert(0 <= voucher_count(s, VoucherId::GlowUp) <= 1);
            assert(0 <= voucher_count(s, VoucherId::Telescope) <= 1);
            assert(0 <= voucher_count(s, VoucherId::Nadir) <= 1);
            assert(doubled(0) == 1 && doubled(1) == 2 && doubled(2) == 4) by {
                reveal_with_fuel(doubled, 3);
            }
            assert(0 <= voucher_count(s, VoucherId::OverstockPlus) <= 1);
            assert(0 <= voucher_count(s, VoucherId::RerollSurplus) <= 1);
            assert(0 <= voucher_count(s, VoucherId::RerollGlut) <= 1);
            assert(0 <= voucher_count(s, VoucherId::CrystalBall) <= 1);
            assert(0 <= voucher_count(s, VoucherId::OmenGlobe) <= 1);
            assert(0 <= voucher_count(s, VoucherId::Grabber) <= 1);
            assert(0 <= voucher_count(s, VoucherId::GrabberPlus) <= 1);
            assert(0 <= voucher_count(s, VoucherId::Hieroglyph) <= 1);
            assert(0 <= voucher_count(s, VoucherId::Wasteful) <= 1);
            assert(0 <= voucher_count(s, VoucherId::WastefulPlus) <= 1);
            assert(0 <= voucher_count(s, VoucherId::Petroglyph) <= 1);
            assert(0 <= voucher_count(s, VoucherId::SeedMoney) <= 1);
            assert(0 <= voucher_count(s, VoucherId::MoneyTree) <= 1);
            assert(0 <= voucher_count(s, VoucherId::PaintBrush) <= 1);
            assert(0 <= voucher_count(s, VoucherId::Palette) <= 1);
            assert(0 <= voucher_count(s, VoucherId::Tarot_Merchant) <= 1);
            assert(0 <= voucher_count(s, VoucherId::Tarot_Tycoon) <= 1);
            assert(0 <= voucher_count(s, VoucherId::Magic_Trick) <= 1);
            assert(0 <= voucher_count(s, VoucherId::Illusion) <= 1);
            assert(0 <= voucher_count(s, VoucherId::Blank) <= 1);
            assert(0 <= voucher_count(s, VoucherId::BlankPlus) <= 1);
            assert(0 <= voucher_count(s, VoucherId::Antimatter) <= 1);
            assert(0 <= voucher_count(s, VoucherId::Antimatter_Plus) <= 1);
            lemma_push_counts(s, voucher);
        }
        match voucher {
            VoucherId::Overstock => self.extra_shop_joker_slots = self.extra_shop_joker_slots + 1,
            VoucherId::OverstockPlus => self.extra_shop_joker_slots = self.extra_shop_joker_slots + 1,
            VoucherId::ClearanceSale => self.discount_rate = self.discount_rate + 25,
            VoucherId::Liquidation => self.discount_rate = self.discount_rate + 25,
            VoucherId::Hone => self.edition_rate_mult = self.edition_rate_mult * 2,
            VoucherId::GlowUp => self.edition_rate_mult = self.edition_rate_mult * 2,
            VoucherId::Telescope => self.planet_rate_mult = self.planet_rate_mult * 2,
            VoucherId::Nadir => self.planet_rate_mult = self.planet_rate_mult * 2,
            VoucherId::RerollSurplus => self.reroll_discount = self.reroll_discount + 2,
            VoucherId::RerollGlut => self.reroll_discount = self.reroll_discount + 2,
            VoucherId::CrystalBall => self.extra_consumable_slots = self.extra_consumable_slots + 1,
            VoucherId::OmenGlobe => self.extra_consumable_slots = self.extra_consumable_slots + 1,
            VoucherId::Grabber => self.extra_hands = self.extra_hands + 1,
            VoucherId::GrabberPlus => self.extra_hands = self.extra_hands + 1,
            VoucherId::Wasteful => self.extra_discards = self.extra_discards + 1,
            VoucherId::WastefulPlus => self.extra_discards = self.extra_discards + 1,
            VoucherId::SeedMoney => self.interest_cap_bonus = self.interest_cap_bonus + 25,
            VoucherId::MoneyTree => self.interest_cap_bonus = self.interest_cap_bonus + 25,
            VoucherId::PaintBrush => self.joker_sell_bonus = self.joker_sell_bonus + 3,
            VoucherId::Palette => self.joker_sell_bonus = self.joker_sell_bonus + 3,
            VoucherId::Tarot_Merchant => self.extra_tarot_draw = self.extra_tarot_draw + 1,
            VoucherId::Tarot_Tycoon => self.extra_tarot_draw = self.extra_tarot_draw + 1,
            VoucherId::Magic_Trick => self.extra_shop_slots = self.extra_shop_slots + 1,
            VoucherId::Illusion => self.extra_shop_slots = self.extra_shop_slots + 1,
            VoucherId::Blank => self.joker_slot_bonus = self.joker_slot_bonus + 1,
            VoucherId::BlankPlus => self.joker_slot_bonus = self.joker_slot_bonus + 1,
            VoucherId::Antimatter => self.joker_slot_bonus = self.joker_slot_bonus + 1,
            VoucherId::Antimatter_Plus => self.joker_slot_bonus = self.joker_slot_bonus + 1,
            VoucherId::Hieroglyph => {
                self.ante_reduction = self.ante_reduction + 1;
                self.extra_hands = self.extra_hands - 1;
            },
            VoucherId::Petroglyph => {
                self.ante_reduction = self.ante_reduction + 1;
                self.extra_discards = self.extra_discards - 1;
            },
            _ => {},
        }
    }

    /// A shop price after the voucher price cut, rounded up.
    pub fn apply_discount(&self, base_price: i64) -> (r: i64)
        requires
            self.well_formed(),
        ensures
            r == discounted_price(base_price as int, self.discount_rate as int),
            base_price >= 0 ==> 0 <= r <= base_price,
    {
        proof {
            lemma_counts_at_most_one(self.owned@);
            assert(0 <= voucher_count(self.owned@, VoucherId::ClearanceSale) <= 1);
            assert(0 <= voucher_count(self.owned@, VoucherId::Liquidation) <= 1);
        }
        assert(0 <= self.discount_rate <= 50);
        let keep: i128 = (100 - self.discount_rate) as i128;
        assert(-0x8000_0000_0000_0000 * 100 <= (base_price as i128) * keep <= 0x7fff_ffff_ffff_ffff * 100)
            by (nonlinear_arith)
            requires
                50 <= keep <= 100,
                -0x8000_0000_0000_0000 <= base_price <= 0x7fff_ffff_ffff_ffff,
        ;
        let x: i128 = (base_price as i128) * keep;
        if x >= 0 {
            assert(x <= base_price * 100) by (nonlinear_arith)
                requires
                    x == base_price * keep,
                    50 <= keep <= 100,
                    x >= 0,
            ;
            let r: i128 = (x + 99) / 100;
            assert(r <= base_price) by (nonlinear_arith)
                requires
                    x <= base_price * 100,
                    x >= 0,
                    r == (x + 99) / 100,
            ;
            r as i64
        } else {
            assert(x >= base_price * 100) by (nonlinear_arith)
                requires
                    x == base_price * keep,
                    50 <= keep <= 100,
                    x < 0,
            ;
            let r: i128 = -((-x) / 100);
            assert(base_price <= r <= 0) by (nonlinear_arith)
                requires
                    x >= base_price * 100,
                    x < 0,
                    r == -((-x) / 100),
            ;
            r as i64
        }
    }

    /// Reroll price after the voucher cut, never below zero.
    pub fn actual_reroll_cost(&self, base_cost: i64) -> (r: i64)
        requires
            i64::MIN <= base_cost - self.reroll_discount <= i64::MAX,
        ensures
            r == (if base_cost - self.reroll_discount > 0 { base_cost - self.reroll_discount } else { 0 }),
    {
        let c = base_cost - self.reroll_discount;
        if c > 0 {
            c
        } else {
            0
        }
    }

    /// Whether a voucher is owned.
    pub fn has(&self, voucher: VoucherId) -> (r: bool)
        ensures
            r == self.owned@.contains(voucher),
    {
        holds(self.owned.as_slice(), voucher)
    }
}

/// Pushing `v` adds one occurrence of `v` and leaves the other counts alone.
proof fn lemma_push_counts(s: Seq<VoucherId>, v: VoucherId)
    ensures
        forall|w: VoucherId| #[trigger] voucher_count(s.push(v), w) == voucher_count(s, w) + if w == v {
            1int
        } else {
            0int
        },
{
    assert(s.push(v).drop_last() =~= s);
}

/// Pushing onto a sequence keeps what it held and adds the new element.
proof fn lemma_push_keeps(s: Seq<VoucherId>, x: VoucherId)
    ensures
        s.push(x).contains(x),
        forall|y: VoucherId| s.contains(y) ==> #[trigger] s.push(x).contains(y),
{
    assert(s.push(x)[s.len() as int] == x);
    assert forall|y: VoucherId| s.contains(y) implies #[trigger] s.push(x).contains(y) by {
        let k = choose|k: int| 0 <= k < s.len() && s[k] == y;
        assert(s.push(x)[k] == y);
    }
}

/// A voucher not in `s` occurs zero times.
proof fn lemma_count_absent(s: Seq<VoucherId>, v: VoucherId)
    requires
        !s.contains(v),
    ensures
        voucher_count(s, v) == 0,
    decreases s.len(),
{
    if s.len() > 0 {
        assert(!s.drop_last().contains(v)) by {
            if s.drop_last().contains(v) {
                let k = choose|k: int| 0 <= k < s.drop_last().len() && s.drop_last()[k] == v;
                assert(s[k] == v);
            }
        }
        assert(s.last() != v) by {
            assert(s[s.len() - 1] == s.last());
        }
        lemma_count_absent(s.drop_last(), v);
    }
}

/// In a sequence without repeats every voucher occurs at most once.
proof fn lemma_counts_at_most_one(s: Seq<VoucherId>)
    requires
        forall|i: int, j: int| 0 <= i < j < s.len() ==> s[i] != s[j],
    ensures
        forall|v: VoucherId| 0 <= #[trigger] voucher_count(s, v) <= 1,
    decreases s.len(),
{
    if s.len() > 0 {
        let t = s.drop_last();
        lemma_counts_at_most_one(t);
        assert forall|v: VoucherId| 0 <= #[trigger] voucher_count(s, v) <= 1 by {
            assert(voucher_count(s, v) == voucher_count(t, v) + if s.last() == v { 1int } else { 0int });
            assert(0 <= voucher_count(t, v) <= 1);
            if s.last() == v {
                assert(!t.contains(v)) by {
                    if t.contains(v) {
                        let k = choose|k: int| 0 <= k < t.len() && t[k] == v;
                        assert(s[k] == s[s.len() - 1]);
                    }
                }
                lemma_count_absent(t, v);
            }
        }
    }
}

/// Voucher indices identify vouchers.
pub proof fn lemma_voucher_index_injective(a: VoucherId, b: VoucherId)
    requires
        voucher_index(a) == voucher_index(b),
    ensures
        a == b,
{
}

/// Upgrade and prerequisite are inverse: `u` upgrades `b` exactly when `b` is `u`'s prerequisite,
/// and only base vouchers have upgrades.
pub proof fn lemma_upgrade_prerequisite_inverse(b: VoucherId, u: VoucherId)
    ensures
        (voucher_upgrade(b) == Some(u)) <==> (voucher_prerequisite(u) == Some(b)),
        voucher_upgrade(b) is Some <==> is_base_voucher(b),
        voucher_prerequisite(u) is None <==> is_base_voucher(u),
{
}

} // verus!
