//! Tags: rewards for skipping a blind.

use vstd::prelude::*;

use rand::rngs::StdRng;

use crate::rng::choose_from;

verus! {

/// Number of tags.
pub const TAG_COUNT: usize = 25;

/// Tag kind.
#[derive(Clone, Copy, Debug, PartialEq, Eq, Structural)]
pub enum TagId {
    UncommonTag,
    RareTag,
    NegativeTag,
    FoilTag,
    HolographicTag,
    PolychromeTag,
    InvestmentTag,
    VoucherTag,
    BossTag,
    StandardTag,
    BuffoonTag,
    MeteorTag,
    EtherealTag,
    CelestialTag,
    CouponTag,
    DoubleTag,
    JuggleTag,
    D6Tag,
    TopUpTag,
    SpeedTag,
    OrbitalTag,
    EconomyTag,
    HandyTag,
    GarbageTag,
    CharmTag,
}

/// Position of a tag in `TagId::all`.
pub open spec fn tag_index(t: TagId) -> int {
    match t {
        TagId::UncommonTag => 0,
        TagId::RareTag => 1,
        TagId::NegativeTag => 2,
        TagId::FoilTag => 3,
        TagId::HolographicTag => 4,
        TagId::PolychromeTag => 5,
        TagId::InvestmentTag => 6,
        TagId::VoucherTag => 7,
        TagId::BossTag => 8,
        TagId::StandardTag => 9,
        TagId::BuffoonTag => 10,
        TagId::MeteorTag => 11,
        TagId::EtherealTag => 12,
        TagId::CelestialTag => 13,
        TagId::CouponTag => 14,
        TagId::DoubleTag => 15,
        TagId::JuggleTag => 16,
        TagId::D6Tag => 17,
        TagId::TopUpTag => 18,
        TagId::SpeedTag => 19,
        TagId::OrbitalTag => 20,
        TagId::EconomyTag => 21,
        TagId::HandyTag => 22,
        TagId::GarbageTag => 23,
        TagId::CharmTag => 24,
    }
}

/// Money a tag pays at once.
pub open spec fn tag_money(t: TagId) -> int {
    match t {
        TagId::SpeedTag => 25,
        TagId::EconomyTag => 10,
        TagId::HandyTag => 4,
        TagId::GarbageTag => 3,
        _ => 0,
    }
}

/// Whether a tag gives a free booster pack.
pub open spec fn tag_gives_pack(t: TagId) -> bool {
    match t {
        TagId::StandardTag | TagId::BuffoonTag | TagId::MeteorTag | TagId::EtherealTag | TagId::CelestialTag | TagId::CharmTag => true,
        _ => false,
    }
}

impl TagId {
    /// A random tag, each equally likely.
    pub fn random(rng: &mut StdRng) -> (r: TagId)
        ensures
            0 <= tag_index(r) < TAG_COUNT,
    {
        match choose_from(rng, Self::all()) {
            Some(t) => t,
            None => TagId::EconomyTag,
        }
    }

    /// Every tag, in index order.
    pub fn all() -> (r: &'static [TagId])
        ensures
            r@.len() == TAG_COUNT,
            forall|i: int| 0 <= i < TAG_COUNT ==> tag_index(#[trigger] r@[i]) == i,
    {
        let r: &'static [TagId] = &[
            TagId::UncommonTag,
            TagId::RareTag,
            TagId::NegativeTag,
            TagId::FoilTag,
            TagId::HolographicTag,
            TagId::PolychromeTag,
            TagId::InvestmentTag,
            TagId::VoucherTag,
            TagId::BossTag,
            TagId::StandardTag,
            TagId::BuffoonTag,
            TagId::MeteorTag,
            TagId::EtherealTag,
            TagId::CelestialTag,
            TagId::CouponTag,
            TagId::DoubleTag,
            TagId::JuggleTag,
            TagId::D6Tag,
            TagId::TopUpTag,
            TagId::SpeedTag,
            TagId::OrbitalTag,
            TagId::EconomyTag,
            TagId::HandyTag,
            TagId::GarbageTag,
            TagId::CharmTag,
        ];
        r
    }

    /// The tags most often offered.
    pub fn common() -> (r: &'static [TagId])
        ensures
            r@ == seq![TagId::EconomyTag, TagId::CouponTag, TagId::D6Tag, TagId::StandardTag, TagId::BuffoonTag, TagId::InvestmentTag, TagId::HandyTag, TagId::GarbageTag],
    {
        let r: &'static [TagId] = &[
            TagId::EconomyTag,
            TagId::CouponTag,
            TagId::D6Tag,
            TagId::StandardTag,
            TagId::BuffoonTag,
            TagId::InvestmentTag,
            TagId::HandyTag,
            TagId::GarbageTag,
        ];
        r
    }

    /// Money paid at once when the tag is used.
    pub fn immediate_money(&self) -> (r: i64)
        ensures
            r == tag_money(*self),
    {
        match self {
            TagId::SpeedTag => 25,
            TagId::EconomyTag => 10,
            TagId::HandyTag => 4,
            TagId::GarbageTag => 3,
            _ => 0,
        }
    }

    pub fn to_index(&self) -> (r: usize)
        ensures
            r == tag_index(*self),
    {
        match self {
            TagId::UncommonTag => 0,
            TagId::RareTag => 1,
            TagId::NegativeTag => 2,
            TagId::FoilTag => 3,
            TagId::HolographicTag => 4,
            TagId::PolychromeTag => 5,
            TagId::InvestmentTag => 6,
            TagId::VoucherTag => 7,
            TagId::BossTag => 8,
            TagId::StandardTag => 9,
            TagId::BuffoonTag => 10,
            TagId::MeteorTag => 11,
            TagId::EtherealTag => 12,
            TagId::CelestialTag => 13,
            TagId::CouponTag => 14,
            TagId::DoubleTag => 15,
            TagId::JuggleTag => 16,
            TagId::D6Tag => 17,
            TagId::TopUpTag => 18,
            TagId::SpeedTag => 19,
            TagId::OrbitalTag => 20,
            TagId::EconomyTag => 21,
            TagId::HandyTag => 22,
            TagId::GarbageTag => 23,
            TagId::CharmTag => 24,
        }
    }

    /// Whether the tag gives a free booster pack.
    pub fn gives_free_pack(&self) -> (r: bool)
        ensures
            r == tag_gives_pack(*self),
    {
        matches!(self, TagId::StandardTag | TagId::BuffoonTag | TagId::MeteorTag | TagId::EtherealTag | TagId::CelestialTag | TagId::CharmTag)
    }

    /// Whether the tag doubles the next tag (Double Tag only).
    pub fn doubles_next_tag(&self) -> (r: bool)
        ensures
            r == (*self == TagId::DoubleTag),
    {
        matches!(self, TagId::DoubleTag)
    }
}

/// A tag held by the player.
#[derive(Clone, Debug)]
pub struct Tag {
    pub id: TagId,
    pub used: bool,
}

impl Tag {
    pub fn new(id: TagId) -> (r: Tag)
        ensures
            r.id == id,
            !r.used,
    {
        Tag { id, used: false }
    }

    /// Uses the tag: pays its money the first time, nothing after.
    pub fn use_tag(&mut self) -> (r: i64)
        ensures
            final(self).id == old(self).id,
            final(self).used,
            r == (if old(self).used { 0 } else { tag_money(old(self).id) }),
    {
        if self.used {
            return 0;
        }
        self.used = true;
        self.id.immediate_money()
    }
}

/// Tag positions identify tags.
pub proof fn lemma_tag_index_injective(a: TagId, b: TagId)
    requires
        tag_index(a) == tag_index(b),
    ensures
        a == b,
{
}

} // verus!
