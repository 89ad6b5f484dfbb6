//! The joker shop: jokers for sale at a price, bought one by one, rerolled for a rising fee.

use vstd::prelude::*;

use rand::rngs::StdRng;

use crate::joker::{available_jokers_upto, joker_base_cost, joker_rarity, JokerId, JOKER_COUNT};
use crate::constants::{SHOP_JOKER_COUNT, SHOP_PACK_COUNT};
use crate::rng::{choose_from, gen_below};
use crate::service::{booster_cost, BoosterPack};
use crate::stakes::{stake_eternal, stake_perishable, Stake};
use crate::vouchers::{can_buy, VoucherId};

verus! {

/// A joker for sale.
#[derive(Clone, Copy, Debug, PartialEq, Eq, Structural)]
pub struct ShopItem {
    pub joker: JokerId,
    /// What the joker sells back for once bought: half its price.
    pub sell_value: i64,
    pub cost: i64,
    /// Cannot be sold (Black Stake and above).
    pub is_eternal: bool,
    /// Expires after five rounds (Orange Stake and above).
    pub is_perishable: bool,
}

/// Half a price, rounded toward zero.
pub open spec fn half_price(cost: int) -> int {
    if cost >= 0 {
        cost / 2
    } else {
        -((-cost) / 2)
    }
}

impl ShopItem {
    /// A joker for sale at `cost`, selling back for half of it.
    pub fn new(id: JokerId, cost: i64) -> (r: ShopItem)
        ensures
            r.joker == id,
            r.cost == cost,
            r.sell_value == half_price(cost as int),
            !r.is_eternal,
            !r.is_perishable,
    {
        ShopItem { joker: id, sell_value: cost / 2, cost, is_eternal: false, is_perishable: false }
    }
}

/// The joker shop.
#[derive(Clone, Debug)]
pub struct Shop {
    pub items: Vec<ShopItem>,
    /// Price of the first reroll.
    pub reroll_cost: i64,
    /// Rerolls since the last reset; each makes the next one $1 dearer.
    pub reroll_count: i32,
}

/// A price for a joker: its base cost plus $0-2 (common), $1-3 (uncommon) or $2-4 (rare);
/// other rarities sell at base cost.
pub open spec fn fair_price(j: JokerId, cost: int) -> bool {
    let base = joker_base_cost(j);
    let rarity = joker_rarity(j);
    if rarity == 1 {
        base <= cost <= base + 2
    } else if rarity == 2 {
        base + 1 <= cost <= base + 3
    } else if rarity == 3 {
        base + 2 <= cost <= base + 4
    } else {
        cost == base
    }
}

/// An item the shop can stock: an offered joker at a fair price that sells back for half.
pub open spec fn stocked(item: ShopItem) -> bool {
    &&& available_jokers_upto(JOKER_COUNT as int).contains(item.joker)
    &&& fair_price(item.joker, item.cost as int)
    &&& item.sell_value == half_price(item.cost as int)
    &&& !item.is_eternal
    &&& !item.is_perishable
}

/// `after` is `before` with stake stickers perhaps added: eternal only from Black Stake on,
/// perishable only from Orange Stake on and never on an eternal joker.
pub open spec fn stickered(before: ShopItem, after: ShopItem, stake: Stake) -> bool {
    &&& after.joker == before.joker
    &&& after.cost == before.cost
    &&& after.sell_value == before.sell_value
    &&& (before.is_eternal ==> after.is_eternal)
    &&& (after.is_eternal ==> before.is_eternal || stake_eternal(stake))
    &&& (before.is_perishable ==> after.is_perishable)
    &&& (after.is_perishable ==> before.is_perishable || (stake_perishable(stake) && !after.is_eternal))
}

impl Shop {
    /// An empty shop whose first reroll costs $5.
    pub fn new() -> (r: Shop)
        ensures
            r.items@.len() == 0,
            r.reroll_cost == 5,
            r.reroll_count == 0,
    {
        Shop { items: Vec::new(), reroll_cost: 5, reroll_count: 0 }
    }

    /// Restocks the shop with `item_count` random jokers at fair prices.
    pub fn refresh(&mut self, rng: &mut StdRng, item_count: usize)
        ensures
            final(self).reroll_cost == old(self).reroll_cost,
            final(self).reroll_count == old(self).reroll_count,
            final(self).items@.len() == item_count,
            forall|i: int| 0 <= i < item_count ==> stocked(#[trigger] final(self).items@[i]),
    {
        self.items.clear();
        let available = JokerId::all_available();
        let mut k: usize = 0;
        while k < item_count
            invariant
                k <= item_count,
                self.reroll_cost == old(self).reroll_cost,
                self.reroll_count == old(self).reroll_count,
                available@ == available_jokers_upto(JOKER_COUNT as int),
                self.items@.len() == k,
                forall|i: int| 0 <= i < k ==> stocked(#[trigger] self.items@[i]),
            decreases item_count - k,
        {
            match choose_from(rng, available.as_slice()) {
                Some(id) => {
                    let base_cost = id.base_cost();
                    let cost: i64 = match id.rarity() {
                        1 => base_cost + gen_below(rng, 3) as i64,
                        2 => base_cost + 1 + gen_below(rng, 3) as i64,
                        3 => base_cost + 2 + gen_below(rng, 3) as i64,
                        _ => base_cost,
                    };
                    self.items.push(ShopItem::new(id, cost));
                },
                None => {
                    proof {
                        lemma_available_nonempty();
                    }
                },
            }
            k = k + 1;
        }
    }

    /// Rerolls the shop: pays the current reroll price (returned), makes the next reroll $1
    /// dearer, and restocks `item_count` jokers.
    pub fn reroll(&mut self, rng: &mut StdRng, item_count: usize) -> (r: i64)
        requires
            old(self).reroll_count < i32::MAX,
            i64::MIN <= old(self).reroll_cost + old(self).reroll_count <= i64::MAX,
        ensures
            r == old(self).reroll_cost + old(self).reroll_count,
            final(self).reroll_count == old(self).reroll_count + 1,
            final(self).reroll_cost == old(self).reroll_cost,
            final(self).items@.len() == item_count,
            forall|i: int| 0 <= i < item_count ==> stocked(#[trigger] final(self).items@[i]),
    {
        let cost = self.current_reroll_cost();
        self.reroll_count = self.reroll_count + 1;
        self.refresh(rng, item_count);
        cost
    }

    /// Price of the next reroll: the first reroll's price plus $1 per reroll since the reset.
    pub fn current_reroll_cost(&self) -> (r: i64)
        requires
            i64::MIN <= self.reroll_cost + self.reroll_count <= i64::MAX,
        ensures
            r == self.reroll_cost + self.reroll_count,
    {
        self.reroll_cost + self.reroll_count as i64
    }

    /// Takes the item at `index` out of the shop, if there is one.
    pub fn buy(&mut self, index: usize) -> (r: Option<ShopItem>)
        ensures
            final(self).reroll_cost == old(self).reroll_cost,
            final(self).reroll_count == old(self).reroll_count,
            index < old(self).items@.len() ==> r == Some(old(self).items@[index as int])
                && final(self).items@ == old(self).items@.remove(index as int),
            index >= old(self).items@.len() ==> r is None && final(self).items@ == old(self).items@,
    {
        if index < self.items.len() {
            Some(self.items.remove(index))
        } else {
            None
        }
    }

    /// Starts a new round of rerolls at the first reroll's price.
    pub fn reset_reroll(&mut self)
        ensures
            final(self).reroll_count == 0,
            final(self).reroll_cost == old(self).reroll_cost,
            final(self).items@ == old(self).items@,
    {
        self.reroll_count = 0;
    }
}

impl Default for Shop {
    fn default() -> (r: Shop)
        ensures
            r.items@.len() == 0,
            r.reroll_cost == 5,
            r.reroll_count == 0,
    {
        Shop::new()
    }
}

impl Shop {
    /// Stake stickers on the stock: from Black Stake on each joker is eternal with chance
    /// 3 in 10; from Orange Stake on each joker that is not eternal is perishable with chance
    /// 3 in 10.
    pub fn apply_stake_stickers(&mut self, stake: Stake, rng: &mut StdRng)
        ensures
            final(self).reroll_cost == old(self).reroll_cost,
            final(self).reroll_count == old(self).reroll_count,
            final(self).items@.len() == old(self).items@.len(),
            forall|i: int|
                0 <= i < old(self).items@.len() ==> stickered(
                    old(self).items@[i],
                    #[trigger] final(self).items@[i],
                    stake,
                ),
    {
        let ghost start = self.items@;
        if stake.has_eternal_jokers() {
            let mut i: usize = 0;
            while i < self.items.len()
                invariant
                    i <= self.items@.len() == start.len(),
                    stake_eternal(stake),
                    self.reroll_cost == old(self).reroll_cost,
                    self.reroll_count == old(self).reroll_count,
                    forall|k: int| 0 <= k < start.len() ==> stickered(start[k], #[trigger] self.items@[k], stake),
                    forall|k: int| 0 <= k < start.len() ==> #[trigger] self.items@[k].is_perishable == start[k].is_perishable,
                decreases self.items@.len() - i,
            {
                if gen_below(rng, 10) < 3 {
                    let mut item = self.items[i];
                    item.is_eternal = true;
                    self.items.set(i, item);
                }
                i = i + 1;
            }
        }
        if stake.has_perishable_jokers() {
            let ghost mid = self.items@;
            let mut i: usize = 0;
            while i < self.items.len()
                invariant
                    i <= self.items@.len() == start.len(),
                    stake_perishable(stake),
                    self.reroll_cost == old(self).reroll_cost,
                    self.reroll_count == old(self).reroll_count,
                    forall|k: int| 0 <= k < start.len() ==> stickered(start[k], #[trigger] self.items@[k], stake),
                decreases self.items@.len() - i,
            {
                if !self.items[i].is_eternal && gen_below(rng, 10) < 3 {
                    let mut item = self.items[i];
                    item.is_perishable = true;
                    self.items.set(i, item);
                }
                i = i + 1;
            }
        }
    }
}

/// Restocks the shop for a new visit: fresh jokers with stake stickers, a voucher that can be
/// bought (none when none can), and the booster packs. Returns the voucher and the packs.
pub fn refresh_shop(shop: &mut Shop, stake: Stake, owned_vouchers: &[VoucherId], rng: &mut StdRng) -> (r: (
    Option<VoucherId>,
    Vec<BoosterPack>,
))
    ensures
        final(shop).reroll_cost == old(shop).reroll_cost,
        final(shop).reroll_count == old(shop).reroll_count,
        final(shop).items@.len() == SHOP_JOKER_COUNT,
        forall|i: int|
            0 <= i < SHOP_JOKER_COUNT ==> {
                let item = #[trigger] final(shop).items@[i];
                &&& available_jokers_upto(JOKER_COUNT as int).contains(item.joker)
                &&& fair_price(item.joker, item.cost as int)
                &&& item.sell_value == half_price(item.cost as int)
                &&& (item.is_eternal ==> stake_eternal(stake))
                &&& (item.is_perishable ==> stake_perishable(stake) && !item.is_eternal)
            },
        r.0 is None <==> (forall|v: VoucherId| !can_buy(owned_vouchers@, v)),
        r.0 matches Some(v) ==> can_buy(owned_vouchers@, v),
        r.1@.len() == SHOP_PACK_COUNT,
        forall|i: int| 0 <= i < SHOP_PACK_COUNT ==> (#[trigger] r.1@[i]).cost == booster_cost(r.1@[i].pack_type),
{
    shop.refresh(rng, SHOP_JOKER_COUNT);
    shop.apply_stake_stickers(stake, rng);
    let voucher = VoucherId::random_available(rng, owned_vouchers);
    let mut packs: Vec<BoosterPack> = Vec::new();
    let mut k: usize = 0;
    while k < SHOP_PACK_COUNT
        invariant
            k <= SHOP_PACK_COUNT,
            packs@.len() == k,
            forall|i: int| 0 <= i < k ==> (#[trigger] packs@[i]).cost == booster_cost(packs@[i].pack_type),
        decreases SHOP_PACK_COUNT - k,
    {
        packs.push(BoosterPack::random(rng));
        k = k + 1;
    }
    (voucher, packs)
}

/// Rerolls the shop's jokers (vouchers and packs stay): the next reroll becomes $1 dearer and
/// fresh jokers with stake stickers are stocked.
pub fn reroll_shop(shop: &mut Shop, stake: Stake, rng: &mut StdRng)
    requires
        old(shop).reroll_count < i32::MAX,
    ensures
        final(shop).reroll_cost == old(shop).reroll_cost,
        final(shop).reroll_count == old(shop).reroll_count + 1,
        final(shop).items@.len() == SHOP_JOKER_COUNT,
        forall|i: int|
            0 <= i < SHOP_JOKER_COUNT ==> {
                let item = #[trigger] final(shop).items@[i];
                &&& available_jokers_upto(JOKER_COUNT as int).contains(item.joker)
                &&& fair_price(item.joker, item.cost as int)
                &&& item.sell_value == half_price(item.cost as int)
                &&& (item.is_eternal ==> stake_eternal(stake))
                &&& (item.is_perishable ==> stake_perishable(stake) && !item.is_eternal)
            },
{
    shop.reroll_count = shop.reroll_count + 1;
    shop.refresh(rng, SHOP_JOKER_COUNT);
    shop.apply_stake_stickers(stake, rng);
}

/// The offered jokers are not none: the first joker is offered.
proof fn lemma_available_nonempty()
    ensures
        available_jokers_upto(JOKER_COUNT as int).len() > 0,
{
    crate::joker::lemma_rarity_pools_nonempty(1);
    crate::joker::lemma_rarity_pool_members(
        available_jokers_upto(JOKER_COUNT as int),
        1,
        crate::joker::jokers_of_rarity(available_jokers_upto(JOKER_COUNT as int), 1)[0],
    );
    assert(crate::joker::jokers_of_rarity(available_jokers_upto(JOKER_COUNT as int), 1).contains(
        crate::joker::jokers_of_rarity(available_jokers_upto(JOKER_COUNT as int), 1)[0],
    ));
}

/// Jokers that weigh most in a shop's quality: strong x-mult jokers, boss killers and strong
/// money makers, by observation index.
pub open spec fn high_value_index(joker_id: u8) -> bool {
    seq![97u8, 120, 129, 23, 64, 15, 16, 17, 68, 118, 45, 46, 47, 48].contains(joker_id)
}

/// Whether a joker (by observation index) is a strong x-mult joker, a boss killer or a strong
/// money maker.
pub fn is_high_value_joker(joker_id: u8) -> (r: bool)
    ensures
        r == high_value_index(joker_id),
{
    let r = matches!(joker_id, 97 | 120 | 129 | 23 | 64 | 15 | 16 | 17 | 68 | 118 | 45 | 46 | 47 | 48);
    proof {
        let s = seq![97u8, 120, 129, 23, 64, 15, 16, 17, 68, 118, 45, 46, 47, 48];
        if r {
            assert(s.contains(joker_id)) by {
                if joker_id == 97 { assert(s[0] == joker_id); }
                else if joker_id == 120 { assert(s[1] == joker_id); }
                else if joker_id == 129 { assert(s[2] == joker_id); }
                else if joker_id == 23 { assert(s[3] == joker_id); }
                else if joker_id == 64 { assert(s[4] == joker_id); }
                else if joker_id == 15 { assert(s[5] == joker_id); }
                else if joker_id == 16 { assert(s[6] == joker_id); }
                else if joker_id == 17 { assert(s[7] == joker_id); }
                else if joker_id == 68 { assert(s[8] == joker_id); }
                else if joker_id == 118 { assert(s[9] == joker_id); }
                else if joker_id == 45 { assert(s[10] == joker_id); }
                else if joker_id == 46 { assert(s[11] == joker_id); }
                else if joker_id == 47 { assert(s[12] == joker_id); }
                else { assert(s[13] == joker_id); }
            }
        }
    }
    r
}

} // verus!
