//! Which actions are legal in a game state: the action mask handed to the agent, one flag
//! per action slot.

use vstd::prelude::*;

use crate::blinds::{BlindType, Stage};
use crate::constants::{
    ACTION_MASK_SIZE, ACTION_TYPE_COUNT, CONSUMABLE_SLOT_COUNT, HAND_SIZE, JOKER_SLOTS, SHOP_JOKER_COUNT,
    SHOP_PACK_COUNT,
};
use crate::service::BoosterPack;
use crate::shop::Shop;
use crate::vouchers::VoucherId;

verus! {

/// What the legal actions depend on.
pub struct ActionState<'a> {
    pub stage: Stage,
    pub blind_type: Option<BlindType>,
    pub plays_left: i32,
    pub discards_left: i32,
    pub money: i64,
    pub shop: &'a Shop,
    pub joker_count: usize,
    pub joker_slot_limit: usize,
    pub consumable_count: usize,
    pub shop_voucher: Option<VoucherId>,
    pub shop_packs: &'a [BoosterPack],
}

/// What an action slot of the mask stands for.
pub enum MaskSlot {
    /// One of the action types: select, play, discard, select blind, cash out, buy joker,
    /// next round, reroll, sell joker, skip blind, use consumable, buy voucher, buy pack.
    ActionType(usize),
    /// Leaving or taking one of the hand cards.
    HandCard,
    /// Taking the blind that comes up.
    TakeBlind,
    /// Taking the Small or the Big blind.
    TakeBlindOf(BlindType),
    /// Buying shop joker `k`.
    BuyShopJoker(usize),
    /// Selling owned joker `k`.
    SellOwnedJoker(usize),
    /// Rerolling the shop.
    RerollShop,
    /// Skipping the blind.
    SkipBlind,
    /// Using held consumable `k`.
    UseHeldConsumable(usize),
    /// Buying the offered voucher.
    BuyOfferedVoucher,
    /// Buying shop pack `k`.
    BuyShopPack(usize),
}

/// The layout of the mask: the action types first, then two slots per hand card, the three
/// blind choices, the shop jokers, the owned jokers, reroll, skip, the held consumables, the
/// voucher and the shop packs.
pub open spec fn mask_slot(i: int) -> MaskSlot {
    if i < 13 {
        MaskSlot::ActionType(i as usize)
    } else if i < 29 {
        MaskSlot::HandCard
    } else if i == 29 {
        MaskSlot::TakeBlind
    } else if i == 30 {
        MaskSlot::TakeBlindOf(BlindType::Small)
    } else if i == 31 {
        MaskSlot::TakeBlindOf(BlindType::Big)
    } else if i < 34 {
        MaskSlot::BuyShopJoker((i - 32) as usize)
    } else if i < 39 {
        MaskSlot::SellOwnedJoker((i - 34) as usize)
    } else if i == 39 {
        MaskSlot::RerollShop
    } else if i == 40 {
        MaskSlot::SkipBlind
    } else if i < 43 {
        MaskSlot::UseHeldConsumable((i - 41) as usize)
    } else if i == 43 {
        MaskSlot::BuyOfferedVoucher
    } else {
        MaskSlot::BuyShopPack((i - 44) as usize)
    }
}

/// The shop can be rerolled: in the shop, with the reroll's price at hand.
pub open spec fn can_reroll(s: ActionState) -> bool {
    s.stage == Stage::Shop && s.shop.reroll_cost + s.shop.reroll_count <= s.money
}

/// The blind can be skipped: before a blind that is not the boss.
pub open spec fn can_skip(s: ActionState) -> bool {
    s.stage == Stage::PreBlind && s.blind_type != Some(BlindType::Boss)
}

/// Whether an action type is open: selecting cards in a blind, playing or discarding while
/// some are left, choosing a blind before one, cashing out after one, the shop's actions
/// in the shop (selling with a joker owned, the voucher when one is offered), skipping a
/// blind that is not the boss, and using a consumable in a blind or the shop with one held.
pub open spec fn action_type_open(s: ActionState, t: usize) -> bool {
    let in_blind = s.stage == Stage::Blind;
    let in_shop = s.stage == Stage::Shop;
    match t {
        0 => in_blind,
        1 => in_blind && s.plays_left > 0,
        2 => in_blind && s.discards_left > 0,
        3 => s.stage == Stage::PreBlind,
        4 => s.stage == Stage::PostBlind,
        5 | 6 | 12 => in_shop,
        7 => can_reroll(s),
        8 => in_shop && s.joker_count > 0,
        9 => can_skip(s),
        10 => (in_blind || in_shop) && s.consumable_count > 0,
        11 => in_shop && s.shop_voucher is Some,
        _ => false,
    }
}

/// Whether what a slot stands for can be done. Buying asks for the price at hand (a joker
/// also for a free slot; every voucher costs $10); selling, using and buying name an item
/// that exists.
pub open spec fn slot_open(s: ActionState, slot: MaskSlot) -> bool {
    let in_shop = s.stage == Stage::Shop;
    match slot {
        MaskSlot::ActionType(t) => action_type_open(s, t),
        MaskSlot::HandCard => s.stage == Stage::Blind,
        MaskSlot::TakeBlind => s.stage == Stage::PreBlind,
        MaskSlot::TakeBlindOf(b) => s.stage == Stage::PreBlind && s.blind_type == Some(b),
        MaskSlot::BuyShopJoker(k) => in_shop && k < s.shop.items@.len() && s.shop.items@[k as int].cost <= s.money
            && s.joker_count < s.joker_slot_limit,
        MaskSlot::SellOwnedJoker(k) => in_shop && k < s.joker_count,
        MaskSlot::RerollShop => can_reroll(s),
        MaskSlot::SkipBlind => can_skip(s),
        MaskSlot::UseHeldConsumable(k) => (s.stage == Stage::Blind || in_shop) && k < s.consumable_count,
        MaskSlot::BuyOfferedVoucher => in_shop && s.shop_voucher is Some && 10 <= s.money,
        MaskSlot::BuyShopPack(k) => in_shop && k < s.shop_packs@.len() && s.shop_packs@[k as int].cost <= s.money,
    }
}

/// Whether action slot `i` is legal (`i` below the mask size).
pub open spec fn legal_action(s: ActionState, i: int) -> bool {
    slot_open(s, mask_slot(i))
}

/// What a legal slot asks of the state: playing and discarding need one left, buying a
/// joker needs it in the shop, its price at hand and a free joker slot, selling and using
/// need the item, rerolling needs its price, skipping is never offered before the boss,
/// the voucher needs $10, a pack its price.
pub proof fn lemma_legal_slot_needs(s: ActionState, i: int)
    requires
        0 <= i < ACTION_MASK_SIZE,
        legal_action(s, i),
    ensures
        i == 1 ==> s.stage == Stage::Blind && s.plays_left > 0,
        i == 2 ==> s.stage == Stage::Blind && s.discards_left > 0,
        13 <= i < 29 ==> s.stage == Stage::Blind,
        32 <= i < 34 ==> {
            &&& s.stage == Stage::Shop
            &&& i - 32 < s.shop.items@.len()
            &&& s.shop.items@[i - 32].cost <= s.money
            &&& s.joker_count < s.joker_slot_limit
        },
        34 <= i < 39 ==> s.stage == Stage::Shop && i - 34 < s.joker_count,
        i == 7 || i == 39 ==> s.stage == Stage::Shop && s.shop.reroll_cost + s.shop.reroll_count <= s.money,
        i == 9 || i == 40 ==> s.stage == Stage::PreBlind && s.blind_type != Some(BlindType::Boss),
        41 <= i < 43 ==> (s.stage == Stage::Blind || s.stage == Stage::Shop) && i - 41 < s.consumable_count,
        i == 43 ==> s.stage == Stage::Shop && s.shop_voucher is Some && 10 <= s.money,
        44 <= i < 46 ==> {
            &&& s.stage == Stage::Shop
            &&& i - 44 < s.shop_packs@.len()
            &&& s.shop_packs@[i - 44].cost <= s.money
        },
{
}

/// The action mask of a state: nothing is legal once the run is done; otherwise one flag per
/// action slot by `legal_action`.
pub fn action_mask_from_state(state: &ActionState, done: bool) -> (r: Vec<bool>)
    requires
        i64::MIN <= state.shop.reroll_cost + state.shop.reroll_count <= i64::MAX,
    ensures
        r@.len() == ACTION_MASK_SIZE,
        forall|i: int| 0 <= i < ACTION_MASK_SIZE ==> #[trigger] r@[i] == (!done && legal_action(*state, i)),
        done ==> forall|i: int| 0 <= i < ACTION_MASK_SIZE ==> !#[trigger] r@[i],
        r@[0] == (!done && state.stage == Stage::Blind),
        r@[3] == (!done && state.stage == Stage::PreBlind),
        r@[4] == (!done && state.stage == Stage::PostBlind),
        r@[5] == (!done && state.stage == Stage::Shop),
        r@[6] == (!done && state.stage == Stage::Shop),
        r@[12] == (!done && state.stage == Stage::Shop),
        r@[8] == (!done && state.stage == Stage::Shop && state.joker_count > 0),
        r@[10] == (!done && (state.stage == Stage::Blind || state.stage == Stage::Shop) && state.consumable_count > 0),
        r@[11] == (!done && state.stage == Stage::Shop && state.shop_voucher is Some),
        forall|i: int| 13 <= i < 29 ==> #[trigger] r@[i] == (!done && state.stage == Stage::Blind),
        r@[29] == (!done && state.stage == Stage::PreBlind),
        r@[30] == (!done && state.stage == Stage::PreBlind && state.blind_type == Some(BlindType::Small)),
        r@[31] == (!done && state.stage == Stage::PreBlind && state.blind_type == Some(BlindType::Big)),
        r@[1] == (!done && state.stage == Stage::Blind && state.plays_left > 0),
        r@[2] == (!done && state.stage == Stage::Blind && state.discards_left > 0),
        forall|k: int|
            0 <= k < 2 ==> #[trigger] r@[32 + k] == (!done && state.stage == Stage::Shop && k
                < state.shop.items@.len() && state.shop.items@[k].cost <= state.money && state.joker_count
                < state.joker_slot_limit),
        forall|k: int|
            0 <= k < 5 ==> #[trigger] r@[34 + k] == (!done && state.stage == Stage::Shop && k
                < state.joker_count),
        r@[39] == r@[7],
        r@[7] == (!done && state.stage == Stage::Shop && state.shop.reroll_cost + state.shop.reroll_count
            <= state.money),
        r@[40] == r@[9],
        r@[9] == (!done && state.stage == Stage::PreBlind && state.blind_type != Some(BlindType::Boss)),
        forall|k: int|
            0 <= k < 2 ==> #[trigger] r@[41 + k] == (!done && (state.stage == Stage::Blind || state.stage
                == Stage::Shop) && k < state.consumable_count),
        r@[43] == (!done && state.stage == Stage::Shop && state.shop_voucher is Some && 10 <= state.money),
        forall|k: int|
            0 <= k < 2 ==> #[trigger] r@[44 + k] == (!done && state.stage == Stage::Shop && k
                < state.shop_packs@.len() && state.shop_packs@[k].cost <= state.money),
{
    let mut data: Vec<bool> = Vec::new();
    if done {
        let mut k: usize = 0;
        while k < 46
            invariant
                k <= 46,
                data@.len() == k,
                forall|i: int| 0 <= i < k ==> !#[trigger] data@[i],
            decreases 46 - k,
        {
            data.push(false);
            k = k + 1;
        }
        return data;
    }
    let in_blind = state.stage == Stage::Blind;
    let in_pre_blind = state.stage == Stage::PreBlind;
    let in_post_blind = state.stage == Stage::PostBlind;
    let in_shop = state.stage == Stage::Shop;
    let can_skip = in_pre_blind && state.blind_type != Some(BlindType::Boss);
    let can_reroll = in_shop && state.shop.current_reroll_cost() <= state.money;
    let has_consumables = state.consumable_count > 0;

    // Action types.
    data.push(in_blind);
    data.push(in_blind && state.plays_left > 0);
    data.push(in_blind && state.discards_left > 0);
    data.push(in_pre_blind);
    data.push(in_post_blind);
    data.push(in_shop);
    data.push(in_shop);
    data.push(can_reroll);
    data.push(in_shop && state.joker_count > 0);
    data.push(can_skip);
    data.push((in_blind || in_shop) && has_consumables);
    data.push(in_shop && state.shop_voucher.is_some());
    data.push(in_shop);
    assert(data@.len() == ACTION_TYPE_COUNT);

    // Card selection: leave or take each hand card.
    let mut k: usize = 0;
    while k < HAND_SIZE
        invariant
            k <= HAND_SIZE,
            data@.len() == 13 + 2 * k,
            forall|i: int| 0 <= i < 13 ==> #[trigger] data@[i] == legal_action(*state, i),
            forall|i: int| 13 <= i < 13 + 2 * k ==> #[trigger] data@[i] == in_blind,
            in_blind == (state.stage == Stage::Blind),
        decreases HAND_SIZE - k,
    {
        data.push(in_blind);
        data.push(in_blind);
        k = k + 1;
    }

    // Blind selection.
    data.push(in_pre_blind);
    data.push(in_pre_blind && state.blind_type == Some(BlindType::Small));
    data.push(in_pre_blind && state.blind_type == Some(BlindType::Big));

    // Buying a shop joker.
    let mut j: usize = 0;
    while j < SHOP_JOKER_COUNT
        invariant
            j <= SHOP_JOKER_COUNT,
            data@.len() == 32 + j,
            forall|i: int| 0 <= i < 32 + j ==> #[trigger] data@[i] == legal_action(*state, i),
            in_shop == (state.stage == Stage::Shop),
        decreases SHOP_JOKER_COUNT - j,
    {
        let can_buy = in_shop && j < state.shop.items.len() && state.shop.items[j].cost <= state.money
            && state.joker_count < state.joker_slot_limit;
        data.push(can_buy);
        j = j + 1;
    }

    // Selling a joker.
    let mut t: usize = 0;
    while t < JOKER_SLOTS
        invariant
            t <= JOKER_SLOTS,
            data@.len() == 34 + t,
            forall|i: int| 0 <= i < 34 + t ==> #[trigger] data@[i] == legal_action(*state, i),
            in_shop == (state.stage == Stage::Shop),
        decreases JOKER_SLOTS - t,
    {
        data.push(in_shop && t < state.joker_count);
        t = t + 1;
    }

    // Reroll and skip.
    data.push(can_reroll);
    data.push(can_skip);

    // Using a consumable.
    let mut c: usize = 0;
    while c < CONSUMABLE_SLOT_COUNT
        invariant
            c <= CONSUMABLE_SLOT_COUNT,
            data@.len() == 41 + c,
            forall|i: int| 0 <= i < 41 + c ==> #[trigger] data@[i] == legal_action(*state, i),
            in_shop == (state.stage == Stage::Shop),
            in_blind == (state.stage == Stage::Blind),
        decreases CONSUMABLE_SLOT_COUNT - c,
    {
        data.push((in_blind || in_shop) && c < state.consumable_count);
        c = c + 1;
    }

    // Buying the voucher.
    let can_buy_voucher = in_shop && match state.shop_voucher {
        Some(v) => v.cost() <= state.money,
        None => false,
    };
    data.push(can_buy_voucher);

    // Buying a pack.
    let mut p: usize = 0;
    while p < SHOP_PACK_COUNT
        invariant
            p <= SHOP_PACK_COUNT,
            data@.len() == 44 + p,
            forall|i: int| 0 <= i < 44 + p ==> #[trigger] data@[i] == legal_action(*state, i),
            in_shop == (state.stage == Stage::Shop),
        decreases SHOP_PACK_COUNT - p,
    {
        data.push(in_shop && p < state.shop_packs.len() && state.shop_packs[p].cost <= state.money);
        p = p + 1;
    }
    data
}

} // verus!
