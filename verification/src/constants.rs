//! Game rule constants and the sizes of the observation and action layouts.

use vstd::prelude::*;

verus! {

/// Cards held in hand.
pub const HAND_SIZE: usize = 8;
/// Most cards that can be played at once.
pub const MAX_SELECTED: usize = 5;
/// Joker slots.
pub const JOKER_SLOTS: usize = 5;
/// Hands per blind.
pub const PLAYS_PER_BLIND: i32 = 4;
/// Discards per blind.
pub const DISCARDS_PER_BLIND: i32 = 3;
/// Money at the start of a run.
pub const STARTING_MONEY: i64 = 4;
/// Largest interest paid at the end of a round.
pub const MAX_INTEREST: i64 = 5;
/// Money per hand left at the end of a round.
pub const MONEY_PER_REMAINING_HAND: i64 = 1;
/// Jokers offered in the shop.
pub const SHOP_JOKER_COUNT: usize = 2;
/// Step limit of an episode.
pub const MAX_STEPS: i32 = 200;

pub const SCALAR_COUNT: usize = 32;
pub const SELECTION_FEATURES: usize = HAND_SIZE;
pub const CARD_BASE_FEATURES: usize = 17;
pub const CARD_ENHANCE_FEATURES: usize = 4;
pub const CARD_FEATURES: usize = CARD_BASE_FEATURES + CARD_ENHANCE_FEATURES;
pub const HAND_FEATURES: usize = HAND_SIZE * CARD_FEATURES;
pub const HAND_TYPE_COUNT: usize = 13;
pub const DECK_FEATURES: usize = 52;
pub const JOKER_ID_SIZE: usize = 150;
pub const JOKER_SINGLE_FEATURES: usize = JOKER_ID_SIZE + 3;
pub const JOKER_FEATURES: usize = JOKER_SLOTS * JOKER_SINGLE_FEATURES;
pub const SHOP_FEATURES: usize = SHOP_JOKER_COUNT * (JOKER_ID_SIZE + 1);
pub const BOSS_BLIND_COUNT: usize = 27;
pub const DECK_TYPE_FEATURES: usize = 12;
pub const STAKE_FEATURES: usize = 8;
pub const VOUCHER_FEATURES: usize = 34;
pub const CONSUMABLE_FEATURES: usize = 52;
pub const TAG_FEATURES: usize = 24;
/// Length of the observation vector.
pub const OBS_SIZE: i32 = 1549i32;

pub const ACTION_TYPE_SELECT: i32 = 0;
pub const ACTION_TYPE_PLAY: i32 = 1;
pub const ACTION_TYPE_DISCARD: i32 = 2;
pub const ACTION_TYPE_SELECT_BLIND: i32 = 3;
pub const ACTION_TYPE_CASH_OUT: i32 = 4;
pub const ACTION_TYPE_BUY_JOKER: i32 = 5;
pub const ACTION_TYPE_NEXT_ROUND: i32 = 6;
pub const ACTION_TYPE_REROLL: i32 = 7;
pub const ACTION_TYPE_SELL_JOKER: i32 = 8;
pub const ACTION_TYPE_SKIP_BLIND: i32 = 9;
pub const ACTION_TYPE_USE_CONSUMABLE: i32 = 10;
pub const ACTION_TYPE_BUY_VOUCHER: i32 = 11;
pub const ACTION_TYPE_BUY_PACK: i32 = 12;
pub const ACTION_TYPE_COUNT: i32 = 13;

/// Consumable slots.
pub const CONSUMABLE_SLOT_COUNT: usize = 2;
/// Vouchers offered in the shop.
pub const SHOP_VOUCHER_COUNT: usize = 1;
/// Booster packs offered in the shop.
pub const SHOP_PACK_COUNT: usize = 2;
/// Length of the action mask.
pub const ACTION_MASK_SIZE: i32 = 46i32;

} // verus!
