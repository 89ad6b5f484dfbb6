use joker_guide::action_mask::{action_mask_from_state, ActionState};
use joker_guide::blinds::{BlindType, Stage};
use joker_guide::constants::ACTION_MASK_SIZE;
use joker_guide::joker::JokerId;
use joker_guide::service::{BoosterPack, BoosterPackType};
use joker_guide::shop::{Shop, ShopItem};
use joker_guide::vouchers::VoucherId;

fn state<'a>(stage: Stage, shop: &'a Shop, packs: &'a [BoosterPack]) -> ActionState<'a> {
    ActionState {
        stage,
        blind_type: Some(BlindType::Small),
        plays_left: 2,
        discards_left: 0,
        money: 6,
        shop,
        joker_count: 2,
        joker_slot_limit: 5,
        consumable_count: 1,
        shop_voucher: Some(VoucherId::Grabber),
        shop_packs: packs,
    }
}

#[test]
fn test_action_mask_done_is_all_false() {
    let shop = Shop::new();
    let mask = action_mask_from_state(&state(Stage::Blind, &shop, &[]), true);
    assert_eq!(mask.len(), ACTION_MASK_SIZE as usize);
    assert!(mask.iter().all(|m| !m));
}

#[test]
fn test_action_mask_in_blind() {
    let shop = Shop::new();
    let mask = action_mask_from_state(&state(Stage::Blind, &shop, &[]), false);
    assert!(mask[0] && mask[1] && !mask[2]);
    assert!(mask[13..29].iter().all(|m| *m));
    assert!(mask[10] && mask[41] && !mask[42]);
    assert!(!mask[5] && !mask[29] && !mask[39]);
}

#[test]
fn test_action_mask_in_shop() {
    let mut shop = Shop::new();
    shop.items.push(ShopItem::new(JokerId::Joker, 4));
    shop.items.push(ShopItem::new(JokerId::Joker, 9));
    let packs = [BoosterPack { pack_type: BoosterPackType::Arcana, cost: 4 }, BoosterPack { pack_type: BoosterPackType::Buffoon, cost: 6 }];
    let mask = action_mask_from_state(&state(Stage::Shop, &shop, &packs), false);
    assert!(mask[5] && mask[6] && mask[12]);
    assert!(mask[7] && mask[39]);
    assert!(mask[32] && !mask[33]);
    assert!(mask[34] && mask[35] && !mask[36]);
    assert!(mask[11] && !mask[43]);
    assert!(mask[44] && mask[45]);
    assert!(!mask[0] && !mask[13]);
}

#[test]
fn test_action_mask_pre_blind_skip() {
    let shop = Shop::new();
    let mut s = state(Stage::PreBlind, &shop, &[]);
    let mask = action_mask_from_state(&s, false);
    assert!(mask[3] && mask[9] && mask[29] && mask[30] && !mask[31] && mask[40]);
    s.blind_type = Some(BlindType::Boss);
    let boss = action_mask_from_state(&s, false);
    assert!(!boss[9] && !boss[40] && boss[3]);
}
