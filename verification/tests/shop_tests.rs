use joker_guide::joker::JokerId;
use joker_guide::shop::{is_high_value_joker, refresh_shop, reroll_shop, Shop, ShopItem};
use joker_guide::stakes::Stake;
use joker_guide::vouchers::VoucherId;
use rand::rngs::StdRng;
use rand::SeedableRng;

#[test]
fn test_shop_refresh() {
    let mut rng = StdRng::seed_from_u64(42);
    let mut shop = Shop::new();
    shop.refresh(&mut rng, 2);

    assert_eq!(shop.items.len(), 2);
    assert!(shop.items[0].cost > 0);
    assert!(shop.items[1].cost > 0);
}

#[test]
fn test_shop_buy() {
    let mut rng = StdRng::seed_from_u64(42);
    let mut shop = Shop::new();
    shop.refresh(&mut rng, 2);

    let item = shop.buy(0);
    assert!(item.is_some());
    assert_eq!(shop.items.len(), 1);
}

#[test]
fn test_shop_reroll_cost() {
    let mut rng = StdRng::seed_from_u64(42);
    let mut shop = Shop::new();
    shop.refresh(&mut rng, 2);

    assert_eq!(shop.current_reroll_cost(), 5);
    shop.reroll(&mut rng, 2);
    assert_eq!(shop.current_reroll_cost(), 6);
    shop.reroll(&mut rng, 2);
    assert_eq!(shop.current_reroll_cost(), 7);

    shop.reset_reroll();
    assert_eq!(shop.current_reroll_cost(), 5);
}

#[test]
fn test_shop_prices_follow_rarity() {
    let mut rng = StdRng::seed_from_u64(9);
    let mut shop = Shop::default();
    for _ in 0..30 {
        shop.refresh(&mut rng, 3);
        for item in &shop.items {
            let base = item.joker.base_cost();
            let (lo, hi) = match item.joker.rarity() {
                1 => (base, base + 2),
                2 => (base + 1, base + 3),
                3 => (base + 2, base + 4),
                _ => (base, base),
            };
            assert!(lo <= item.cost && item.cost <= hi);
            assert_eq!(item.sell_value, item.cost / 2);
            assert!(!item.is_eternal && !item.is_perishable);
        }
    }
}

#[test]
fn test_shop_buy_out_of_range() {
    let mut shop = Shop::new();
    assert!(shop.buy(0).is_none());
    let item = ShopItem::new(JokerId::Joker, 5);
    assert_eq!(item.sell_value, 2);
    assert_eq!(ShopItem::new(JokerId::Joker, -5).sell_value, -2);
}

#[test]
fn test_refresh_and_reroll_shop_with_stakes() {
    let mut rng = StdRng::seed_from_u64(10);
    let mut shop = Shop::new();
    let (voucher, packs) = refresh_shop(&mut shop, Stake::White, &[], &mut rng);
    assert!(voucher.unwrap().prerequisite().is_none());
    assert_eq!(packs.len(), 2);
    assert_eq!(shop.items.len(), 2);
    assert!(shop.items.iter().all(|i| !i.is_eternal && !i.is_perishable));
    let mut eternal_seen = false;
    for _ in 0..40 {
        reroll_shop(&mut shop, Stake::Gold, &mut rng);
        for i in &shop.items {
            assert!(!(i.is_eternal && i.is_perishable));
            eternal_seen |= i.is_eternal;
        }
    }
    assert!(eternal_seen);
    assert_eq!(shop.reroll_count, 40);
    let all_owned: Vec<VoucherId> = (0..32).map(|i| VoucherId::from_index(i).unwrap()).collect();
    let (none, _) = refresh_shop(&mut shop, Stake::Red, &all_owned, &mut rng);
    assert!(none.is_none());
}

#[test]
fn test_high_value_jokers() {
    assert!(is_high_value_joker(97));
    assert!(is_high_value_joker(45));
    assert!(!is_high_value_joker(0));
}
