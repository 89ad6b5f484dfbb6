use joker_guide::vouchers::{VoucherEffects, VoucherId, VOUCHER_COUNT};
use rand::rngs::StdRng;
use rand::SeedableRng;

#[test]
fn test_voucher_effects_new() {
    let effects = VoucherEffects::new();
    assert_eq!(effects.extra_hands, 0);
    assert_eq!(effects.discount_rate, 0);
    assert!(effects.owned.is_empty());
}

#[test]
fn test_buy_base_voucher() {
    let mut effects = VoucherEffects::new();
    assert!(effects.buy(VoucherId::Grabber));
    assert_eq!(effects.extra_hands, 1);
    assert!(effects.has(VoucherId::Grabber));
}

#[test]
fn test_buy_upgrade_requires_base() {
    let mut effects = VoucherEffects::new();
    assert!(!effects.buy(VoucherId::GrabberPlus));
    assert_eq!(effects.extra_hands, 0);

    assert!(effects.buy(VoucherId::Grabber));
    assert!(effects.buy(VoucherId::GrabberPlus));
    assert_eq!(effects.extra_hands, 2);
}

#[test]
fn test_discount_calculation() {
    let mut effects = VoucherEffects::new();
    effects.buy(VoucherId::ClearanceSale);
    assert_eq!(effects.apply_discount(100), 75);

    effects.buy(VoucherId::Liquidation);
    assert_eq!(effects.apply_discount(100), 50);
}

#[test]
fn test_voucher_indices() {
    for i in 0..VOUCHER_COUNT {
        let voucher = VoucherId::from_index(i);
        assert!(voucher.is_some());
        assert_eq!(voucher.unwrap().to_index(), i);
    }
}

#[test]
fn test_random_available_voucher() {
    let mut rng = StdRng::seed_from_u64(42);
    let owned = vec![];
    let voucher = VoucherId::random_available(&mut rng, &owned);
    assert!(voucher.is_some());
    assert!(voucher.unwrap().prerequisite().is_none());
}

#[test]
fn test_random_available_with_base_owned() {
    let mut rng = StdRng::seed_from_u64(42);
    let owned = vec![VoucherId::Grabber];

    let mut found_upgrade = false;
    for _ in 0..100 {
        if let Some(v) = VoucherId::random_available(&mut rng, &owned) {
            if v == VoucherId::GrabberPlus {
                found_upgrade = true;
                break;
            }
        }
    }
    assert!(found_upgrade);
}

#[test]
fn test_discount_rounds_up_and_keeps_free_items_free() {
    let mut effects = VoucherEffects::new();
    assert_eq!(effects.apply_discount(7), 7);
    effects.buy(VoucherId::ClearanceSale);
    assert_eq!(effects.apply_discount(5), 4);
    assert_eq!(effects.apply_discount(0), 0);
    assert_eq!(effects.apply_discount(-4), -3);
    effects.buy(VoucherId::Liquidation);
    assert_eq!(effects.apply_discount(5), 3);
    assert_eq!(effects.discount_rate, 50);
}

#[test]
fn test_rate_factors_double() {
    let mut effects = VoucherEffects::new();
    assert_eq!(effects.edition_rate_mult, 1);
    assert_eq!(effects.planet_rate_mult, 1);
    assert!(effects.buy(VoucherId::Hone));
    assert!(effects.buy(VoucherId::GlowUp));
    assert_eq!(effects.edition_rate_mult, 4);
    assert!(effects.buy(VoucherId::Telescope));
    assert_eq!(effects.planet_rate_mult, 2);
}

#[test]
fn test_buy_twice_refused_and_unchanged() {
    let mut effects = VoucherEffects::new();
    assert!(effects.buy(VoucherId::SeedMoney));
    let before_cap = effects.interest_cap_bonus;
    assert!(!effects.buy(VoucherId::SeedMoney));
    assert_eq!(effects.interest_cap_bonus, before_cap);
    assert_eq!(effects.owned, vec![VoucherId::SeedMoney]);
}

#[test]
fn test_glyph_vouchers_trade_hands_and_discards() {
    let mut effects = VoucherEffects::new();
    assert!(effects.buy(VoucherId::Hieroglyph));
    assert_eq!(effects.extra_hands, -1);
    assert_eq!(effects.ante_reduction, 1);
    assert!(effects.buy(VoucherId::Petroglyph));
    assert_eq!(effects.extra_discards, -1);
    assert_eq!(effects.ante_reduction, 2);
}

#[test]
fn test_reroll_cost_never_negative() {
    let mut effects = VoucherEffects::new();
    assert!(effects.buy(VoucherId::RerollSurplus));
    assert!(effects.buy(VoucherId::RerollGlut));
    assert_eq!(effects.actual_reroll_cost(5), 1);
    assert_eq!(effects.actual_reroll_cost(3), 0);
}

#[test]
fn test_upgrade_and_prerequisite_are_inverse() {
    for &b in VoucherId::base_vouchers() {
        let u = b.upgrade().expect("base has an upgrade");
        assert_eq!(u.prerequisite(), Some(b));
        assert!(b.prerequisite().is_none());
    }
    assert_eq!(VoucherId::base_vouchers().len() * 2, VOUCHER_COUNT);
}

#[test]
fn test_random_available_skips_owned_and_locked() {
    let mut rng = StdRng::seed_from_u64(7);
    let owned: Vec<VoucherId> = VoucherId::base_vouchers().to_vec();
    for _ in 0..50 {
        let v = VoucherId::random_available(&mut rng, &owned).expect("upgrades are open");
        assert!(!owned.contains(&v));
        assert!(owned.contains(&v.prerequisite().unwrap()));
    }
    let mut all = owned.clone();
    for &b in VoucherId::base_vouchers() {
        all.push(b.upgrade().unwrap());
    }
    assert_eq!(VoucherId::random_available(&mut rng, &all), None);
}
