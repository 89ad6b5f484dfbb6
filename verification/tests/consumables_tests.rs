use joker_guide::consumables::{
    Consumable, ConsumableSlots, ConsumableType, HandLevels, PlanetId, SpectralId, TarotId, CONSUMABLE_COUNT,
    PLANET_COUNT, TAROT_COUNT,
};
use rand::rngs::StdRng;
use rand::SeedableRng;

#[test]
fn test_tarot_indices() {
    for (i, tarot) in TarotId::all().iter().enumerate() {
        assert_eq!(tarot.to_index(), i);
        assert_eq!(TarotId::from_index(i), Some(*tarot));
    }
}

#[test]
fn test_planet_indices() {
    for (i, planet) in PlanetId::all().iter().enumerate() {
        assert_eq!(planet.to_index(), i);
        assert_eq!(PlanetId::from_index(i), Some(*planet));
    }
}

#[test]
fn test_spectral_indices() {
    for (i, spectral) in SpectralId::all().iter().enumerate() {
        assert_eq!(spectral.to_index(), i);
        assert_eq!(SpectralId::from_index(i), Some(*spectral));
    }
}

#[test]
fn test_consumable_global_index() {
    for i in 0..TAROT_COUNT {
        let c = Consumable::from_global_index(i);
        assert!(matches!(c, Some(Consumable::Tarot(_))));
        assert_eq!(c.unwrap().to_global_index(), i);
    }

    for i in TAROT_COUNT..(TAROT_COUNT + PLANET_COUNT) {
        let c = Consumable::from_global_index(i);
        assert!(matches!(c, Some(Consumable::Planet(_))));
        assert_eq!(c.unwrap().to_global_index(), i);
    }

    for i in (TAROT_COUNT + PLANET_COUNT)..CONSUMABLE_COUNT {
        let c = Consumable::from_global_index(i);
        assert!(matches!(c, Some(Consumable::Spectral(_))));
        assert_eq!(c.unwrap().to_global_index(), i);
    }
}

#[test]
fn test_consumable_slots() {
    let mut slots = ConsumableSlots::new();
    assert!(!slots.is_full());
    assert_eq!(slots.remaining(), 2);

    let mut rng = StdRng::seed_from_u64(42);
    assert!(slots.add(Consumable::random_tarot(&mut rng)));
    assert!(slots.add(Consumable::random_planet(&mut rng)));
    assert!(slots.is_full());
    assert!(!slots.add(Consumable::random_spectral(&mut rng)));

    let used = slots.use_item(0);
    assert!(used.is_some());
    assert!(!slots.is_full());
}

#[test]
fn test_hand_levels() {
    let mut levels = HandLevels::new();
    assert_eq!(levels.get(0), 1);
    assert_eq!(levels.bonus(0), (0, 0));

    levels.upgrade(0);
    assert_eq!(levels.get(0), 2);
    assert_eq!(levels.bonus(0), (10, 1));

    levels.upgrade_all();
    assert_eq!(levels.get(0), 3);
    assert_eq!(levels.get(5), 2);
}

#[test]
fn test_planet_hand_type_mapping() {
    assert_eq!(PlanetId::Mercury.hand_type_index(), 1);
    assert_eq!(PlanetId::Mars.hand_type_index(), 7);
    assert_eq!(PlanetId::Pluto.hand_type_index(), 0);
}

#[test]
fn test_global_index_out_of_range() {
    assert!(Consumable::from_global_index(CONSUMABLE_COUNT).is_none());
    assert!(TarotId::from_index(TAROT_COUNT).is_none());
}

#[test]
fn test_random_consumables_have_their_kind() {
    let mut rng = StdRng::seed_from_u64(3);
    for _ in 0..20 {
        assert_eq!(Consumable::random_tarot(&mut rng).consumable_type(), ConsumableType::Tarot);
        assert_eq!(Consumable::random_planet(&mut rng).consumable_type(), ConsumableType::Planet);
        assert_eq!(Consumable::random_spectral(&mut rng).consumable_type(), ConsumableType::Spectral);
    }
}

#[test]
fn test_use_item_out_of_range_keeps_slots() {
    let mut slots = ConsumableSlots::new();
    assert!(slots.add(Consumable::Planet(PlanetId::Pluto)));
    assert!(slots.use_item(3).is_none());
    assert_eq!(slots.items.len(), 1);
    let taken = slots.use_item(0).unwrap();
    assert_eq!(taken.to_global_index(), TAROT_COUNT + PlanetId::Pluto.to_index());
    assert_eq!(slots.remaining(), 2);
}

#[test]
fn test_downgrade_undoes_upgrade_and_stops_at_one() {
    let mut levels = HandLevels::new();
    levels.upgrade(4);
    levels.downgrade(4);
    assert_eq!(levels.get(4), 1);
    levels.downgrade(4);
    assert_eq!(levels.get(4), 1);
    assert_eq!(levels.get(40), 1);
    levels.upgrade(40);
    assert_eq!(levels.get(40), 1);
}

#[test]
fn test_level_bonus_formula() {
    let mut levels = HandLevels::new();
    for _ in 0..3 {
        levels.upgrade(2);
    }
    assert_eq!(levels.get(2), 4);
    assert_eq!(levels.bonus(2), (30, 3));
}

#[test]
fn test_planet_from_hand_type_roundtrip() {
    for p in PlanetId::all() {
        assert_eq!(PlanetId::from_hand_type_index(p.hand_type_index()), Some(*p));
    }
    assert_eq!(PlanetId::from_hand_type_index(12), None);
}
