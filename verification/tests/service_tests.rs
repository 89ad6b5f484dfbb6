use joker_guide::cards::Card;
use joker_guide::packs::PackType;
use joker_guide::service::{build_selected_hand, BoosterPack, BoosterPackType};
use rand::rngs::StdRng;
use rand::SeedableRng;

fn make_cards(ranks_suits: &[(u8, u8)]) -> Vec<Card> {
    ranks_suits.iter().map(|&(r, s)| Card::new(r, s)).collect()
}

#[test]
fn test_build_selected_hand_empty_mask() {
    let hand = make_cards(&[(2, 0), (3, 1)]);
    let selected = build_selected_hand(&hand, 0);
    assert_eq!(selected.len(), 0);
}

#[test]
fn test_build_selected_hand_partial_mask() {
    let hand = make_cards(&[(2, 0), (3, 1), (4, 2)]);
    let selected = build_selected_hand(&hand, 0b101);
    assert_eq!(selected.len(), 2);
    assert_eq!(selected[0].rank, 2);
    assert_eq!(selected[1].rank, 4);
}

#[test]
fn test_build_selected_hand_ignores_bits_past_hand() {
    let hand = make_cards(&[(5, 0), (6, 1)]);
    let selected = build_selected_hand(&hand, 0b1111_0110);
    assert_eq!(selected, vec![Card::new(6, 1)]);
}

#[test]
fn test_booster_pack_costs_and_kinds() {
    let mut rng = StdRng::seed_from_u64(11);
    for _ in 0..20 {
        let pack = BoosterPack::random(&mut rng);
        let expected = if pack.pack_type == BoosterPackType::Buffoon { 6 } else { 4 };
        assert_eq!(pack.cost, expected);
    }
    assert_eq!(BoosterPackType::Arcana.to_pack_type(), PackType::Arcana);
}
