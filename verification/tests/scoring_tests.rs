use joker_guide::cards::{Card, Enhancement};
use joker_guide::hand_types::HandId;
use joker_guide::joker::JokerId;
use joker_guide::scoring::{check_straight, check_straight_with_rules, is_royal, score_hand, score_hand_with_rules, JokerRules};

fn make_cards(ranks_suits: &[(u8, u8)]) -> Vec<Card> {
    ranks_suits.iter().map(|&(r, s)| Card::new(r, s)).collect()
}

#[test]
fn test_high_card() {
    let cards = make_cards(&[(2, 0), (4, 1), (6, 2), (8, 3), (10, 0)]);
    let score = score_hand(&cards);
    assert_eq!(score.id, HandId::HighCard);
    assert_eq!(score.base_chips, 5);
    assert_eq!(score.base_mult, 1);
}

#[test]
fn test_pair() {
    let cards = make_cards(&[(2, 0), (2, 1), (6, 2), (8, 3), (10, 0)]);
    let score = score_hand(&cards);
    assert_eq!(score.id, HandId::Pair);
    assert_eq!(score.base_chips, 10);
    assert_eq!(score.base_mult, 2);
}

#[test]
fn test_two_pair() {
    let cards = make_cards(&[(2, 0), (2, 1), (8, 2), (8, 3), (10, 0)]);
    let score = score_hand(&cards);
    assert_eq!(score.id, HandId::TwoPair);
    assert_eq!(score.base_chips, 20);
    assert_eq!(score.base_mult, 2);
}

#[test]
fn test_three_of_a_kind() {
    let cards = make_cards(&[(5, 0), (5, 1), (5, 2), (8, 3), (10, 0)]);
    let score = score_hand(&cards);
    assert_eq!(score.id, HandId::ThreeKind);
    assert_eq!(score.base_chips, 30);
    assert_eq!(score.base_mult, 3);
}

#[test]
fn test_straight() {
    let cards = make_cards(&[(5, 0), (6, 1), (7, 2), (8, 3), (9, 0)]);
    let score = score_hand(&cards);
    assert_eq!(score.id, HandId::Straight);
    assert_eq!(score.base_chips, 30);
    assert_eq!(score.base_mult, 4);
}

#[test]
fn test_straight_wheel() {
    // A-2-3-4-5
    let cards = make_cards(&[(1, 0), (2, 1), (3, 2), (4, 3), (5, 0)]);
    let score = score_hand(&cards);
    assert_eq!(score.id, HandId::Straight);
}

#[test]
fn test_straight_broadway() {
    // 10-J-Q-K-A
    let cards = make_cards(&[(10, 0), (11, 1), (12, 2), (13, 3), (1, 0)]);
    let score = score_hand(&cards);
    assert_eq!(score.id, HandId::Straight);
}

#[test]
fn test_flush() {
    let cards = make_cards(&[(2, 0), (4, 0), (6, 0), (8, 0), (10, 0)]);
    let score = score_hand(&cards);
    assert_eq!(score.id, HandId::Flush);
    assert_eq!(score.base_chips, 35);
    assert_eq!(score.base_mult, 4);
}

#[test]
fn test_full_house() {
    let cards = make_cards(&[(5, 0), (5, 1), (5, 2), (8, 0), (8, 1)]);
    let score = score_hand(&cards);
    assert_eq!(score.id, HandId::FullHouse);
    assert_eq!(score.base_chips, 40);
    assert_eq!(score.base_mult, 4);
}

#[test]
fn test_four_of_a_kind() {
    let cards = make_cards(&[(7, 0), (7, 1), (7, 2), (7, 3), (10, 0)]);
    let score = score_hand(&cards);
    assert_eq!(score.id, HandId::FourKind);
    assert_eq!(score.base_chips, 60);
    assert_eq!(score.base_mult, 7);
}

#[test]
fn test_straight_flush() {
    let cards = make_cards(&[(5, 2), (6, 2), (7, 2), (8, 2), (9, 2)]);
    let score = score_hand(&cards);
    assert_eq!(score.id, HandId::StraightFlush);
    assert_eq!(score.base_chips, 100);
    assert_eq!(score.base_mult, 8);
}

#[test]
fn test_royal_flush() {
    let cards = make_cards(&[(10, 3), (11, 3), (12, 3), (13, 3), (1, 3)]);
    let score = score_hand(&cards);
    assert_eq!(score.id, HandId::RoyalFlush);
    assert_eq!(score.base_chips, 100);
    assert_eq!(score.base_mult, 8);
}

#[test]
fn test_empty_hand() {
    let cards: Vec<Card> = vec![];
    let score = score_hand(&cards);
    assert_eq!(score.id, HandId::HighCard);
}

#[test]
fn test_wild_card_flush() {
    // 4 hearts + 1 wild = flush
    let mut cards = make_cards(&[(2, 2), (4, 2), (6, 2), (8, 2), (10, 0)]);
    cards[4].enhancement = Enhancement::Wild;
    let score = score_hand(&cards);
    assert_eq!(score.id, HandId::Flush);
}

#[test]
fn test_stone_card_excluded() {
    // Stone 牌不參與牌型判定
    let mut cards = make_cards(&[(5, 0), (5, 1), (5, 2), (8, 3), (10, 0)]);
    // 如果 Stone 牌也算，這會是三條，但 Stone 不算
    cards[2].enhancement = Enhancement::Stone;
    let score = score_hand(&cards);
    assert_eq!(score.id, HandId::Pair); // 只剩兩張 5
}

// ========================================================================
// JokerRules 測試 - FourFingers (#126)
// ========================================================================

#[test]
fn test_four_fingers_flush_with_4_cards() {
    // 4 張同花 - 正常情況不是 Flush，但 FourFingers 啟用時是
    let cards = make_cards(&[(2, 2), (4, 2), (6, 2), (8, 2)]);

    // 無 FourFingers
    let score = score_hand(&cards);
    assert_eq!(score.id, HandId::HighCard);

    // 有 FourFingers
    let mut rules = JokerRules::new();
    rules.four_fingers = true;
    let score = score_hand_with_rules(&cards, &rules);
    assert_eq!(score.id, HandId::Flush);
}

#[test]
fn test_four_fingers_straight_with_4_cards() {
    // 4 張順子 - 正常情況不是 Straight，但 FourFingers 啟用時是
    let cards = make_cards(&[(5, 0), (6, 1), (7, 2), (8, 3)]);

    // 無 FourFingers
    let score = score_hand(&cards);
    assert_eq!(score.id, HandId::HighCard);

    // 有 FourFingers
    let mut rules = JokerRules::new();
    rules.four_fingers = true;
    let score = score_hand_with_rules(&cards, &rules);
    assert_eq!(score.id, HandId::Straight);
}

#[test]
fn test_four_fingers_straight_flush_with_4_cards() {
    // 4 張同花順 - FourFingers 啟用時應識別
    let cards = make_cards(&[(5, 2), (6, 2), (7, 2), (8, 2)]);

    // 無 FourFingers
    let score = score_hand(&cards);
    assert_eq!(score.id, HandId::HighCard);

    // 有 FourFingers
    let mut rules = JokerRules::new();
    rules.four_fingers = true;
    let score = score_hand_with_rules(&cards, &rules);
    assert_eq!(score.id, HandId::StraightFlush);
}

#[test]
fn test_four_fingers_wheel_straight() {
    // A-2-3-4 (4-card wheel straight)
    let cards = make_cards(&[(1, 0), (2, 1), (3, 2), (4, 3)]);

    let mut rules = JokerRules::new();
    rules.four_fingers = true;
    let score = score_hand_with_rules(&cards, &rules);
    assert_eq!(score.id, HandId::Straight);
}

#[test]
fn test_four_fingers_broadway_straight() {
    // J-Q-K-A (4-card broadway)
    let cards = make_cards(&[(11, 0), (12, 1), (13, 2), (1, 3)]);

    let mut rules = JokerRules::new();
    rules.four_fingers = true;
    let score = score_hand_with_rules(&cards, &rules);
    assert_eq!(score.id, HandId::Straight);
}

#[test]
fn test_four_fingers_still_requires_4_cards() {
    // Only 3 cards - not enough for FourFingers flush
    let cards = make_cards(&[(2, 2), (4, 2), (6, 2)]);

    let mut rules = JokerRules::new();
    rules.four_fingers = true;
    let score = score_hand_with_rules(&cards, &rules);
    assert_eq!(score.id, HandId::HighCard);
}

// ========================================================================
// JokerRules 測試 - Shortcut (#127)
// ========================================================================

#[test]
fn test_shortcut_straight_with_gap() {
    // 有間隔的順子：2-3-5-6-7（跳過 4）
    let cards = make_cards(&[(2, 0), (3, 1), (5, 2), (6, 3), (7, 0)]);

    // 無 Shortcut
    let score = score_hand(&cards);
    assert_eq!(score.id, HandId::HighCard);

    // 有 Shortcut
    let mut rules = JokerRules::new();
    rules.shortcut = true;
    let score = score_hand_with_rules(&cards, &rules);
    assert_eq!(score.id, HandId::Straight);
}

#[test]
fn test_shortcut_with_two_gaps_fails() {
    // 有兩個間隔：2-3-5-7-8（跳過 4 和 6）- 應該失敗
    let cards = make_cards(&[(2, 0), (3, 1), (5, 2), (7, 3), (8, 0)]);

    let mut rules = JokerRules::new();
    rules.shortcut = true;
    let score = score_hand_with_rules(&cards, &rules);
    assert_eq!(score.id, HandId::HighCard); // 兩個間隔不是順子
}

#[test]
fn test_shortcut_wheel_with_gap() {
    // A-2-4-5-6 (wheel with gap at 3)
    let cards = make_cards(&[(1, 0), (2, 1), (4, 2), (5, 3), (6, 0)]);

    let mut rules = JokerRules::new();
    rules.shortcut = true;
    let score = score_hand_with_rules(&cards, &rules);
    assert_eq!(score.id, HandId::Straight);
}

#[test]
fn test_shortcut_gap_at_end() {
    // 3-4-5-6-8 (gap at 7)
    let cards = make_cards(&[(3, 0), (4, 1), (5, 2), (6, 3), (8, 0)]);

    let mut rules = JokerRules::new();
    rules.shortcut = true;
    let score = score_hand_with_rules(&cards, &rules);
    assert_eq!(score.id, HandId::Straight);
}

// ========================================================================
// JokerRules 測試 - Smeared (#129)
// ========================================================================

#[test]
fn test_smeared_suit_merging() {
    // 3 Hearts + 2 Diamonds - 正常情況不是 Flush
    // Smeared: Hearts 和 Diamonds 視為同色
    let cards = make_cards(&[(2, 2), (4, 2), (6, 2), (8, 1), (10, 1)]);

    // 無 Smeared
    let score = score_hand(&cards);
    assert_eq!(score.id, HandId::HighCard);

    // 有 Smeared
    let mut rules = JokerRules::new();
    rules.smeared = true;
    let score = score_hand_with_rules(&cards, &rules);
    assert_eq!(score.id, HandId::Flush);
}

#[test]
fn test_smeared_black_suits() {
    // 3 Spades + 2 Clubs - Smeared 應視為同色
    let cards = make_cards(&[(2, 0), (4, 0), (6, 0), (8, 3), (10, 3)]);

    // 無 Smeared
    let score = score_hand(&cards);
    assert_eq!(score.id, HandId::HighCard);

    // 有 Smeared
    let mut rules = JokerRules::new();
    rules.smeared = true;
    let score = score_hand_with_rules(&cards, &rules);
    assert_eq!(score.id, HandId::Flush);
}

#[test]
fn test_smeared_mixed_red_black() {
    // 3 red (2H, 4H, 6D) + 2 black (8S, 10C) - NOT a flush even with Smeared
    let cards = make_cards(&[(2, 2), (4, 2), (6, 1), (8, 0), (10, 3)]);

    let mut rules = JokerRules::new();
    rules.smeared = true;
    let score = score_hand_with_rules(&cards, &rules);
    // 3 red cards, 2 black cards - neither group has 5
    assert_eq!(score.id, HandId::HighCard);
}

#[test]
fn test_smeared_straight_flush() {
    // 5-6-7-8-9 with 3 Hearts + 2 Diamonds - Smeared makes it a Straight Flush
    let cards = make_cards(&[(5, 2), (6, 2), (7, 2), (8, 1), (9, 1)]);

    // Without Smeared - only Straight
    let score = score_hand(&cards);
    assert_eq!(score.id, HandId::Straight);

    // With Smeared - becomes Straight Flush
    let mut rules = JokerRules::new();
    rules.smeared = true;
    let score = score_hand_with_rules(&cards, &rules);
    assert_eq!(score.id, HandId::StraightFlush);
}

// ========================================================================
// JokerRules 測試 - Combined Rules
// ========================================================================

#[test]
fn test_four_fingers_and_shortcut_combined() {
    // 4 張帶間隔順子：3-4-6-7（跳過 5）
    let cards = make_cards(&[(3, 0), (4, 1), (6, 2), (7, 3)]);

    // 只有 FourFingers
    let mut rules = JokerRules::new();
    rules.four_fingers = true;
    let score = score_hand_with_rules(&cards, &rules);
    assert_eq!(score.id, HandId::HighCard); // 有間隔，不是順子

    // FourFingers + Shortcut
    rules.shortcut = true;
    let score = score_hand_with_rules(&cards, &rules);
    assert_eq!(score.id, HandId::Straight); // 4 張允許 1 gap
}

#[test]
fn test_smeared_four_fingers_combo() {
    // 4 cards: 3 Hearts + 1 Diamond - with FourFingers + Smeared = Flush
    let cards = make_cards(&[(2, 2), (4, 2), (6, 2), (8, 1)]);

    let mut rules = JokerRules::new();
    rules.four_fingers = true;
    rules.smeared = true;
    let score = score_hand_with_rules(&cards, &rules);
    assert_eq!(score.id, HandId::Flush);
}

#[test]
fn test_all_three_straight_rules() {
    // 3 cards consecutive + 1 gap, same "smeared" suit
    // 4-5-6-8 all red (2 Hearts, 2 Diamonds)
    let cards = make_cards(&[(4, 2), (5, 2), (6, 1), (8, 1)]);

    let mut rules = JokerRules::new();
    rules.four_fingers = true;
    rules.shortcut = true;
    rules.smeared = true;

    let score = score_hand_with_rules(&cards, &rules);
    // 4 cards, 1 gap allowed, all same "red" suit = Straight Flush
    assert_eq!(score.id, HandId::StraightFlush);
}

#[test]
fn test_shortcut_four_fingers_straight_flush() {
    // 4 cards with gap, same suit: 5-6-8-9 all Hearts
    let cards = make_cards(&[(5, 2), (6, 2), (8, 2), (9, 2)]);

    let mut rules = JokerRules::new();
    rules.four_fingers = true;
    rules.shortcut = true;
    let score = score_hand_with_rules(&cards, &rules);
    assert_eq!(score.id, HandId::StraightFlush);
}

// ========================================================================
// JokerRules 結構測試
// ========================================================================

#[test]
fn test_min_cards_for_straight_flush() {
    // Default rules - need 5 cards
    let rules = JokerRules::new();
    assert_eq!(rules.min_cards_for_straight_flush(), 5);

    // With FourFingers - need only 4 cards
    let mut rules = JokerRules::new();
    rules.four_fingers = true;
    assert_eq!(rules.min_cards_for_straight_flush(), 4);
}

#[test]
fn test_joker_rules_from_jokers() {
    let jokers = vec![
        (JokerId::FourFingers, true),
        (JokerId::Shortcut, true),
        (JokerId::Splash, true),
        (JokerId::Pareidolia, true),
        (JokerId::Smeared, true),
    ];

    let rules = JokerRules::from_jokers(&jokers);

    assert!(rules.four_fingers);
    assert!(rules.shortcut);
    assert!(rules.splash);
    assert!(rules.pareidolia);
    assert!(rules.smeared);
}

#[test]
fn test_joker_rules_disabled_jokers_ignored() {
    let jokers = vec![(JokerId::FourFingers, false)];
    let rules = JokerRules::from_jokers(&jokers);
    assert!(!rules.four_fingers);
}

#[test]
fn test_joker_rules_oops_and_unrelated_jokers() {
    let rules = JokerRules::from_jokers(&[(JokerId::OopsAll6s, true), (JokerId::Joker, true)]);
    assert!(rules.oops_all_6s);
    assert!(!rules.four_fingers && !rules.shortcut && !rules.splash && !rules.pareidolia && !rules.smeared);
    let none = JokerRules::from_jokers(&[]);
    assert!(!none.four_fingers && !none.oops_all_6s);
}

#[test]
fn test_new_rules_are_all_off() {
    let rules = JokerRules::new();
    assert!(!rules.four_fingers);
    assert!(!rules.shortcut);
    assert!(!rules.splash);
    assert!(!rules.pareidolia);
    assert!(!rules.smeared);
    assert!(!rules.oops_all_6s);
}

#[test]
fn test_five_of_a_rank_scoring() {
    let five = make_cards(&[(7, 0), (7, 1), (7, 2), (7, 3), (7, 0)]);
    let score = score_hand(&five);
    assert_eq!(score.id, HandId::FiveKind);
    assert_eq!(score.base_chips, 120);
    assert_eq!(score.base_mult, 12);
    let flush_five = make_cards(&[(3, 1), (3, 1), (3, 1), (3, 1), (3, 1)]);
    let score = score_hand(&flush_five);
    assert_eq!(score.id, HandId::FlushFive);
    assert_eq!(score.base_chips, 160);
    assert_eq!(score.base_mult, 16);
}

#[test]
fn test_flush_house() {
    let cards = make_cards(&[(5, 2), (5, 2), (5, 2), (8, 2), (8, 2)]);
    let score = score_hand(&cards);
    assert_eq!(score.id, HandId::FlushHouse);
    assert_eq!(score.base_chips, 140);
    assert_eq!(score.base_mult, 14);
}

#[test]
fn test_ace_high_four_with_gap_needs_shortcut() {
    // 10-Q-K-A: the Jack is missing
    let cards = make_cards(&[(10, 0), (12, 1), (13, 2), (1, 3)]);
    let mut rules = JokerRules::new();
    rules.four_fingers = true;
    assert_eq!(score_hand_with_rules(&cards, &rules).id, HandId::HighCard);
    rules.shortcut = true;
    assert_eq!(score_hand_with_rules(&cards, &rules).id, HandId::Straight);
}

#[test]
fn test_ace_low_four_with_gap_needs_shortcut() {
    // A-2-3-5: the 4 is missing
    let cards = make_cards(&[(1, 0), (2, 1), (3, 2), (5, 3)]);
    let mut rules = JokerRules::new();
    rules.four_fingers = true;
    assert_eq!(score_hand_with_rules(&cards, &rules).id, HandId::HighCard);
    rules.shortcut = true;
    assert_eq!(score_hand_with_rules(&cards, &rules).id, HandId::Straight);
}

#[test]
fn test_shortcut_ace_high_two_gaps_fails() {
    let mut counts = [0u8; 13];
    for r in [1usize, 8, 10, 12, 13] {
        counts[r - 1] = 1;
    }
    let mut rules = JokerRules::new();
    rules.shortcut = true;
    assert!(!check_straight_with_rules(&counts, &rules));
    // 9-10-Q-K-A skips only the Jack
    let mut one_gap = [0u8; 13];
    for r in [1usize, 9, 10, 12, 13] {
        one_gap[r - 1] = 1;
    }
    assert!(check_straight_with_rules(&one_gap, &rules));
}

#[test]
fn test_only_first_five_cards_count() {
    let cards = make_cards(&[(2, 0), (4, 1), (6, 2), (8, 3), (10, 0), (10, 1), (10, 2)]);
    assert_eq!(score_hand(&cards).id, HandId::HighCard);
}

#[test]
fn test_rank_count_helpers() {
    let mut counts = [0u8; 13];
    for r in [10usize, 11, 12, 13, 1] {
        counts[r - 1] = 1;
    }
    assert!(check_straight(&counts));
    assert!(is_royal(&counts));
    let mut gap = [0u8; 13];
    for r in [2usize, 3, 5, 6, 7] {
        gap[r - 1] = 1;
    }
    assert!(!check_straight(&gap));
    let mut rules = JokerRules::new();
    assert!(!check_straight_with_rules(&gap, &rules));
    rules.shortcut = true;
    assert!(check_straight_with_rules(&gap, &rules));
    assert!(!is_royal(&gap));
}

#[test]
fn test_wild_stone_mix() {
    let mut cards = make_cards(&[(2, 3), (5, 3), (9, 3), (12, 3), (13, 0)]);
    cards[4].enhancement = Enhancement::Wild;
    assert_eq!(score_hand(&cards).id, HandId::Flush);
    cards[0].enhancement = Enhancement::Stone;
    assert_eq!(score_hand(&cards).id, HandId::HighCard);
}

#[test]
fn test_smeared_keeps_plain_flush() {
    let cards = make_cards(&[(2, 3), (5, 3), (9, 3), (12, 3), (13, 3)]);
    assert_eq!(score_hand(&cards).id, HandId::Flush);
    let mut rules = JokerRules::new();
    rules.smeared = true;
    assert_eq!(score_hand_with_rules(&cards, &rules).id, HandId::Flush);
}
