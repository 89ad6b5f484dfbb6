//! Game engine for a poker-hand roguelike: cards, blinds, hand evaluation,
//! jokers, shop items and the rules that tie them together.

pub mod constants;
pub mod cards;
pub mod blinds;
pub mod hand_types;
pub mod scoring;
pub mod joker;
pub mod rng;
pub mod stakes;
pub mod tags;
pub mod vouchers;
pub mod consumables;
pub mod decks;
pub mod packs;
pub mod joker_def;
pub mod service;
pub mod run_state;
pub mod shop;
pub mod action_mask;
pub mod stage;
pub mod joker_bonus;
pub mod effect_def;
