# joker_guide

The rules engine of a poker-hand roguelike (cards, blinds, jokers, shop, consumables),
written in Verus: each function carries a contract that Verus proves.

- `src/` — the verified library. `scoring.rs` evaluates played hands under joker rules;
  `run_state.rs` holds the cards, money and consumables of a run and the effects of tarot,
  spectral and planet cards, tags, discards and deals; `shop.rs`, `vouchers.rs`, `packs.rs`,
  `tags.rs`, `stakes.rs`, `decks.rs`, `blinds.rs` and `joker.rs` hold the catalogues and the
  rules around them; `stage.rs` is the stage machine of a run (choosing a blind, playing and
  discarding, scoring the played cards, cashing out, the shop, the next round, and one step
  of it all); `joker_bonus.rs` computes the whole-number part of each joker's scoring
  bonus (chips, added mult, money, retriggers); `effect_def.rs` is the declarative table of
  joker effects and event triggers, with multiplicative factors kept in hundredths, and
  computes what an effect adds; `action_mask.rs` says which actions are legal; `rng.rs`
  wraps the random draws of `rand`.
- `tests/` — tests run against the compiled library.
- `app/` — the floating-point parts (the jokers' fractional multipliers and their state,
  card multipliers, the reward shaping), which stay outside the verified library, and `game.rs`, which drives a run
  through the library's stage machine.
