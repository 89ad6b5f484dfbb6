//! Blinds, boss blinds and antes.

use vstd::prelude::*;

use crate::constants::PLAYS_PER_BLIND;

verus! {

/// Phase of a run.
#[derive(Clone, Copy, Debug, PartialEq, Eq, Structural)]
pub enum Stage {
    PreBlind,
    Blind,
    PostBlind,
    Shop,
    End(GameEnd),
}

/// How a run ended.
#[derive(Clone, Copy, Debug, PartialEq, Eq, Structural)]
pub enum GameEnd {
    Win,
    Lose,
}

/// The three blinds of an ante.
#[derive(Clone, Copy, Debug, PartialEq, Eq, Structural)]
pub enum BlindType {
    Small,
    Big,
    Boss,
}

/// Money for beating a blind.
pub open spec fn blind_reward(b: BlindType) -> int {
    match b {
        BlindType::Small => 3,
        BlindType::Big => 4,
        BlindType::Boss => 5,
    }
}

/// Position of a blind within its ante.
pub open spec fn blind_index(b: BlindType) -> int {
    match b {
        BlindType::Small => 0,
        BlindType::Big => 1,
        BlindType::Boss => 2,
    }
}

/// The blinds of an ante come in the order Small, Big, Boss, and each pays a dollar more than
/// the one before, starting at $3.
pub proof fn lemma_blind_order(b: BlindType, c: BlindType)
    ensures
        0 <= blind_index(b) < 3,
        blind_index(b) == blind_index(c) ==> b == c,
        blind_reward(b) == 3 + blind_index(b),
        blind_index(BlindType::Small) < blind_index(BlindType::Big) < blind_index(BlindType::Boss),
{
}

impl BlindType {
    pub fn reward(&self) -> (r: i64)
        ensures
            r == blind_reward(*self),
    {
        match self {
            BlindType::Small => 3,
            BlindType::Big => 4,
            BlindType::Boss => 5,
        }
    }

    /// The blind that follows; none after the boss (the ante ends).
    pub fn next(&self) -> (r: Option<BlindType>)
        ensures
            r == (match *self {
                BlindType::Small => Some(BlindType::Big),
                BlindType::Big => Some(BlindType::Boss),
                BlindType::Boss => None::<BlindType>,
            }),
    {
        match self {
            BlindType::Small => Some(BlindType::Big),
            BlindType::Big => Some(BlindType::Boss),
            BlindType::Boss => None,
        }
    }

    pub fn to_int(&self) -> (r: i32)
        ensures
            r == blind_index(*self),
    {
        match self {
            BlindType::Small => 0,
            BlindType::Big => 1,
            BlindType::Boss => 2,
        }
    }
}

/// Boss blinds, each with its own debuff.
#[derive(Clone, Copy, Debug, PartialEq, Eq, Structural)]
pub enum BossBlind {
    TheHook,
    TheWall,
    TheWheel,
    TheArm,
    TheFlint,
    TheClub,
    TheDiamond,
    TheHeart,
    TheSpade,
    ThePsychic,
    TheMouth,
    TheEye,
    ThePlant,
    TheSerpent,
    TheOx,
    TheHouse,
    TheMark,
    TheFish,
    TheManacle,
    ThePillar,
    TheNeedle,
    TheHead,
    VioletVessel,
    Crimson,
    Cerulean,
    Amber,
    Verdant,
}

/// Observation index of a boss blind (declaration order).
pub open spec fn boss_index(b: BossBlind) -> int {
    match b {
        BossBlind::TheHook => 0,
        BossBlind::TheWall => 1,
        BossBlind::TheWheel => 2,
        BossBlind::TheArm => 3,
        BossBlind::TheFlint => 4,
        BossBlind::TheClub => 5,
        BossBlind::TheDiamond => 6,
        BossBlind::TheHeart => 7,
        BossBlind::TheSpade => 8,
        BossBlind::ThePsychic => 9,
        BossBlind::TheMouth => 10,
        BossBlind::TheEye => 11,
        BossBlind::ThePlant => 12,
        BossBlind::TheSerpent => 13,
        BossBlind::TheOx => 14,
        BossBlind::TheHouse => 15,
        BossBlind::TheMark => 16,
        BossBlind::TheFish => 17,
        BossBlind::TheManacle => 18,
        BossBlind::ThePillar => 19,
        BossBlind::TheNeedle => 20,
        BossBlind::TheHead => 21,
        BossBlind::VioletVessel => 22,
        BossBlind::Crimson => 23,
        BossBlind::Cerulean => 24,
        BossBlind::Amber => 25,
        BossBlind::Verdant => 26,
    }
}

/// Bosses met in antes 1 to 7: those with index below 22.
pub open spec fn is_regular_boss(b: BossBlind) -> bool {
    boss_index(b) < 22
}

impl BossBlind {
    pub fn to_int(&self) -> (r: i32)
        ensures
            r == boss_index(*self),
    {
        match self {
            BossBlind::TheHook => 0,
            BossBlind::TheWall => 1,
            BossBlind::TheWheel => 2,
            BossBlind::TheArm => 3,
            BossBlind::TheFlint => 4,
            BossBlind::TheClub => 5,
            BossBlind::TheDiamond => 6,
            BossBlind::TheHeart => 7,
            BossBlind::TheSpade => 8,
            BossBlind::ThePsychic => 9,
            BossBlind::TheMouth => 10,
            BossBlind::TheEye => 11,
            BossBlind::ThePlant => 12,
            BossBlind::TheSerpent => 13,
            BossBlind::TheOx => 14,
            BossBlind::TheHouse => 15,
            BossBlind::TheMark => 16,
            BossBlind::TheFish => 17,
            BossBlind::TheManacle => 18,
            BossBlind::ThePillar => 19,
            BossBlind::TheNeedle => 20,
            BossBlind::TheHead => 21,
            BossBlind::VioletVessel => 22,
            BossBlind::Crimson => 23,
            BossBlind::Cerulean => 24,
            BossBlind::Amber => 25,
            BossBlind::Verdant => 26,
        }
    }

    /// Bosses of antes 1 to 7, in index order.
    pub fn regular_bosses() -> (r: &'static [BossBlind])
        ensures
            r@.len() == 22,
            forall|i: int| 0 <= i < 22 ==> boss_index(#[trigger] r@[i]) == i,
    {
        let r: &'static [BossBlind] = &[
            BossBlind::TheHook,
            BossBlind::TheWall,
            BossBlind::TheWheel,
            BossBlind::TheArm,
            BossBlind::TheFlint,
            BossBlind::TheClub,
            BossBlind::TheDiamond,
            BossBlind::TheHeart,
            BossBlind::TheSpade,
            BossBlind::ThePsychic,
            BossBlind::TheMouth,
            BossBlind::TheEye,
            BossBlind::ThePlant,
            BossBlind::TheSerpent,
            BossBlind::TheOx,
            BossBlind::TheHouse,
            BossBlind::TheMark,
            BossBlind::TheFish,
            BossBlind::TheManacle,
            BossBlind::ThePillar,
            BossBlind::TheNeedle,
            BossBlind::TheHead,
        ];
        r
    }

    /// Bosses of ante 8, in index order.
    pub fn showdown_bosses() -> (r: &'static [BossBlind])
        ensures
            r@.len() == 5,
            forall|i: int| 0 <= i < 5 ==> boss_index(#[trigger] r@[i]) == 22 + i,
    {
        let r: &'static [BossBlind] = &[
            BossBlind::VioletVessel,
            BossBlind::Crimson,
            BossBlind::Cerulean,
            BossBlind::Amber,
            BossBlind::Verdant,
        ];
        r
    }

    /// Whether this boss debuffs the given suit (clubs 0, diamonds 1, hearts 2, spades 3).
    pub fn disables_suit(&self, suit: u8) -> (r: bool)
        ensures
            r == ((*self == BossBlind::TheClub && suit == 0)
                || (*self == BossBlind::TheDiamond && suit == 1)
                || (*self == BossBlind::TheHeart && suit == 2)
                || (*self == BossBlind::TheSpade && suit == 3)),
    {
        match (self, suit) {
            (BossBlind::TheClub, 0) => true,
            (BossBlind::TheDiamond, 1) => true,
            (BossBlind::TheHeart, 2) => true,
            (BossBlind::TheSpade, 3) => true,
            _ => false,
        }
    }

    /// The Plant debuffs face cards.
    pub fn disables_face_cards(&self) -> (r: bool)
        ensures
            r == (*self == BossBlind::ThePlant),
    {
        matches!(self, BossBlind::ThePlant)
    }

    /// The Psychic demands five cards.
    pub fn requires_five_cards(&self) -> (r: bool)
        ensures
            r == (*self == BossBlind::ThePsychic),
    {
        matches!(self, BossBlind::ThePsychic)
    }

    /// Cap on the hands of a blind: one under The Needle, one fewer under Crimson.
    pub fn max_plays(&self) -> (r: Option<i32>)
        ensures
            r == (match *self {
                BossBlind::TheNeedle => Some(1i32),
                BossBlind::Crimson => Some((PLAYS_PER_BLIND - 1) as i32),
                _ => None::<i32>,
            }),
    {
        match self {
            BossBlind::TheNeedle => Some(1),
            BossBlind::Crimson => Some(PLAYS_PER_BLIND - 1),
            _ => None,
        }
    }
}

/// The eight antes of a run.
#[derive(Clone, Copy, Debug, PartialEq, Eq, Structural)]
pub enum Ante {
    One,
    Two,
    Three,
    Four,
    Five,
    Six,
    Seven,
    Eight,
}

/// Number of an ante, 1 to 8.
pub open spec fn ante_number(a: Ante) -> int {
    match a {
        Ante::One => 1,
        Ante::Two => 2,
        Ante::Three => 3,
        Ante::Four => 4,
        Ante::Five => 5,
        Ante::Six => 6,
        Ante::Seven => 7,
        Ante::Eight => 8,
    }
}

/// Base score to beat at an ante (white stake).
pub open spec fn ante_base_score(a: Ante) -> int {
    match a {
        Ante::One => 300,
        Ante::Two => 800,
        Ante::Three => 2_000,
        Ante::Four => 5_000,
        Ante::Five => 11_000,
        Ante::Six => 20_000,
        Ante::Seven => 35_000,
        Ante::Eight => 50_000,
    }
}

/// Balatro's White Stake base scores of antes 1 to 8, in order.
pub open spec fn white_stake_base_scores() -> Seq<int> {
    seq![300, 800, 2_000, 5_000, 11_000, 20_000, 35_000, 50_000]
}

/// An ante's base score is the White Stake table's entry for its number, and the base
/// score grows strictly from ante to ante.
pub proof fn lemma_ante_base_scores(a: Ante, b: Ante)
    ensures
        1 <= ante_number(a) <= 8,
        ante_base_score(a) == white_stake_base_scores()[ante_number(a) - 1],
        ante_number(a) < ante_number(b) ==> ante_base_score(a) < ante_base_score(b),
        ante_number(a) == ante_number(b) ==> a == b,
{
}

impl Ante {
    /// The base score of the ante (White Stake).
    pub fn base_score(&self) -> (r: i64)
        ensures
            r == ante_base_score(*self),
            r == white_stake_base_scores()[ante_number(*self) - 1],
    {
        match self {
            Ante::One => 300,
            Ante::Two => 800,
            Ante::Three => 2_000,
            Ante::Four => 5_000,
            Ante::Five => 11_000,
            Ante::Six => 20_000,
            Ante::Seven => 35_000,
            Ante::Eight => 50_000,
        }
    }

    /// The following ante; none after the eighth.
    pub fn next(&self) -> (r: Option<Ante>)
        ensures
            ante_number(*self) < 8 ==> r.is_some() && ante_number(r.unwrap()) == ante_number(*self) + 1,
            ante_number(*self) == 8 ==> r.is_none(),
    {
        match self {
            Ante::One => Some(Ante::Two),
            Ante::Two => Some(Ante::Three),
            Ante::Three => Some(Ante::Four),
            Ante::Four => Some(Ante::Five),
            Ante::Five => Some(Ante::Six),
            Ante::Six => Some(Ante::Seven),
            Ante::Seven => Some(Ante::Eight),
            Ante::Eight => None,
        }
    }

    pub fn to_int(&self) -> (r: i32)
        ensures
            r == ante_number(*self),
    {
        match self {
            Ante::One => 1,
            Ante::Two => 2,
            Ante::Three => 3,
            Ante::Four => 4,
            Ante::Five => 5,
            Ante::Six => 6,
            Ante::Seven => 7,
            Ante::Eight => 8,
        }
    }
}

/// Ante numbers identify antes: the number determines the ante.
pub proof fn lemma_ante_number_injective(a: Ante, b: Ante)
    requires
        ante_number(a) == ante_number(b),
    ensures
        a == b,
{
}

/// Base scores rise strictly from one ante to the next.
pub proof fn lemma_base_score_increasing(a: Ante, b: Ante)
    requires
        ante_number(a) < ante_number(b),
    ensures
        ante_base_score(a) < ante_base_score(b),
{
}

} // verus!
