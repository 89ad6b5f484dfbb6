//! Joker identities and their catalogue data (cost, rarity, index).

use vstd::prelude::*;
use vstd::string::StringSliceAdditionalSpecFns;

use crate::cards::Card;
use crate::hand_types::HandId;




verus! {

/// Number of joker identities.
pub const JOKER_COUNT: usize = 163;

/// Joker identity. The declaration order is the observation index.
#[derive(Clone, Copy, Debug, PartialEq, Eq, Structural, Hash)]
#[allow(non_camel_case_types)]
pub enum JokerId {
    Joker,
    /// +$3 per Diamond
    GreedyJoker,
    /// +$3 per Heart
    LustyJoker,
    /// +$3 per Spade
    WrathfulJoker,
    /// +$3 per Club
    GluttonousJoker,
    /// +8 Mult (Pair)
    JollyJoker,
    /// +12 Mult (Three of a Kind)
    ZanyJoker,
    /// +10 Mult (Two Pair)
    MadJoker,
    /// +12 Mult (Straight)
    CrazyJoker,
    /// +10 Mult (Flush)
    DrollJoker,
    /// +50 Chips (Pair)
    SlyJoker,
    /// +100 Chips (Three of a Kind)
    WilyJoker,
    /// +80 Chips (Two Pair)
    CleverJoker,
    /// +100 Chips (Straight)
    DeviousJoker,
    /// +80 Chips (Flush)
    CraftyJoker,
    /// +20 Mult if <=3 cards
    HalfJoker,
    /// +30 Chips per remaining discard
    Banner,
    /// +15 Mult if 0 discards left
    MysticSummit,
    /// +?? Mult (random 0-23)
    Misprint,
    /// +3 Mult per Joker
    AbstractJoker,
    /// +1 Mult per consecutive non-face hand
    RideTheBus,
    /// X0.2 Mult per Steel card in full hand
    SteelJoker,
    /// X0.75 Mult per Glass card broken
    GlassJoker,
    /// X0.25 Mult per card added to deck
    Hologram,
    /// Straights/Flushes can be made with 4 cards
    FourFingers,
    /// Straights can skip 1 rank
    Shortcut,
    /// Every card counts in every hand type
    Splash,
    /// X2 Mult for first Face card played
    Photograph,
    /// +1 Mult per hand played (resets per round)
    GreenJoker,
    /// Creates X2 Mult when hand is both Straight & Flush
    SuperPosition,
    /// X2 Mult on last hand of round
    DuskJoker,
    /// Ace/2/3/5/8 played give +8 Mult
    Fibonacci,
    /// Face cards give +30 Chips
    ScaryFace,
    /// Even cards give +4 Mult
    EvenSteven,
    /// Odd cards give +31 Chips
    OddTodd,
    /// Aces give +20 Chips and +4 Mult
    Scholar,
    /// Face cards have 1/2 chance +$2
    BusinessCard,
    /// +Mult equal to times hand played this run
    Supernova,
    /// +4 Mult for each card below 52 in deck
    Erosion,
    /// +$1 per $5 held (replaces interest)
    ToTheMoon,
    /// +$4 at end of round
    GoldenJoker,
    /// +2 Chips for each $1 held
    Bull,
    /// +$3 sell value per round
    Egg,
    /// Creates Tarot on Blind skip
    Cartomancer,
    /// Creates Planet on Blind skip
    Astronomer,
    /// +$1 at end of round (scaling)
    Rocket,
    /// +1 Mult per Tarot used this run
    FortuneTeller,
    /// +$5 if 3+ Face cards discarded
    Faceless,
    /// 1/4 chance to upgrade hand level
    SpaceJoker,
    /// Creates Tarot if hand played with <=4 cards
    Vagabond,
    /// +250 Chips, -2 hand size
    Stuntman,
    /// Copies leftmost Joker ability
    Brainstorm,
    /// +$1 per unique Planet used this run
    Satellite,
    /// +13 Mult per Queen in hand
    ShootTheMoon,
    /// 1/2 chance X1.5 Mult for Hearts scored
    Bloodstone,
    /// Spades give +50 Chips
    Arrowhead,
    /// Clubs give +80 Mult
    Onyx,
    /// Diamonds give +1.5 X Mult
    Opal,
    /// +1 discard each round
    Drunkard,
    /// X2 Mult, loses $1 sell per round
    SteakJoker,
    /// +100 Chips, -5 per hand played
    IceCream,
    /// First hand each round triggers twice
    DNA,
    /// +2 Chips per card in deck
    BlueJoker,
    /// Play or discard 6, destroy and gain 1 Spectral
    Sixth,
    /// X0.1 Mult per Planet used this run
    Constellation,
    /// +2 Chips per card played
    Hiker,
    /// +$1 per 9 in full deck
    CloudNine,
    /// +20 Mult, -4 per round
    Popcorn,
    /// X1.5 Mult if hand contains specific suit
    AncientJoker,
    /// X2 Mult, loses X0.01 per card discarded
    Ramen,
    /// +10 Mult if hand contains 10 or 4
    Walkie,
    /// Next 10 scored cards retrigger
    Selzer,
    /// +3 Chips per discarded card for specific suit
    Castle,
    /// Face cards give +5 Mult
    Smiley,
    /// X Mult +0.25 for each card sold
    Campfire,
    /// +$1 per Gold card played
    Ticket,
    /// Prevents death if chips > 25% of requirement
    MrBones,
    /// X3 Mult on final hand of round
    Acrobat,
    /// Retrigger all played Face cards
    SockAndBuskin,
    /// +2 Mult per card in hand below 8
    Swashbuckler,
    /// +2 hand size, -1 hand per round
    Troubadour,
    /// +$1 per Gold Seal card in hand
    Certificate,
    /// Hearts/Diamonds same suit, Spades/Clubs same suit
    Smeared,
    /// X0.25 Mult per blind skipped this run
    Throwback,
    /// Retrigger first played card
    HangingChad,
    /// Diamonds give +$1
    RoughGem,
    /// Retrigger abilities of cards held in hand
    Mime,
    /// Allows going $20 into debt
    CreditCard,
    /// When Blind selected, destroy rightmost Joker
    Ceremonial,
    /// Copies ability of Joker to the right
    Blueprint,
    /// +8 Chips per round (persistent)
    Wee,
    /// +3 Mult per round (persistent)
    Merry,
    /// +3 Mult per reroll this run
    RedCard,
    /// X0.5 Mult, destroys random Joker on Blind select
    Madness,
    /// +4 Chips if hand has exactly 4 cards
    Square,
    /// If hand is Straight Flush, create Spectral
    Seance,
    /// On Blind select, create 2 Common Jokers
    RiffRaff,
    /// X1 Mult, gains enhancements from played cards
    Vampire,
    /// After 2 rounds, sell to duplicate random Joker
    InvisibleJoker,
    /// Each King held gives X1.5 Mult
    Baron,
    /// X3 Mult, 1/1000 chance to self-destruct
    Cavendish,
    /// X3 Mult if hand already played this round
    Card_Sharp,
    /// +$2 per round if no discards used
    Delayed,
    /// Retrigger 2/3/4/5 cards
    Hack,
    /// All cards count as Face cards
    Pareidolia,
    /// +15 Mult, 1/15 chance to self-destruct
    Gros_Michel,
    /// X2 Mult if hand only contains evens
    Even_Steven,
    /// X2 Mult if hand only contains odds
    Odd_Todd_2,
    /// +1 hand size
    Juggler,
    /// X3 Mult if you have 16+ enhanced cards
    DriversLicense,
    /// X0.5 Mult, gains X0.5 for each Jack discarded
    Hit_The_Road,
    /// X2 Mult if hand contains Pair
    The_Duo,
    /// X3 Mult if hand contains Three of a Kind
    The_Trio,
    /// X4 Mult if hand contains Four of a Kind
    The_Family,
    /// X3 Mult if hand contains Straight
    The_Order,
    /// X2 Mult if hand contains Flush
    The_Tribe,
    /// X1 Mult for each empty Joker slot
    Stencil,
    /// Creates Negative copy of 1 consumable at end of shop
    Perkeo,
    /// X3 Mult if hand has Diamond/Club/Heart/Spade
    Flower_Pot,
    /// Reserved
    BluePrint,
    /// X1 Mult, gains X1 for every face card destroyed
    Canio,
    /// Kings and Queens give X2 Mult
    Triboulet,
    /// X1 Mult, gains X1 for every 23 cards discarded
    Yorick,
    /// Disables Boss Blind effects
    Chicot,
    /// Reserved
    Perkeo_2,
    /// X2 Mult if hand has Club AND another suit
    Seeing_Double,
    /// +$8 when Boss Blind ability triggers
    Matador,
    /// Reserved
    Stuntman_2,
    /// +25 Chips for each Stone card in deck
    Stone,
    /// X0.25 Mult for each Lucky card triggered
    Lucky_Cat,
    /// X0.2 Mult per consecutive hand without most played type
    Obelisk,
    /// +15 Chips if hand is Straight
    Runner,
    /// +25 Chips per card below Ace in hand
    Courier,
    /// Reserved
    Cloud9,
    /// +2 Mult if hand has Two Pair
    Spare_Trousers,
    /// Jokers can appear multiple times
    Ring_Master,
    /// Gold cards give +$3 at round end
    Golden_Ticket,
    /// Reserved
    Rough_Gem_2,
    /// +2 Mult for each $5 above $0
    Bootstraps,
    /// X1 Mult, gains X0.1 for every face card destroyed
    Caino,
    /// +2 Mult per reroll used
    Flash,
    /// +4 Mult if hand has Two Pair
    Trousers,
    LoyaltyCard,
    Blackboard,
    TurtleBean,
    Burglar,
    GiftCard,
    /// Sell to disable current Boss Blind effect
    Luchador,
    ReservedParking,
    TradingCard,
    MarbleJoker,
    MailInRebate,
    /// X1.5 Mult for each Uncommon Joker held
    BaseballCard,
    /// Lowest held card gives 2X its rank as Mult
    RaisedFist,
    EightBall,
    ToDoList,
    BurntJoker,
    MidasMask,
    OopsAll6s,
    TheIdol,
    SquareJoker,
    DietCola,
    ChaosTheClown,
}

/// Observation index of a joker (declaration order).
pub open spec fn joker_index(j: JokerId) -> int {
    match j {
        JokerId::Joker => 0,
        JokerId::GreedyJoker => 1,
        JokerId::LustyJoker => 2,
        JokerId::WrathfulJoker => 3,
        JokerId::GluttonousJoker => 4,
        JokerId::JollyJoker => 5,
        JokerId::ZanyJoker => 6,
        JokerId::MadJoker => 7,
        JokerId::CrazyJoker => 8,
        JokerId::DrollJoker => 9,
        JokerId::SlyJoker => 10,
        JokerId::WilyJoker => 11,
        JokerId::CleverJoker => 12,
        JokerId::DeviousJoker => 13,
        JokerId::CraftyJoker => 14,
        JokerId::HalfJoker => 15,
        JokerId::Banner => 16,
        JokerId::MysticSummit => 17,
        JokerId::Misprint => 18,
        JokerId::AbstractJoker => 19,
        JokerId::RideTheBus => 20,
        JokerId::SteelJoker => 21,
        JokerId::GlassJoker => 22,
        JokerId::Hologram => 23,
        JokerId::FourFingers => 24,
        JokerId::Shortcut => 25,
        JokerId::Splash => 26,
        JokerId::Photograph => 27,
        JokerId::GreenJoker => 28,
        JokerId::SuperPosition => 29,
        JokerId::DuskJoker => 30,
        JokerId::Fibonacci => 31,
        JokerId::ScaryFace => 32,
        JokerId::EvenSteven => 33,
        JokerId::OddTodd => 34,
        JokerId::Scholar => 35,
        JokerId::BusinessCard => 36,
        JokerId::Supernova => 37,
        JokerId::Erosion => 38,
        JokerId::ToTheMoon => 39,
        JokerId::GoldenJoker => 40,
        JokerId::Bull => 41,
        JokerId::Egg => 42,
        JokerId::Cartomancer => 43,
        JokerId::Astronomer => 44,
        JokerId::Rocket => 45,
        JokerId::FortuneTeller => 46,
        JokerId::Faceless => 47,
        JokerId::SpaceJoker => 48,
        JokerId::Vagabond => 49,
        JokerId::Stuntman => 50,
        JokerId::Brainstorm => 51,
        JokerId::Satellite => 52,
        JokerId::ShootTheMoon => 53,
        JokerId::Bloodstone => 54,
        JokerId::Arrowhead => 55,
        JokerId::Onyx => 56,
        JokerId::Opal => 57,
        JokerId::Drunkard => 58,
        JokerId::SteakJoker => 59,
        JokerId::IceCream => 60,
        JokerId::DNA => 61,
        JokerId::BlueJoker => 62,
        JokerId::Sixth => 63,
        JokerId::Constellation => 64,
        JokerId::Hiker => 65,
        JokerId::CloudNine => 66,
        JokerId::Popcorn => 67,
        JokerId::AncientJoker => 68,
        JokerId::Ramen => 69,
        JokerId::Walkie => 70,
        JokerId::Selzer => 71,
        JokerId::Castle => 72,
        JokerId::Smiley => 73,
        JokerId::Campfire => 74,
        JokerId::Ticket => 75,
        JokerId::MrBones => 76,
        JokerId::Acrobat => 77,
        JokerId::SockAndBuskin => 78,
        JokerId::Swashbuckler => 79,
        JokerId::Troubadour => 80,
        JokerId::Certificate => 81,
        JokerId::Smeared => 82,
        JokerId::Throwback => 83,
        JokerId::HangingChad => 84,
        JokerId::RoughGem => 85,
        JokerId::Mime => 86,
        JokerId::CreditCard => 87,
        JokerId::Ceremonial => 88,
        JokerId::Blueprint => 89,
        JokerId::Wee => 90,
        JokerId::Merry => 91,
        JokerId::RedCard => 92,
        JokerId::Madness => 93,
        JokerId::Square => 94,
        JokerId::Seance => 95,
        JokerId::RiffRaff => 96,
        JokerId::Vampire => 97,
        JokerId::InvisibleJoker => 98,
        JokerId::Baron => 99,
        JokerId::Cavendish => 100,
        JokerId::Card_Sharp => 101,
        JokerId::Delayed => 102,
        JokerId::Hack => 103,
        JokerId::Pareidolia => 104,
        JokerId::Gros_Michel => 105,
        JokerId::Even_Steven => 106,
        JokerId::Odd_Todd_2 => 107,
        JokerId::Juggler => 108,
        JokerId::DriversLicense => 109,
        JokerId::Hit_The_Road => 110,
        JokerId::The_Duo => 111,
        JokerId::The_Trio => 112,
        JokerId::The_Family => 113,
        JokerId::The_Order => 114,
        JokerId::The_Tribe => 115,
        JokerId::Stencil => 116,
        JokerId::Perkeo => 117,
        JokerId::Flower_Pot => 118,
        JokerId::BluePrint => 119,
        JokerId::Canio => 120,
        JokerId::Triboulet => 121,
        JokerId::Yorick => 122,
        JokerId::Chicot => 123,
        JokerId::Perkeo_2 => 124,
        JokerId::Seeing_Double => 125,
        JokerId::Matador => 126,
        JokerId::Stuntman_2 => 127,
        JokerId::Stone => 128,
        JokerId::Lucky_Cat => 129,
        JokerId::Obelisk => 130,
        JokerId::Runner => 131,
        JokerId::Courier => 132,
        JokerId::Cloud9 => 133,
        JokerId::Spare_Trousers => 134,
        JokerId::Ring_Master => 135,
        JokerId::Golden_Ticket => 136,
        JokerId::Rough_Gem_2 => 137,
        JokerId::Bootstraps => 138,
        JokerId::Caino => 139,
        JokerId::Flash => 140,
        JokerId::Trousers => 141,
        JokerId::LoyaltyCard => 142,
        JokerId::Blackboard => 143,
        JokerId::TurtleBean => 144,
        JokerId::Burglar => 145,
        JokerId::GiftCard => 146,
        JokerId::Luchador => 147,
        JokerId::ReservedParking => 148,
        JokerId::TradingCard => 149,
        JokerId::MarbleJoker => 150,
        JokerId::MailInRebate => 151,
        JokerId::BaseballCard => 152,
        JokerId::RaisedFist => 153,
        JokerId::EightBall => 154,
        JokerId::ToDoList => 155,
        JokerId::BurntJoker => 156,
        JokerId::MidasMask => 157,
        JokerId::OopsAll6s => 158,
        JokerId::TheIdol => 159,
        JokerId::SquareJoker => 160,
        JokerId::DietCola => 161,
        JokerId::ChaosTheClown => 162,
    }
}

/// The joker with a given index (indices 0 to 162).
pub open spec fn joker_at(i: int) -> JokerId {
    if i == 0 {
        JokerId::Joker
    } else if i == 1 {
        JokerId::GreedyJoker
    } else if i == 2 {
        JokerId::LustyJoker
    } else if i == 3 {
        JokerId::WrathfulJoker
    } else if i == 4 {
        JokerId::GluttonousJoker
    } else if i == 5 {
        JokerId::JollyJoker
    } else if i == 6 {
        JokerId::ZanyJoker
    } else if i == 7 {
        JokerId::MadJoker
    } else if i == 8 {
        JokerId::CrazyJoker
    } else if i == 9 {
        JokerId::DrollJoker
    } else if i == 10 {
        JokerId::SlyJoker
    } else if i == 11 {
        JokerId::WilyJoker
    } else if i == 12 {
        JokerId::CleverJoker
    } else if i == 13 {
        JokerId::DeviousJoker
    } else if i == 14 {
        JokerId::CraftyJoker
    } else if i == 15 {
        JokerId::HalfJoker
    } else if i == 16 {
        JokerId::Banner
    } else if i == 17 {
        JokerId::MysticSummit
    } else if i == 18 {
        JokerId::Misprint
    } else if i == 19 {
        JokerId::AbstractJoker
    } else if i == 20 {
        JokerId::RideTheBus
    } else if i == 21 {
        JokerId::SteelJoker
    } else if i == 22 {
        JokerId::GlassJoker
    } else if i == 23 {
        JokerId::Hologram
    } else if i == 24 {
        JokerId::FourFingers
    } else if i == 25 {
        JokerId::Shortcut
    } else if i == 26 {
        JokerId::Splash
    } else if i == 27 {
        JokerId::Photograph
    } else if i == 28 {
        JokerId::GreenJoker
    } else if i == 29 {
        JokerId::SuperPosition
    } else if i == 30 {
        JokerId::DuskJoker
    } else if i == 31 {
        JokerId::Fibonacci
    } else if i == 32 {
        JokerId::ScaryFace
    } else if i == 33 {
        JokerId::EvenSteven
    } else if i == 34 {
        JokerId::OddTodd
    } else if i == 35 {
        JokerId::Scholar
    } else if i == 36 {
        JokerId::BusinessCard
    } else if i == 37 {
        JokerId::Supernova
    } else if i == 38 {
        JokerId::Erosion
    } else if i == 39 {
        JokerId::ToTheMoon
    } else if i == 40 {
        JokerId::GoldenJoker
    } else if i == 41 {
        JokerId::Bull
    } else if i == 42 {
        JokerId::Egg
    } else if i == 43 {
        JokerId::Cartomancer
    } else if i == 44 {
        JokerId::Astronomer
    } else if i == 45 {
        JokerId::Rocket
    } else if i == 46 {
        JokerId::FortuneTeller
    } else if i == 47 {
        JokerId::Faceless
    } else if i == 48 {
        JokerId::SpaceJoker
    } else if i == 49 {
        JokerId::Vagabond
    } else if i == 50 {
        JokerId::Stuntman
    } else if i == 51 {
        JokerId::Brainstorm
    } else if i == 52 {
        JokerId::Satellite
    } else if i == 53 {
        JokerId::ShootTheMoon
    } else if i == 54 {
        JokerId::Bloodstone
    } else if i == 55 {
        JokerId::Arrowhead
    } else if i == 56 {
        JokerId::Onyx
    } else if i == 57 {
        JokerId::Opal
    } else if i == 58 {
        JokerId::Drunkard
    } else if i == 59 {
        JokerId::SteakJoker
    } else if i == 60 {
        JokerId::IceCream
    } else if i == 61 {
        JokerId::DNA
    } else if i == 62 {
        JokerId::BlueJoker
    } else if i == 63 {
        JokerId::Sixth
    } else if i == 64 {
        JokerId::Constellation
    } else if i == 65 {
        JokerId::Hiker
    } else if i == 66 {
        JokerId::CloudNine
    } else if i == 67 {
        JokerId::Popcorn
    } else if i == 68 {
        JokerId::AncientJoker
    } else if i == 69 {
        JokerId::Ramen
    } else if i == 70 {
        JokerId::Walkie
    } else if i == 71 {
        JokerId::Selzer
    } else if i == 72 {
        JokerId::Castle
    } else if i == 73 {
        JokerId::Smiley
    } else if i == 74 {
        JokerId::Campfire
    } else if i == 75 {
        JokerId::Ticket
    } else if i == 76 {
        JokerId::MrBones
    } else if i == 77 {
        JokerId::Acrobat
    } else if i == 78 {
        JokerId::SockAndBuskin
    } else if i == 79 {
        JokerId::Swashbuckler
    } else if i == 80 {
        JokerId::Troubadour
    } else if i == 81 {
        JokerId::Certificate
    } else if i == 82 {
        JokerId::Smeared
    } else if i == 83 {
        JokerId::Throwback
    } else if i == 84 {
        JokerId::HangingChad
    } else if i == 85 {
        JokerId::RoughGem
    } else if i == 86 {
        JokerId::Mime
    } else if i == 87 {
        JokerId::CreditCard
    } else if i == 88 {
        JokerId::Ceremonial
    } else if i == 89 {
        JokerId::Blueprint
    } else if i == 90 {
        JokerId::Wee
    } else if i == 91 {
        JokerId::Merry
    } else if i == 92 {
        JokerId::RedCard
    } else if i == 93 {
        JokerId::Madness
    } else if i == 94 {
        JokerId::Square
    } else if i == 95 {
        JokerId::Seance
    } else if i == 96 {
        JokerId::RiffRaff
    } else if i == 97 {
        JokerId::Vampire
    } else if i == 98 {
        JokerId::InvisibleJoker
    } else if i == 99 {
        JokerId::Baron
    } else if i == 100 {
        JokerId::Cavendish
    } else if i == 101 {
        JokerId::Card_Sharp
    } else if i == 102 {
        JokerId::Delayed
    } else if i == 103 {
        JokerId::Hack
    } else if i == 104 {
        JokerId::Pareidolia
    } else if i == 105 {
        JokerId::Gros_Michel
    } else if i == 106 {
        JokerId::Even_Steven
    } else if i == 107 {
        JokerId::Odd_Todd_2
    } else if i == 108 {
        JokerId::Juggler
    } else if i == 109 {
        JokerId::DriversLicense
    } else if i == 110 {
        JokerId::Hit_The_Road
    } else if i == 111 {
        JokerId::The_Duo
    } else if i == 112 {
        JokerId::The_Trio
    } else if i == 113 {
        JokerId::The_Family
    } else if i == 114 {
        JokerId::The_Order
    } else if i == 115 {
        JokerId::The_Tribe
    } else if i == 116 {
        JokerId::Stencil
    } else if i == 117 {
        JokerId::Perkeo
    } else if i == 118 {
        JokerId::Flower_Pot
    } else if i == 119 {
        JokerId::BluePrint
    } else if i == 120 {
        JokerId::Canio
    } else if i == 121 {
        JokerId::Triboulet
    } else if i == 122 {
        JokerId::Yorick
    } else if i == 123 {
        JokerId::Chicot
    } else if i == 124 {
        JokerId::Perkeo_2
    } else if i == 125 {
        JokerId::Seeing_Double
    } else if i == 126 {
        JokerId::Matador
    } else if i == 127 {
        JokerId::Stuntman_2
    } else if i == 128 {
        JokerId::Stone
    } else if i == 129 {
        JokerId::Lucky_Cat
    } else if i == 130 {
        JokerId::Obelisk
    } else if i == 131 {
        JokerId::Runner
    } else if i == 132 {
        JokerId::Courier
    } else if i == 133 {
        JokerId::Cloud9
    } else if i == 134 {
        JokerId::Spare_Trousers
    } else if i == 135 {
        JokerId::Ring_Master
    } else if i == 136 {
        JokerId::Golden_Ticket
    } else if i == 137 {
        JokerId::Rough_Gem_2
    } else if i == 138 {
        JokerId::Bootstraps
    } else if i == 139 {
        JokerId::Caino
    } else if i == 140 {
        JokerId::Flash
    } else if i == 141 {
        JokerId::Trousers
    } else if i == 142 {
        JokerId::LoyaltyCard
    } else if i == 143 {
        JokerId::Blackboard
    } else if i == 144 {
        JokerId::TurtleBean
    } else if i == 145 {
        JokerId::Burglar
    } else if i == 146 {
        JokerId::GiftCard
    } else if i == 147 {
        JokerId::Luchador
    } else if i == 148 {
        JokerId::ReservedParking
    } else if i == 149 {
        JokerId::TradingCard
    } else if i == 150 {
        JokerId::MarbleJoker
    } else if i == 151 {
        JokerId::MailInRebate
    } else if i == 152 {
        JokerId::BaseballCard
    } else if i == 153 {
        JokerId::RaisedFist
    } else if i == 154 {
        JokerId::EightBall
    } else if i == 155 {
        JokerId::ToDoList
    } else if i == 156 {
        JokerId::BurntJoker
    } else if i == 157 {
        JokerId::MidasMask
    } else if i == 158 {
        JokerId::OopsAll6s
    } else if i == 159 {
        JokerId::TheIdol
    } else if i == 160 {
        JokerId::SquareJoker
    } else if i == 161 {
        JokerId::DietCola
    } else {
        JokerId::ChaosTheClown
    }
}

/// Base shop cost of a joker.
pub open spec fn joker_base_cost(j: JokerId) -> int {
    match j {
        JokerId::Joker => 2,
        JokerId::GreedyJoker => 5,
        JokerId::LustyJoker => 5,
        JokerId::WrathfulJoker => 5,
        JokerId::GluttonousJoker => 5,
        JokerId::JollyJoker => 4,
        JokerId::ZanyJoker => 5,
        JokerId::MadJoker => 5,
        JokerId::CrazyJoker => 5,
        JokerId::DrollJoker => 5,
        JokerId::SlyJoker => 4,
        JokerId::WilyJoker => 5,
        JokerId::CleverJoker => 5,
        JokerId::DeviousJoker => 5,
        JokerId::CraftyJoker => 5,
        JokerId::HalfJoker => 5,
        JokerId::Banner => 5,
        JokerId::MysticSummit => 6,
        JokerId::Misprint => 4,
        JokerId::AbstractJoker => 6,
        JokerId::RideTheBus => 6,
        JokerId::SteelJoker => 7,
        JokerId::GlassJoker => 6,
        JokerId::Hologram => 5,
        JokerId::FourFingers => 7,
        JokerId::Shortcut => 6,
        JokerId::Splash => 7,
        JokerId::Photograph => 7,
        JokerId::GreenJoker => 5,
        JokerId::SuperPosition => 6,
        JokerId::DuskJoker => 6,
        JokerId::Fibonacci => 6,
        JokerId::ScaryFace => 5,
        JokerId::EvenSteven => 5,
        JokerId::OddTodd => 5,
        JokerId::Scholar => 5,
        JokerId::BusinessCard => 5,
        JokerId::Supernova => 6,
        JokerId::Erosion => 6,
        JokerId::ToTheMoon => 6,
        JokerId::GoldenJoker => 6,
        JokerId::Bull => 6,
        JokerId::Egg => 4,
        JokerId::Cartomancer => 5,
        JokerId::Astronomer => 5,
        JokerId::Rocket => 6,
        JokerId::FortuneTeller => 5,
        JokerId::Faceless => 5,
        JokerId::SpaceJoker => 5,
        JokerId::Vagabond => 5,
        JokerId::Stuntman => 5,
        JokerId::Brainstorm => 10,
        JokerId::Satellite => 5,
        JokerId::ShootTheMoon => 5,
        JokerId::Bloodstone => 7,
        JokerId::Arrowhead => 7,
        JokerId::Onyx => 8,
        JokerId::Opal => 8,
        JokerId::Drunkard => 5,
        JokerId::SteakJoker => 5,
        JokerId::IceCream => 5,
        JokerId::DNA => 8,
        JokerId::BlueJoker => 5,
        JokerId::Sixth => 5,
        JokerId::Constellation => 5,
        JokerId::Hiker => 5,
        JokerId::CloudNine => 5,
        JokerId::Popcorn => 5,
        JokerId::AncientJoker => 5,
        JokerId::Ramen => 5,
        JokerId::Walkie => 5,
        JokerId::Selzer => 5,
        JokerId::Castle => 5,
        JokerId::Smiley => 5,
        JokerId::Campfire => 5,
        JokerId::Ticket => 5,
        JokerId::MrBones => 5,
        JokerId::Acrobat => 8,
        JokerId::SockAndBuskin => 8,
        JokerId::Swashbuckler => 5,
        JokerId::Troubadour => 5,
        JokerId::Certificate => 5,
        JokerId::Smeared => 5,
        JokerId::Throwback => 5,
        JokerId::HangingChad => 5,
        JokerId::RoughGem => 5,
        JokerId::Mime => 8,
        JokerId::CreditCard => 5,
        JokerId::Ceremonial => 5,
        JokerId::Blueprint => 10,
        JokerId::Wee => 5,
        JokerId::Merry => 5,
        JokerId::RedCard => 5,
        JokerId::Madness => 5,
        JokerId::Square => 5,
        JokerId::Seance => 5,
        JokerId::RiffRaff => 5,
        JokerId::Vampire => 8,
        JokerId::InvisibleJoker => 5,
        JokerId::Baron => 8,
        JokerId::Cavendish => 7,
        JokerId::Card_Sharp => 7,
        JokerId::Delayed => 5,
        JokerId::Hack => 5,
        JokerId::Pareidolia => 5,
        JokerId::Gros_Michel => 5,
        JokerId::Even_Steven => 5,
        JokerId::Odd_Todd_2 => 5,
        JokerId::Juggler => 5,
        JokerId::DriversLicense => 5,
        JokerId::Hit_The_Road => 5,
        JokerId::The_Duo => 7,
        JokerId::The_Trio => 7,
        JokerId::The_Family => 8,
        JokerId::The_Order => 7,
        JokerId::The_Tribe => 7,
        JokerId::Stencil => 5,
        JokerId::Perkeo => 5,
        JokerId::Flower_Pot => 5,
        JokerId::BluePrint => 5,
        JokerId::Canio => 5,
        JokerId::Triboulet => 5,
        JokerId::Yorick => 5,
        JokerId::Chicot => 5,
        JokerId::Perkeo_2 => 5,
        JokerId::Seeing_Double => 5,
        JokerId::Matador => 5,
        JokerId::Stuntman_2 => 5,
        JokerId::Stone => 5,
        JokerId::Lucky_Cat => 5,
        JokerId::Obelisk => 5,
        JokerId::Runner => 5,
        JokerId::Courier => 5,
        JokerId::Cloud9 => 5,
        JokerId::Spare_Trousers => 5,
        JokerId::Ring_Master => 5,
        JokerId::Golden_Ticket => 5,
        JokerId::Rough_Gem_2 => 5,
        JokerId::Bootstraps => 5,
        JokerId::Caino => 5,
        JokerId::Flash => 5,
        JokerId::Trousers => 5,
        JokerId::LoyaltyCard => 5,
        JokerId::Blackboard => 5,
        JokerId::TurtleBean => 5,
        JokerId::Burglar => 5,
        JokerId::GiftCard => 5,
        JokerId::Luchador => 5,
        JokerId::ReservedParking => 5,
        JokerId::TradingCard => 5,
        JokerId::MarbleJoker => 5,
        JokerId::MailInRebate => 5,
        JokerId::BaseballCard => 5,
        JokerId::RaisedFist => 5,
        JokerId::EightBall => 5,
        JokerId::ToDoList => 5,
        JokerId::BurntJoker => 5,
        JokerId::MidasMask => 5,
        JokerId::OopsAll6s => 5,
        JokerId::TheIdol => 5,
        JokerId::SquareJoker => 5,
        JokerId::DietCola => 5,
        JokerId::ChaosTheClown => 5,
    }
}

/// Rarity of a joker: 1 common, 2 uncommon, 3 rare, 4 legendary.
pub open spec fn joker_rarity(j: JokerId) -> int {
    match j {
        JokerId::Joker => 1,
        JokerId::GreedyJoker => 1,
        JokerId::LustyJoker => 1,
        JokerId::WrathfulJoker => 1,
        JokerId::GluttonousJoker => 1,
        JokerId::JollyJoker => 1,
        JokerId::ZanyJoker => 1,
        JokerId::MadJoker => 1,
        JokerId::CrazyJoker => 1,
        JokerId::DrollJoker => 1,
        JokerId::SlyJoker => 1,
        JokerId::WilyJoker => 1,
        JokerId::CleverJoker => 1,
        JokerId::DeviousJoker => 1,
        JokerId::CraftyJoker => 1,
        JokerId::HalfJoker => 1,
        JokerId::Banner => 1,
        JokerId::MysticSummit => 2,
        JokerId::Misprint => 1,
        JokerId::AbstractJoker => 2,
        JokerId::RideTheBus => 2,
        JokerId::SteelJoker => 3,
        JokerId::GlassJoker => 3,
        JokerId::Hologram => 2,
        JokerId::FourFingers => 3,
        JokerId::Shortcut => 3,
        JokerId::Splash => 3,
        JokerId::Photograph => 3,
        JokerId::GreenJoker => 1,
        JokerId::SuperPosition => 2,
        JokerId::DuskJoker => 2,
        JokerId::Fibonacci => 1,
        JokerId::ScaryFace => 1,
        JokerId::EvenSteven => 1,
        JokerId::OddTodd => 1,
        JokerId::Scholar => 1,
        JokerId::BusinessCard => 2,
        JokerId::Supernova => 2,
        JokerId::Erosion => 2,
        JokerId::ToTheMoon => 2,
        JokerId::GoldenJoker => 2,
        JokerId::Bull => 2,
        JokerId::Egg => 1,
        JokerId::Cartomancer => 1,
        JokerId::Astronomer => 1,
        JokerId::Rocket => 2,
        JokerId::FortuneTeller => 2,
        JokerId::Faceless => 1,
        JokerId::SpaceJoker => 2,
        JokerId::Vagabond => 1,
        JokerId::Stuntman => 1,
        JokerId::Brainstorm => 3,
        JokerId::Satellite => 1,
        JokerId::ShootTheMoon => 1,
        JokerId::Bloodstone => 3,
        JokerId::Arrowhead => 3,
        JokerId::Onyx => 3,
        JokerId::Opal => 3,
        JokerId::Drunkard => 1,
        JokerId::SteakJoker => 3,
        JokerId::IceCream => 2,
        JokerId::DNA => 3,
        JokerId::BlueJoker => 2,
        JokerId::Sixth => 3,
        JokerId::Constellation => 2,
        JokerId::Hiker => 2,
        JokerId::CloudNine => 2,
        JokerId::Popcorn => 2,
        JokerId::AncientJoker => 2,
        JokerId::Ramen => 2,
        JokerId::Walkie => 2,
        JokerId::Selzer => 2,
        JokerId::Castle => 2,
        JokerId::Smiley => 2,
        JokerId::Campfire => 2,
        JokerId::Ticket => 3,
        JokerId::MrBones => 3,
        JokerId::Acrobat => 3,
        JokerId::SockAndBuskin => 3,
        JokerId::Swashbuckler => 3,
        JokerId::Troubadour => 3,
        JokerId::Certificate => 3,
        JokerId::Smeared => 3,
        JokerId::Throwback => 3,
        JokerId::HangingChad => 3,
        JokerId::RoughGem => 3,
        JokerId::Mime => 3,
        JokerId::CreditCard => 3,
        JokerId::Ceremonial => 1,
        JokerId::Blueprint => 3,
        JokerId::Wee => 1,
        JokerId::Merry => 1,
        JokerId::RedCard => 1,
        JokerId::Madness => 1,
        JokerId::Square => 1,
        JokerId::Seance => 1,
        JokerId::RiffRaff => 1,
        JokerId::Vampire => 3,
        JokerId::InvisibleJoker => 1,
        JokerId::Baron => 3,
        JokerId::Cavendish => 3,
        JokerId::Card_Sharp => 3,
        JokerId::Delayed => 1,
        JokerId::Hack => 1,
        JokerId::Pareidolia => 1,
        JokerId::Gros_Michel => 1,
        JokerId::Even_Steven => 1,
        JokerId::Odd_Todd_2 => 1,
        JokerId::Juggler => 1,
        JokerId::DriversLicense => 1,
        JokerId::Hit_The_Road => 1,
        JokerId::The_Duo => 3,
        JokerId::The_Trio => 3,
        JokerId::The_Family => 3,
        JokerId::The_Order => 3,
        JokerId::The_Tribe => 3,
        JokerId::Stencil => 3,
        JokerId::Perkeo => 4,
        JokerId::Flower_Pot => 1,
        JokerId::BluePrint => 1,
        JokerId::Canio => 4,
        JokerId::Triboulet => 4,
        JokerId::Yorick => 4,
        JokerId::Chicot => 4,
        JokerId::Perkeo_2 => 1,
        JokerId::Seeing_Double => 1,
        JokerId::Matador => 1,
        JokerId::Stuntman_2 => 1,
        JokerId::Stone => 1,
        JokerId::Lucky_Cat => 1,
        JokerId::Obelisk => 1,
        JokerId::Runner => 1,
        JokerId::Courier => 1,
        JokerId::Cloud9 => 1,
        JokerId::Spare_Trousers => 1,
        JokerId::Ring_Master => 1,
        JokerId::Golden_Ticket => 1,
        JokerId::Rough_Gem_2 => 1,
        JokerId::Bootstraps => 1,
        JokerId::Caino => 4,
        JokerId::Flash => 1,
        JokerId::Trousers => 1,
        JokerId::LoyaltyCard => 1,
        JokerId::Blackboard => 1,
        JokerId::TurtleBean => 1,
        JokerId::Burglar => 1,
        JokerId::GiftCard => 1,
        JokerId::Luchador => 1,
        JokerId::ReservedParking => 1,
        JokerId::TradingCard => 1,
        JokerId::MarbleJoker => 1,
        JokerId::MailInRebate => 1,
        JokerId::BaseballCard => 1,
        JokerId::RaisedFist => 1,
        JokerId::EightBall => 1,
        JokerId::ToDoList => 1,
        JokerId::BurntJoker => 1,
        JokerId::MidasMask => 1,
        JokerId::OopsAll6s => 1,
        JokerId::TheIdol => 1,
        JokerId::SquareJoker => 1,
        JokerId::DietCola => 1,
        JokerId::ChaosTheClown => 1,
    }
}

/// Reserved identities that are never offered.
pub open spec fn is_reserved_joker(j: JokerId) -> bool {
    j == JokerId::BluePrint || j == JokerId::Perkeo_2 || j == JokerId::Stuntman_2 || j == JokerId::Cloud9 || j == JokerId::Rough_Gem_2
}

impl JokerId {
    /// Base shop cost.
    pub fn base_cost(&self) -> (r: i64)
        ensures
            r == joker_base_cost(*self),
    {
        match self {
            JokerId::Joker => 2,
            JokerId::GreedyJoker => 5,
            JokerId::LustyJoker => 5,
            JokerId::WrathfulJoker => 5,
            JokerId::GluttonousJoker => 5,
            JokerId::JollyJoker => 4,
            JokerId::ZanyJoker => 5,
            JokerId::MadJoker => 5,
            JokerId::CrazyJoker => 5,
            JokerId::DrollJoker => 5,
            JokerId::SlyJoker => 4,
            JokerId::WilyJoker => 5,
            JokerId::CleverJoker => 5,
            JokerId::DeviousJoker => 5,
            JokerId::CraftyJoker => 5,
            JokerId::HalfJoker => 5,
            JokerId::Banner => 5,
            JokerId::MysticSummit => 6,
            JokerId::Misprint => 4,
            JokerId::AbstractJoker => 6,
            JokerId::RideTheBus => 6,
            JokerId::SteelJoker => 7,
            JokerId::GlassJoker => 6,
            JokerId::Hologram => 5,
            JokerId::FourFingers => 7,
            JokerId::Shortcut => 6,
            JokerId::Splash => 7,
            JokerId::Photograph => 7,
            JokerId::GreenJoker => 5,
            JokerId::SuperPosition => 6,
            JokerId::DuskJoker => 6,
            JokerId::Fibonacci => 6,
            JokerId::ScaryFace => 5,
            JokerId::EvenSteven => 5,
            JokerId::OddTodd => 5,
            JokerId::Scholar => 5,
            JokerId::BusinessCard => 5,
            JokerId::Supernova => 6,
            JokerId::Erosion => 6,
            JokerId::ToTheMoon => 6,
            JokerId::GoldenJoker => 6,
            JokerId::Bull => 6,
            JokerId::Egg => 4,
            JokerId::Cartomancer => 5,
            JokerId::Astronomer => 5,
            JokerId::Rocket => 6,
            JokerId::FortuneTeller => 5,
            JokerId::Faceless => 5,
            JokerId::SpaceJoker => 5,
            JokerId::Vagabond => 5,
            JokerId::Stuntman => 5,
            JokerId::Brainstorm => 10,
            JokerId::Satellite => 5,
            JokerId::ShootTheMoon => 5,
            JokerId::Bloodstone => 7,
            JokerId::Arrowhead => 7,
            JokerId::Onyx => 8,
            JokerId::Opal => 8,
            JokerId::Drunkard => 5,
            JokerId::SteakJoker => 5,
            JokerId::IceCream => 5,
            JokerId::DNA => 8,
            JokerId::BlueJoker => 5,
            JokerId::Sixth => 5,
            JokerId::Constellation => 5,
            JokerId::Hiker => 5,
            JokerId::CloudNine => 5,
            JokerId::Popcorn => 5,
            JokerId::AncientJoker => 5,
            JokerId::Ramen => 5,
            JokerId::Walkie => 5,
            JokerId::Selzer => 5,
            JokerId::Castle => 5,
            JokerId::Smiley => 5,
            JokerId::Campfire => 5,
            JokerId::Ticket => 5,
            JokerId::MrBones => 5,
            JokerId::Acrobat => 8,
            JokerId::SockAndBuskin => 8,
            JokerId::Swashbuckler => 5,
            JokerId::Troubadour => 5,
            JokerId::Certificate => 5,
            JokerId::Smeared => 5,
            JokerId::Throwback => 5,
            JokerId::HangingChad => 5,
            JokerId::RoughGem => 5,
            JokerId::Mime => 8,
            JokerId::CreditCard => 5,
            JokerId::Ceremonial => 5,
            JokerId::Blueprint => 10,
            JokerId::Wee => 5,
            JokerId::Merry => 5,
            JokerId::RedCard => 5,
            JokerId::Madness => 5,
            JokerId::Square => 5,
            JokerId::Seance => 5,
            JokerId::RiffRaff => 5,
            JokerId::Vampire => 8,
            JokerId::InvisibleJoker => 5,
            JokerId::Baron => 8,
            JokerId::Cavendish => 7,
            JokerId::Card_Sharp => 7,
            JokerId::Delayed => 5,
            JokerId::Hack => 5,
            JokerId::Pareidolia => 5,
            JokerId::Gros_Michel => 5,
            JokerId::Even_Steven => 5,
            JokerId::Odd_Todd_2 => 5,
            JokerId::Juggler => 5,
            JokerId::DriversLicense => 5,
            JokerId::Hit_The_Road => 5,
            JokerId::The_Duo => 7,
            JokerId::The_Trio => 7,
            JokerId::The_Family => 8,
            JokerId::The_Order => 7,
            JokerId::The_Tribe => 7,
            JokerId::Stencil => 5,
            JokerId::Perkeo => 5,
            JokerId::Flower_Pot => 5,
            JokerId::BluePrint => 5,
            JokerId::Canio => 5,
            JokerId::Triboulet => 5,
            JokerId::Yorick => 5,
            JokerId::Chicot => 5,
            JokerId::Perkeo_2 => 5,
            JokerId::Seeing_Double => 5,
            JokerId::Matador => 5,
            JokerId::Stuntman_2 => 5,
            JokerId::Stone => 5,
            JokerId::Lucky_Cat => 5,
            JokerId::Obelisk => 5,
            JokerId::Runner => 5,
            JokerId::Courier => 5,
            JokerId::Cloud9 => 5,
            JokerId::Spare_Trousers => 5,
            JokerId::Ring_Master => 5,
            JokerId::Golden_Ticket => 5,
            JokerId::Rough_Gem_2 => 5,
            JokerId::Bootstraps => 5,
            JokerId::Caino => 5,
            JokerId::Flash => 5,
            JokerId::Trousers => 5,
            JokerId::LoyaltyCard => 5,
            JokerId::Blackboard => 5,
            JokerId::TurtleBean => 5,
            JokerId::Burglar => 5,
            JokerId::GiftCard => 5,
            JokerId::Luchador => 5,
            JokerId::ReservedParking => 5,
            JokerId::TradingCard => 5,
            JokerId::MarbleJoker => 5,
            JokerId::MailInRebate => 5,
            JokerId::BaseballCard => 5,
            JokerId::RaisedFist => 5,
            JokerId::EightBall => 5,
            JokerId::ToDoList => 5,
            JokerId::BurntJoker => 5,
            JokerId::MidasMask => 5,
            JokerId::OopsAll6s => 5,
            JokerId::TheIdol => 5,
            JokerId::SquareJoker => 5,
            JokerId::DietCola => 5,
            JokerId::ChaosTheClown => 5,
        }
    }

    /// Rarity: 1 common, 2 uncommon, 3 rare, 4 legendary.
    pub fn rarity(&self) -> (r: u8)
        ensures
            r == joker_rarity(*self),
    {
        match self {
            JokerId::Joker => 1,
            JokerId::GreedyJoker => 1,
            JokerId::LustyJoker => 1,
            JokerId::WrathfulJoker => 1,
            JokerId::GluttonousJoker => 1,
            JokerId::JollyJoker => 1,
            JokerId::ZanyJoker => 1,
            JokerId::MadJoker => 1,
            JokerId::CrazyJoker => 1,
            JokerId::DrollJoker => 1,
            JokerId::SlyJoker => 1,
            JokerId::WilyJoker => 1,
            JokerId::CleverJoker => 1,
            JokerId::DeviousJoker => 1,
            JokerId::CraftyJoker => 1,
            JokerId::HalfJoker => 1,
            JokerId::Banner => 1,
            JokerId::MysticSummit => 2,
            JokerId::Misprint => 1,
            JokerId::AbstractJoker => 2,
            JokerId::RideTheBus => 2,
            JokerId::SteelJoker => 3,
            JokerId::GlassJoker => 3,
            JokerId::Hologram => 2,
            JokerId::FourFingers => 3,
            JokerId::Shortcut => 3,
            JokerId::Splash => 3,
            JokerId::Photograph => 3,
            JokerId::GreenJoker => 1,
            JokerId::SuperPosition => 2,
            JokerId::DuskJoker => 2,
            JokerId::Fibonacci => 1,
            JokerId::ScaryFace => 1,
            JokerId::EvenSteven => 1,
            JokerId::OddTodd => 1,
            JokerId::Scholar => 1,
            JokerId::BusinessCard => 2,
            JokerId::Supernova => 2,
            JokerId::Erosion => 2,
            JokerId::ToTheMoon => 2,
            JokerId::GoldenJoker => 2,
            JokerId::Bull => 2,
            JokerId::Egg => 1,
            JokerId::Cartomancer => 1,
            JokerId::Astronomer => 1,
            JokerId::Rocket => 2,
            JokerId::FortuneTeller => 2,
            JokerId::Faceless => 1,
            JokerId::SpaceJoker => 2,
            JokerId::Vagabond => 1,
            JokerId::Stuntman => 1,
            JokerId::Brainstorm => 3,
            JokerId::Satellite => 1,
            JokerId::ShootTheMoon => 1,
            JokerId::Bloodstone => 3,
            JokerId::Arrowhead => 3,
            JokerId::Onyx => 3,
            JokerId::Opal => 3,
            JokerId::Drunkard => 1,
            JokerId::SteakJoker => 3,
            JokerId::IceCream => 2,
            JokerId::DNA => 3,
            JokerId::BlueJoker => 2,
            JokerId::Sixth => 3,
            JokerId::Constellation => 2,
            JokerId::Hiker => 2,
            JokerId::CloudNine => 2,
            JokerId::Popcorn => 2,
            JokerId::AncientJoker => 2,
            JokerId::Ramen => 2,
            JokerId::Walkie => 2,
            JokerId::Selzer => 2,
            JokerId::Castle => 2,
            JokerId::Smiley => 2,
            JokerId::Campfire => 2,
            JokerId::Ticket => 3,
            JokerId::MrBones => 3,
            JokerId::Acrobat => 3,
            JokerId::SockAndBuskin => 3,
            JokerId::Swashbuckler => 3,
            JokerId::Troubadour => 3,
            JokerId::Certificate => 3,
            JokerId::Smeared => 3,
            JokerId::Throwback => 3,
            JokerId::HangingChad => 3,
            JokerId::RoughGem => 3,
            JokerId::Mime => 3,
            JokerId::CreditCard => 3,
            JokerId::Ceremonial => 1,
            JokerId::Blueprint => 3,
            JokerId::Wee => 1,
            JokerId::Merry => 1,
            JokerId::RedCard => 1,
            JokerId::Madness => 1,
            JokerId::Square => 1,
            JokerId::Seance => 1,
            JokerId::RiffRaff => 1,
            JokerId::Vampire => 3,
            JokerId::InvisibleJoker => 1,
            JokerId::Baron => 3,
            JokerId::Cavendish => 3,
            JokerId::Card_Sharp => 3,
            JokerId::Delayed => 1,
            JokerId::Hack => 1,
            JokerId::Pareidolia => 1,
            JokerId::Gros_Michel => 1,
            JokerId::Even_Steven => 1,
            JokerId::Odd_Todd_2 => 1,
            JokerId::Juggler => 1,
            JokerId::DriversLicense => 1,
            JokerId::Hit_The_Road => 1,
            JokerId::The_Duo => 3,
            JokerId::The_Trio => 3,
            JokerId::The_Family => 3,
            JokerId::The_Order => 3,
            JokerId::The_Tribe => 3,
            JokerId::Stencil => 3,
            JokerId::Perkeo => 4,
            JokerId::Flower_Pot => 1,
            JokerId::BluePrint => 1,
            JokerId::Canio => 4,
            JokerId::Triboulet => 4,
            JokerId::Yorick => 4,
            JokerId::Chicot => 4,
            JokerId::Perkeo_2 => 1,
            JokerId::Seeing_Double => 1,
            JokerId::Matador => 1,
            JokerId::Stuntman_2 => 1,
            JokerId::Stone => 1,
            JokerId::Lucky_Cat => 1,
            JokerId::Obelisk => 1,
            JokerId::Runner => 1,
            JokerId::Courier => 1,
            JokerId::Cloud9 => 1,
            JokerId::Spare_Trousers => 1,
            JokerId::Ring_Master => 1,
            JokerId::Golden_Ticket => 1,
            JokerId::Rough_Gem_2 => 1,
            JokerId::Bootstraps => 1,
            JokerId::Caino => 4,
            JokerId::Flash => 1,
            JokerId::Trousers => 1,
            JokerId::LoyaltyCard => 1,
            JokerId::Blackboard => 1,
            JokerId::TurtleBean => 1,
            JokerId::Burglar => 1,
            JokerId::GiftCard => 1,
            JokerId::Luchador => 1,
            JokerId::ReservedParking => 1,
            JokerId::TradingCard => 1,
            JokerId::MarbleJoker => 1,
            JokerId::MailInRebate => 1,
            JokerId::BaseballCard => 1,
            JokerId::RaisedFist => 1,
            JokerId::EightBall => 1,
            JokerId::ToDoList => 1,
            JokerId::BurntJoker => 1,
            JokerId::MidasMask => 1,
            JokerId::OopsAll6s => 1,
            JokerId::TheIdol => 1,
            JokerId::SquareJoker => 1,
            JokerId::DietCola => 1,
            JokerId::ChaosTheClown => 1,
        }
    }

    /// Observation index.
    pub fn to_index(&self) -> (r: usize)
        ensures
            r == joker_index(*self),
    {
        match self {
            JokerId::Joker => 0,
            JokerId::GreedyJoker => 1,
            JokerId::LustyJoker => 2,
            JokerId::WrathfulJoker => 3,
            JokerId::GluttonousJoker => 4,
            JokerId::JollyJoker => 5,
            JokerId::ZanyJoker => 6,
            JokerId::MadJoker => 7,
            JokerId::CrazyJoker => 8,
            JokerId::DrollJoker => 9,
            JokerId::SlyJoker => 10,
            JokerId::WilyJoker => 11,
            JokerId::CleverJoker => 12,
            JokerId::DeviousJoker => 13,
            JokerId::CraftyJoker => 14,
            JokerId::HalfJoker => 15,
            JokerId::Banner => 16,
            JokerId::MysticSummit => 17,
            JokerId::Misprint => 18,
            JokerId::AbstractJoker => 19,
            JokerId::RideTheBus => 20,
            JokerId::SteelJoker => 21,
            JokerId::GlassJoker => 22,
            JokerId::Hologram => 23,
            JokerId::FourFingers => 24,
            JokerId::Shortcut => 25,
            JokerId::Splash => 26,
            JokerId::Photograph => 27,
            JokerId::GreenJoker => 28,
            JokerId::SuperPosition => 29,
            JokerId::DuskJoker => 30,
            JokerId::Fibonacci => 31,
            JokerId::ScaryFace => 32,
            JokerId::EvenSteven => 33,
            JokerId::OddTodd => 34,
            JokerId::Scholar => 35,
            JokerId::BusinessCard => 36,
            JokerId::Supernova => 37,
            JokerId::Erosion => 38,
            JokerId::ToTheMoon => 39,
            JokerId::GoldenJoker => 40,
            JokerId::Bull => 41,
            JokerId::Egg => 42,
            JokerId::Cartomancer => 43,
            JokerId::Astronomer => 44,
            JokerId::Rocket => 45,
            JokerId::FortuneTeller => 46,
            JokerId::Faceless => 47,
            JokerId::SpaceJoker => 48,
            JokerId::Vagabond => 49,
            JokerId::Stuntman => 50,
            JokerId::Brainstorm => 51,
            JokerId::Satellite => 52,
            JokerId::ShootTheMoon => 53,
            JokerId::Bloodstone => 54,
            JokerId::Arrowhead => 55,
            JokerId::Onyx => 56,
            JokerId::Opal => 57,
            JokerId::Drunkard => 58,
            JokerId::SteakJoker => 59,
            JokerId::IceCream => 60,
            JokerId::DNA => 61,
            JokerId::BlueJoker => 62,
            JokerId::Sixth => 63,
            JokerId::Constellation => 64,
            JokerId::Hiker => 65,
            JokerId::CloudNine => 66,
            JokerId::Popcorn => 67,
            JokerId::AncientJoker => 68,
            JokerId::Ramen => 69,
            JokerId::Walkie => 70,
            JokerId::Selzer => 71,
            JokerId::Castle => 72,
            JokerId::Smiley => 73,
            JokerId::Campfire => 74,
            JokerId::Ticket => 75,
            JokerId::MrBones => 76,
            JokerId::Acrobat => 77,
            JokerId::SockAndBuskin => 78,
            JokerId::Swashbuckler => 79,
            JokerId::Troubadour => 80,
            JokerId::Certificate => 81,
            JokerId::Smeared => 82,
            JokerId::Throwback => 83,
            JokerId::HangingChad => 84,
            JokerId::RoughGem => 85,
            JokerId::Mime => 86,
            JokerId::CreditCard => 87,
            JokerId::Ceremonial => 88,
            JokerId::Blueprint => 89,
            JokerId::Wee => 90,
            JokerId::Merry => 91,
            JokerId::RedCard => 92,
            JokerId::Madness => 93,
            JokerId::Square => 94,
            JokerId::Seance => 95,
            JokerId::RiffRaff => 96,
            JokerId::Vampire => 97,
            JokerId::InvisibleJoker => 98,
            JokerId::Baron => 99,
            JokerId::Cavendish => 100,
            JokerId::Card_Sharp => 101,
            JokerId::Delayed => 102,
            JokerId::Hack => 103,
            JokerId::Pareidolia => 104,
            JokerId::Gros_Michel => 105,
            JokerId::Even_Steven => 106,
            JokerId::Odd_Todd_2 => 107,
            JokerId::Juggler => 108,
            JokerId::DriversLicense => 109,
            JokerId::Hit_The_Road => 110,
            JokerId::The_Duo => 111,
            JokerId::The_Trio => 112,
            JokerId::The_Family => 113,
            JokerId::The_Order => 114,
            JokerId::The_Tribe => 115,
            JokerId::Stencil => 116,
            JokerId::Perkeo => 117,
            JokerId::Flower_Pot => 118,
            JokerId::BluePrint => 119,
            JokerId::Canio => 120,
            JokerId::Triboulet => 121,
            JokerId::Yorick => 122,
            JokerId::Chicot => 123,
            JokerId::Perkeo_2 => 124,
            JokerId::Seeing_Double => 125,
            JokerId::Matador => 126,
            JokerId::Stuntman_2 => 127,
            JokerId::Stone => 128,
            JokerId::Lucky_Cat => 129,
            JokerId::Obelisk => 130,
            JokerId::Runner => 131,
            JokerId::Courier => 132,
            JokerId::Cloud9 => 133,
            JokerId::Spare_Trousers => 134,
            JokerId::Ring_Master => 135,
            JokerId::Golden_Ticket => 136,
            JokerId::Rough_Gem_2 => 137,
            JokerId::Bootstraps => 138,
            JokerId::Caino => 139,
            JokerId::Flash => 140,
            JokerId::Trousers => 141,
            JokerId::LoyaltyCard => 142,
            JokerId::Blackboard => 143,
            JokerId::TurtleBean => 144,
            JokerId::Burglar => 145,
            JokerId::GiftCard => 146,
            JokerId::Luchador => 147,
            JokerId::ReservedParking => 148,
            JokerId::TradingCard => 149,
            JokerId::MarbleJoker => 150,
            JokerId::MailInRebate => 151,
            JokerId::BaseballCard => 152,
            JokerId::RaisedFist => 153,
            JokerId::EightBall => 154,
            JokerId::ToDoList => 155,
            JokerId::BurntJoker => 156,
            JokerId::MidasMask => 157,
            JokerId::OopsAll6s => 158,
            JokerId::TheIdol => 159,
            JokerId::SquareJoker => 160,
            JokerId::DietCola => 161,
            JokerId::ChaosTheClown => 162,
        }
    }

    /// The joker with the given index, if the index is below `JOKER_COUNT`.
    pub fn from_index(index: usize) -> (r: Option<JokerId>)
        ensures
            index < JOKER_COUNT ==> r == Some(joker_at(index as int)),
            index >= JOKER_COUNT ==> r.is_none(),
    {
        match index {
            0 => Some(JokerId::Joker),
            1 => Some(JokerId::GreedyJoker),
            2 => Some(JokerId::LustyJoker),
            3 => Some(JokerId::WrathfulJoker),
            4 => Some(JokerId::GluttonousJoker),
            5 => Some(JokerId::JollyJoker),
            6 => Some(JokerId::ZanyJoker),
            7 => Some(JokerId::MadJoker),
            8 => Some(JokerId::CrazyJoker),
            9 => Some(JokerId::DrollJoker),
            10 => Some(JokerId::SlyJoker),
            11 => Some(JokerId::WilyJoker),
            12 => Some(JokerId::CleverJoker),
            13 => Some(JokerId::DeviousJoker),
            14 => Some(JokerId::CraftyJoker),
            15 => Some(JokerId::HalfJoker),
            16 => Some(JokerId::Banner),
            17 => Some(JokerId::MysticSummit),
            18 => Some(JokerId::Misprint),
            19 => Some(JokerId::AbstractJoker),
            20 => Some(JokerId::RideTheBus),
            21 => Some(JokerId::SteelJoker),
            22 => Some(JokerId::GlassJoker),
            23 => Some(JokerId::Hologram),
            24 => Some(JokerId::FourFingers),
            25 => Some(JokerId::Shortcut),
            26 => Some(JokerId::Splash),
            27 => Some(JokerId::Photograph),
            28 => Some(JokerId::GreenJoker),
            29 => Some(JokerId::SuperPosition),
            30 => Some(JokerId::DuskJoker),
            31 => Some(JokerId::Fibonacci),
            32 => Some(JokerId::ScaryFace),
            33 => Some(JokerId::EvenSteven),
            34 => Some(JokerId::OddTodd),
            35 => Some(JokerId::Scholar),
            36 => Some(JokerId::BusinessCard),
            37 => Some(JokerId::Supernova),
            38 => Some(JokerId::Erosion),
            39 => Some(JokerId::ToTheMoon),
            40 => Some(JokerId::GoldenJoker),
            41 => Some(JokerId::Bull),
            42 => Some(JokerId::Egg),
            43 => Some(JokerId::Cartomancer),
            44 => Some(JokerId::Astronomer),
            45 => Some(JokerId::Rocket),
            46 => Some(JokerId::FortuneTeller),
            47 => Some(JokerId::Faceless),
            48 => Some(JokerId::SpaceJoker),
            49 => Some(JokerId::Vagabond),
            50 => Some(JokerId::Stuntman),
            51 => Some(JokerId::Brainstorm),
            52 => Some(JokerId::Satellite),
            53 => Some(JokerId::ShootTheMoon),
            54 => Some(JokerId::Bloodstone),
            55 => Some(JokerId::Arrowhead),
            56 => Some(JokerId::Onyx),
            57 => Some(JokerId::Opal),
            58 => Some(JokerId::Drunkard),
            59 => Some(JokerId::SteakJoker),
            60 => Some(JokerId::IceCream),
            61 => Some(JokerId::DNA),
            62 => Some(JokerId::BlueJoker),
            63 => Some(JokerId::Sixth),
            64 => Some(JokerId::Constellation),
            65 => Some(JokerId::Hiker),
            66 => Some(JokerId::CloudNine),
            67 => Some(JokerId::Popcorn),
            68 => Some(JokerId::AncientJoker),
            69 => Some(JokerId::Ramen),
            70 => Some(JokerId::Walkie),
            71 => Some(JokerId::Selzer),
            72 => Some(JokerId::Castle),
            73 => Some(JokerId::Smiley),
            74 => Some(JokerId::Campfire),
            75 => Some(JokerId::Ticket),
            76 => Some(JokerId::MrBones),
            77 => Some(JokerId::Acrobat),
            78 => Some(JokerId::SockAndBuskin),
            79 => Some(JokerId::Swashbuckler),
            80 => Some(JokerId::Troubadour),
            81 => Some(JokerId::Certificate),
            82 => Some(JokerId::Smeared),
            83 => Some(JokerId::Throwback),
            84 => Some(JokerId::HangingChad),
            85 => Some(JokerId::RoughGem),
            86 => Some(JokerId::Mime),
            87 => Some(JokerId::CreditCard),
            88 => Some(JokerId::Ceremonial),
            89 => Some(JokerId::Blueprint),
            90 => Some(JokerId::Wee),
            91 => Some(JokerId::Merry),
            92 => Some(JokerId::RedCard),
            93 => Some(JokerId::Madness),
            94 => Some(JokerId::Square),
            95 => Some(JokerId::Seance),
            96 => Some(JokerId::RiffRaff),
            97 => Some(JokerId::Vampire),
            98 => Some(JokerId::InvisibleJoker),
            99 => Some(JokerId::Baron),
            100 => Some(JokerId::Cavendish),
            101 => Some(JokerId::Card_Sharp),
            102 => Some(JokerId::Delayed),
            103 => Some(JokerId::Hack),
            104 => Some(JokerId::Pareidolia),
            105 => Some(JokerId::Gros_Michel),
            106 => Some(JokerId::Even_Steven),
            107 => Some(JokerId::Odd_Todd_2),
            108 => Some(JokerId::Juggler),
            109 => Some(JokerId::DriversLicense),
            110 => Some(JokerId::Hit_The_Road),
            111 => Some(JokerId::The_Duo),
            112 => Some(JokerId::The_Trio),
            113 => Some(JokerId::The_Family),
            114 => Some(JokerId::The_Order),
            115 => Some(JokerId::The_Tribe),
            116 => Some(JokerId::Stencil),
            117 => Some(JokerId::Perkeo),
            118 => Some(JokerId::Flower_Pot),
            119 => Some(JokerId::BluePrint),
            120 => Some(JokerId::Canio),
            121 => Some(JokerId::Triboulet),
            122 => Some(JokerId::Yorick),
            123 => Some(JokerId::Chicot),
            124 => Some(JokerId::Perkeo_2),
            125 => Some(JokerId::Seeing_Double),
            126 => Some(JokerId::Matador),
            127 => Some(JokerId::Stuntman_2),
            128 => Some(JokerId::Stone),
            129 => Some(JokerId::Lucky_Cat),
            130 => Some(JokerId::Obelisk),
            131 => Some(JokerId::Runner),
            132 => Some(JokerId::Courier),
            133 => Some(JokerId::Cloud9),
            134 => Some(JokerId::Spare_Trousers),
            135 => Some(JokerId::Ring_Master),
            136 => Some(JokerId::Golden_Ticket),
            137 => Some(JokerId::Rough_Gem_2),
            138 => Some(JokerId::Bootstraps),
            139 => Some(JokerId::Caino),
            140 => Some(JokerId::Flash),
            141 => Some(JokerId::Trousers),
            142 => Some(JokerId::LoyaltyCard),
            143 => Some(JokerId::Blackboard),
            144 => Some(JokerId::TurtleBean),
            145 => Some(JokerId::Burglar),
            146 => Some(JokerId::GiftCard),
            147 => Some(JokerId::Luchador),
            148 => Some(JokerId::ReservedParking),
            149 => Some(JokerId::TradingCard),
            150 => Some(JokerId::MarbleJoker),
            151 => Some(JokerId::MailInRebate),
            152 => Some(JokerId::BaseballCard),
            153 => Some(JokerId::RaisedFist),
            154 => Some(JokerId::EightBall),
            155 => Some(JokerId::ToDoList),
            156 => Some(JokerId::BurntJoker),
            157 => Some(JokerId::MidasMask),
            158 => Some(JokerId::OopsAll6s),
            159 => Some(JokerId::TheIdol),
            160 => Some(JokerId::SquareJoker),
            161 => Some(JokerId::DietCola),
            162 => Some(JokerId::ChaosTheClown),
            _ => None,
        }
    }

    /// Every joker that can be offered (all but the reserved ones), in index order.
    pub fn all_available() -> (r: Vec<JokerId>)
        ensures
            r@ == available_jokers_upto(JOKER_COUNT as int),
    {
        let mut r: Vec<JokerId> = Vec::new();
        let mut i: usize = 0;
        while i < JOKER_COUNT
            invariant
                i <= JOKER_COUNT,
                r@ == available_jokers_upto(i as int),
            decreases JOKER_COUNT - i,
        {
            let id = JokerId::from_index(i);
            match id {
                Some(j) => {
                    if !j.is_reserved() {
                        r.push(j);
                    }
                },
                None => {},
            }
            i = i + 1;
        }
        r
    }

    /// Whether this identity is reserved and never offered.
    fn is_reserved(&self) -> (r: bool)
        ensures
            r == is_reserved_joker(*self),
    {
        matches!(
            self,
            JokerId::BluePrint | JokerId::Perkeo_2 | JokerId::Stuntman_2 | JokerId::Cloud9
                | JokerId::Rough_Gem_2
        )
    }

    /// The available jokers of one rarity, in index order.
    pub fn by_rarity(rarity: u8) -> (r: Vec<JokerId>)
        ensures
            r@ == jokers_of_rarity(available_jokers_upto(JOKER_COUNT as int), rarity as int),
    {
        let all = Self::all_available();
        let mut r: Vec<JokerId> = Vec::new();
        let mut i: usize = 0;
        while i < all.len()
            invariant
                i <= all.len(),
                r@ == jokers_of_rarity(all@.take(i as int), rarity as int),
            decreases all.len() - i,
        {
            let j = all[i];
            proof {
                assert(all@.take(i as int + 1).drop_last() =~= all@.take(i as int));
            }
            if j.rarity() == rarity {
                r.push(j);
            }
            i = i + 1;
        }
        proof {
            assert(all@.take(all@.len() as int) =~= all@);
        }
        r
    }

    /// Maps the short keys of an older save format to jokers.
    pub fn from_legacy_key(key: &str) -> (r: Option<JokerId>)
        ensures
            r == legacy_key_joker(key.spec_bytes()),
    {
        let b = key.as_bytes();
        if b.len() == 2 && b[0] == 43u8 && b[1] == 109u8 {
            Some(JokerId::Joker)
        } else if b.len() == 2 && b[0] == 43u8 && b[1] == 99u8 {
            Some(JokerId::SlyJoker)
        } else if b.len() == 2 && b[0] == 33u8 && b[1] == 33u8 {
            Some(JokerId::WilyJoker)
        } else if b.len() == 2 && b[0] == 43u8 && b[1] == 36u8 {
            Some(JokerId::Banner)
        } else if b.len() == 2 && b[0] == 43u8 && b[1] == 43u8 {
            Some(JokerId::JollyJoker)
        } else if b.len() == 2 && b[0] == 88u8 && b[1] == 109u8 {
            Some(JokerId::RideTheBus)
        } else if b.len() == 2 && b[0] == 88u8 && b[1] == 50u8 {
            Some(JokerId::GlassJoker)
        } else if b.len() == 3 && b[0] == 46u8 && b[1] == 46u8 && b[2] == 46u8 {
            Some(JokerId::Misprint)
        } else {
            None
        }
    }
}

/// The non-reserved jokers with index below `n`, in index order.
pub open spec fn available_jokers_upto(n: int) -> Seq<JokerId>
    decreases n,
{
    if n <= 0 {
        Seq::empty()
    } else if is_reserved_joker(joker_at(n - 1)) {
        available_jokers_upto(n - 1)
    } else {
        available_jokers_upto(n - 1).push(joker_at(n - 1))
    }
}

/// The jokers of `s` that have the given rarity, in order.
pub open spec fn jokers_of_rarity(s: Seq<JokerId>, rarity: int) -> Seq<JokerId>
    decreases s.len(),
{
    if s.len() == 0 {
        Seq::empty()
    } else if joker_rarity(s.last()) == rarity {
        jokers_of_rarity(s.drop_last(), rarity).push(s.last())
    } else {
        jokers_of_rarity(s.drop_last(), rarity)
    }
}

/// Legacy two- or three-character keys (as bytes): "+m", "+c", "!!", "+$", "++", "Xm", "X2", "...".
pub open spec fn legacy_key_joker(key: Seq<u8>) -> Option<JokerId> {
    if key.len() == 2 && key[0] == 43u8 && key[1] == 109u8 {
        Some(JokerId::Joker)
    } else if key.len() == 2 && key[0] == 43u8 && key[1] == 99u8 {
        Some(JokerId::SlyJoker)
    } else if key.len() == 2 && key[0] == 33u8 && key[1] == 33u8 {
        Some(JokerId::WilyJoker)
    } else if key.len() == 2 && key[0] == 43u8 && key[1] == 36u8 {
        Some(JokerId::Banner)
    } else if key.len() == 2 && key[0] == 43u8 && key[1] == 43u8 {
        Some(JokerId::JollyJoker)
    } else if key.len() == 2 && key[0] == 88u8 && key[1] == 109u8 {
        Some(JokerId::RideTheBus)
    } else if key.len() == 2 && key[0] == 88u8 && key[1] == 50u8 {
        Some(JokerId::GlassJoker)
    } else if key.len() == 3 && key[0] == 46u8 && key[1] == 46u8 && key[2] == 46u8 {
        Some(JokerId::Misprint)
    } else {
        None
    }
}

/// A joker that can be offered, with the given rarity.
pub open spec fn offered_with_rarity(j: JokerId, rarity: int) -> bool {
    available_jokers_upto(JOKER_COUNT as int).contains(j) && joker_rarity(j) == rarity
}

/// The jokers of one rarity in `s` are exactly the members of `s` with that rarity.
pub proof fn lemma_rarity_pool_members(s: Seq<JokerId>, rarity: int, j: JokerId)
    ensures
        jokers_of_rarity(s, rarity).contains(j) <==> (s.contains(j) && joker_rarity(j) == rarity),
    decreases s.len(),
{
    if s.len() > 0 {
        let t = s.drop_last();
        lemma_rarity_pool_members(t, rarity, j);
        let p = jokers_of_rarity(t, rarity);
        if jokers_of_rarity(s, rarity).contains(j) {
            if joker_rarity(s.last()) == rarity && j == s.last() {
                assert(s[s.len() - 1] == j);
            } else {
                if joker_rarity(s.last()) == rarity {
                    let k = choose|k: int| 0 <= k < p.push(s.last()).len() && p.push(s.last())[k] == j;
                    assert(p[k] == j);
                }
                assert(p.contains(j));
                let k = choose|k: int| 0 <= k < t.len() && t[k] == j;
                assert(s[k] == j);
            }
        }
        if s.contains(j) && joker_rarity(j) == rarity {
            let k = choose|k: int| 0 <= k < s.len() && s[k] == j;
            if k == s.len() - 1 {
                assert(p.push(s.last())[p.len() as int] == j);
            } else {
                assert(t[k] == j);
                let m = choose|m: int| 0 <= m < p.len() && p[m] == j;
                if joker_rarity(s.last()) == rarity {
                    assert(p.push(s.last())[m] == j);
                }
            }
        }
    }
}

/// Every joker below `n` that is not reserved is among the available ones below `n`.
pub proof fn lemma_available_members(n: int, i: int)
    requires
        0 <= i < n,
        !is_reserved_joker(joker_at(i)),
    ensures
        available_jokers_upto(n).contains(joker_at(i)),
    decreases n,
{
    let prev = available_jokers_upto(n - 1);
    if i == n - 1 {
        assert(prev.push(joker_at(i))[prev.len() as int] == joker_at(i));
    } else {
        lemma_available_members(n - 1, i);
        let k = choose|k: int| 0 <= k < prev.len() && prev[k] == joker_at(i);
        if !is_reserved_joker(joker_at(n - 1)) {
            assert(prev.push(joker_at(n - 1))[k] == joker_at(i));
        }
    }
}

/// Common, rare and legendary jokers can all be offered: each of those pools has a member.
pub proof fn lemma_rarity_pools_nonempty(rarity: int)
    requires
        rarity == 1 || rarity == 3 || rarity == 4,
    ensures
        jokers_of_rarity(available_jokers_upto(JOKER_COUNT as int), rarity).len() > 0,
{
    let w = if rarity == 1 {
        JokerId::Joker
    } else if rarity == 3 {
        JokerId::Cavendish
    } else {
        JokerId::Chicot
    };
    lemma_joker_index_roundtrip(w);
    lemma_available_members(JOKER_COUNT as int, joker_index(w));
    lemma_rarity_pool_members(available_jokers_upto(JOKER_COUNT as int), rarity, w);
}

/// Index and lookup are inverse: looking up a joker's index gives the joker back.
pub proof fn lemma_joker_index_roundtrip(j: JokerId)
    ensures
        0 <= joker_index(j) < JOKER_COUNT,
        joker_at(joker_index(j)) == j,
{
}

/// Lookup and index are inverse on 0..JOKER_COUNT.
pub proof fn lemma_joker_at_roundtrip(i: int)
    requires
        0 <= i < JOKER_COUNT,
    ensures
        joker_index(joker_at(i)) == i,
{
}

/// What joker effects read of the hand being scored and of the run so far.
pub struct ScoringContext<'a> {
    /// The played cards.
    pub played_cards: &'a [Card],
    /// The cards held in hand (not played).
    pub hand: &'a [Card],
    pub hand_id: HandId,
    pub discards_remaining: i32,
    pub hands_remaining: i32,
    pub joker_count: usize,
    pub consecutive_non_face: i32,
    pub steel_cards_in_hand: i32,
    pub glass_cards_broken: i32,
    pub cards_added_to_deck: i32,
    pub money_held: i64,
    pub deck_size: i32,
    pub hands_played_this_round: i32,
    pub hands_played_this_run: i32,
    pub tarots_used_this_run: i32,
    pub planets_used_this_run: i32,
    pub is_final_hand: bool,
    pub is_first_hand: bool,
    pub blinds_skipped: i32,
    pub cards_discarded_this_run: i32,
    pub rerolls_this_run: i32,
    /// Whether the boss blind's ability fired (Matador).
    pub boss_ability_triggered: bool,
    /// Stone cards in the deck (Stone Joker).
    pub stone_cards_in_deck: i32,
    /// Joker slots (Stencil).
    pub joker_slot_limit: usize,
    /// Uncommon jokers held (Baseball Card).
    pub uncommon_joker_count: usize,
    /// Enhanced cards in the deck (Driver's License).
    pub enhanced_cards_in_deck: i32,
    /// Whether held-card abilities trigger twice (Mime).
    pub has_mime: bool,
}

/// A context at the start of a run: nothing held, played or counted, a full 52-card deck
/// and five joker slots.
pub open spec fn fresh_context(c: ScoringContext) -> bool {
    &&& c.discards_remaining == 0
    &&& c.hands_remaining == 0
    &&& c.joker_count == 0
    &&& c.consecutive_non_face == 0
    &&& c.steel_cards_in_hand == 0
    &&& c.glass_cards_broken == 0
    &&& c.cards_added_to_deck == 0
    &&& c.money_held == 0
    &&& c.deck_size == 52
    &&& c.hands_played_this_round == 0
    &&& c.hands_played_this_run == 0
    &&& c.tarots_used_this_run == 0
    &&& c.planets_used_this_run == 0
    &&& !c.is_final_hand
    &&& !c.is_first_hand
    &&& c.blinds_skipped == 0
    &&& c.cards_discarded_this_run == 0
    &&& c.rerolls_this_run == 0
    &&& !c.boss_ability_triggered
    &&& c.stone_cards_in_deck == 0
    &&& c.joker_slot_limit == 5
    &&& c.uncommon_joker_count == 0
    &&& c.enhanced_cards_in_deck == 0
    &&& !c.has_mime
}

impl<'a> ScoringContext<'a> {
    /// A fresh context for played cards with no cards held.
    pub fn new(played_cards: &'a [Card], hand_id: HandId) -> (r: Self)
        ensures
            r.played_cards@ == played_cards@,
            r.hand@.len() == 0,
            r.hand_id == hand_id,
            fresh_context(r),
    {
        Self::with_hand(played_cards, &[], hand_id)
    }

    /// A fresh context for played cards and held cards.
    pub fn with_hand(played_cards: &'a [Card], hand: &'a [Card], hand_id: HandId) -> (r: Self)
        ensures
            r.played_cards@ == played_cards@,
            r.hand@ == hand@,
            r.hand_id == hand_id,
            fresh_context(r),
    {
        ScoringContext {
            played_cards,
            hand,
            hand_id,
            discards_remaining: 0,
            hands_remaining: 0,
            joker_count: 0,
            consecutive_non_face: 0,
            steel_cards_in_hand: 0,
            glass_cards_broken: 0,
            cards_added_to_deck: 0,
            money_held: 0,
            deck_size: 52,
            hands_played_this_round: 0,
            hands_played_this_run: 0,
            tarots_used_this_run: 0,
            planets_used_this_run: 0,
            is_final_hand: false,
            is_first_hand: false,
            blinds_skipped: 0,
            cards_discarded_this_run: 0,
            rerolls_this_run: 0,
            boss_ability_triggered: false,
            stone_cards_in_deck: 0,
            joker_slot_limit: 5,
            uncommon_joker_count: 0,
            enhanced_cards_in_deck: 0,
            has_mime: false,
        }
    }
}

} // verus!
