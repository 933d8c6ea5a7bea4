//! Rarity tiers, the roll that assigns them and the reward each one pays.

use crate::entropy::random_below;
use vstd::prelude::*;

verus! {

/// How scarce a brewed coffee turned out to be.
#[derive(Clone, Copy, Debug, PartialEq, Eq, Structural)]
pub enum CoffeeRarity {
    Common,
    Uncommon,
    Rare,
    Legendary,
}

/// The way a rarity is set off when it is shown.
#[derive(Clone, Copy, Debug, PartialEq, Eq, Structural)]
pub enum RarityStyle {
    Plain,
    Cyan,
    Yellow,
    Magenta,
}

impl CoffeeRarity {
    /// Position in the ranking Common < Uncommon < Rare < Legendary.
    pub open spec fn rank(self) -> nat {
        match self {
            CoffeeRarity::Common => 0,
            CoffeeRarity::Uncommon => 1,
            CoffeeRarity::Rare => 2,
            CoffeeRarity::Legendary => 3,
        }
    }

    /// Whether a brew of this rarity counts as a rare find.
    pub open spec fn is_prized(self) -> bool {
        self == CoffeeRarity::Rare || self == CoffeeRarity::Legendary
    }

    /// The style in which this rarity is shown.
    pub open spec fn style(self) -> RarityStyle {
        match self {
            CoffeeRarity::Common => RarityStyle::Plain,
            CoffeeRarity::Uncommon => RarityStyle::Cyan,
            CoffeeRarity::Rare => RarityStyle::Yellow,
            CoffeeRarity::Legendary => RarityStyle::Magenta,
        }
    }

    /// The text by which this rarity is shown.
    pub open spec fn caption(self) -> Seq<char> {
        match self {
            CoffeeRarity::Common => "Common"@,
            CoffeeRarity::Uncommon => "Uncommon"@,
            CoffeeRarity::Rare => "Rare"@,
            CoffeeRarity::Legendary => "★ Legendary ★"@,
        }
    }

    pub fn ordinal(&self) -> (n: u8)
        ensures
            n == self.rank(),
    {
        match self {
            CoffeeRarity::Common => 0,
            CoffeeRarity::Uncommon => 1,
            CoffeeRarity::Rare => 2,
            CoffeeRarity::Legendary => 3,
        }
    }

    pub fn prized(&self) -> (b: bool)
        ensures
            b == self.is_prized(),
    {
        match self {
            CoffeeRarity::Rare => true,
            CoffeeRarity::Legendary => true,
            _ => false,
        }
    }

    pub fn display_style(&self) -> (s: RarityStyle)
        ensures
            s == self.style(),
    {
        match self {
            CoffeeRarity::Common => RarityStyle::Plain,
            CoffeeRarity::Uncommon => RarityStyle::Cyan,
            CoffeeRarity::Rare => RarityStyle::Yellow,
            CoffeeRarity::Legendary => RarityStyle::Magenta,
        }
    }

    pub fn display_name(&self) -> (s: &'static str)
        ensures
            s@ == self.caption(),
    {
        match self {
            CoffeeRarity::Common => "Common",
            CoffeeRarity::Uncommon => "Uncommon",
            CoffeeRarity::Rare => "Rare",
            CoffeeRarity::Legendary => "★ Legendary ★",
        }
    }
}

/// The rarity that a roll stands for: below 2 Legendary, below 15 Rare,
/// below 40 Uncommon, anything else Common.
pub open spec fn rarity_of_roll(roll: nat) -> CoffeeRarity {
    if roll < 2 {
        CoffeeRarity::Legendary
    } else if roll < 15 {
        CoffeeRarity::Rare
    } else if roll < 40 {
        CoffeeRarity::Uncommon
    } else {
        CoffeeRarity::Common
    }
}

/// The coins that a brew of the given rarity pays.
pub open spec fn reward_of(rarity: CoffeeRarity) -> nat {
    match rarity {
        CoffeeRarity::Common => 5,
        CoffeeRarity::Uncommon => 10,
        CoffeeRarity::Rare => 25,
        CoffeeRarity::Legendary => 50,
    }
}

/// The number of outcomes of a rarity roll: a roll is a number below it.
pub open spec fn roll_bound() -> nat {
    100
}

/// Draws the roll that decides a rarity: a number below the roll bound.
pub fn draw_roll() -> (roll: u32)
    ensures
        roll < roll_bound(),
{
    random_below(100)
}

pub fn rarity_for_roll(roll: u32) -> (rarity: CoffeeRarity)
    ensures
        rarity == rarity_of_roll(roll as nat),
{
    if roll < 2 {
        CoffeeRarity::Legendary
    } else if roll < 15 {
        CoffeeRarity::Rare
    } else if roll < 40 {
        CoffeeRarity::Uncommon
    } else {
        CoffeeRarity::Common
    }
}

pub fn reward_for(rarity: CoffeeRarity) -> (coins: u32)
    ensures
        coins == reward_of(rarity),
{
    match rarity {
        CoffeeRarity::Common => 5,
        CoffeeRarity::Uncommon => 10,
        CoffeeRarity::Rare => 25,
        CoffeeRarity::Legendary => 50,
    }
}

} // verus!
