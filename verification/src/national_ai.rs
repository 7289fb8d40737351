//! Qualitative traits of nations and the factions inside them.
use vstd::prelude::*;

verus! {

/// A qualitative trait of a nation.
#[derive(Debug, Clone, Copy, PartialEq, Eq, Structural)]
pub enum NationalTrait {
    /// Hive mind: no internal factions, a very stable character.
    CollectiveMind,
    /// Warrior culture: military bonus, lower goodwill in peacetime.
    WarriorCulture,
    /// Pacifist: wars cost more, trade bonus.
    Pacifist,
    /// Merchant guild: more efficient trade.
    MerchantGuild,
    /// Technocracy: faster research, sensitive to technology gaps.
    Technocracy,
}

/// The traits that make up a nation's identity.
#[derive(Debug, Clone)]
pub struct NationalIdentity {
    pub traits: Vec<NationalTrait>,
}

/// Internal factions of a nation.
#[derive(Debug, Clone, Copy, PartialEq, Eq, Hash, Structural)]
pub enum FactionType {
    Militarist,
    Merchant,
    Technocrat,
}

} // verus!
