//! The scenario file's plain records for atmospheres and national identities,
//! and how they become simulation values.
use vstd::prelude::*;
use crate::environment::AtmosphereType;
use crate::national_ai::{NationalIdentity, NationalTrait};

verus! {

/// Atmosphere as written in a scenario.
#[derive(Debug, Clone, Copy, PartialEq, Eq, Structural)]
pub enum AtmosphereTypeSnapshot {
    EarthLike,
    CarbonDioxide,
    Thin,
    Toxic,
    NoAtmosphere,
}

/// National trait as written in a scenario.
#[derive(Debug, Clone, Copy, PartialEq, Eq, Structural)]
pub enum NationalTraitSnapshot {
    CollectiveMind,
    WarriorCulture,
    Pacifist,
    MerchantGuild,
    Technocracy,
}

/// National identity as written in a scenario.
#[derive(Debug, Clone)]
pub struct NationalIdentitySnapshot {
    pub traits: Vec<NationalTraitSnapshot>,
}

/// The atmosphere that a scenario atmosphere stands for.
pub open spec fn spec_atmosphere(s: AtmosphereTypeSnapshot) -> AtmosphereType {
    match s {
        AtmosphereTypeSnapshot::EarthLike => AtmosphereType::EarthLike,
        AtmosphereTypeSnapshot::CarbonDioxide => AtmosphereType::CarbonDioxide,
        AtmosphereTypeSnapshot::Thin => AtmosphereType::Thin,
        AtmosphereTypeSnapshot::Toxic => AtmosphereType::Toxic,
        AtmosphereTypeSnapshot::NoAtmosphere => AtmosphereType::NoAtmosphere,
    }
}

/// The trait that a scenario trait stands for.
pub open spec fn spec_trait(s: NationalTraitSnapshot) -> NationalTrait {
    match s {
        NationalTraitSnapshot::CollectiveMind => NationalTrait::CollectiveMind,
        NationalTraitSnapshot::WarriorCulture => NationalTrait::WarriorCulture,
        NationalTraitSnapshot::Pacifist => NationalTrait::Pacifist,
        NationalTraitSnapshot::MerchantGuild => NationalTrait::MerchantGuild,
        NationalTraitSnapshot::Technocracy => NationalTrait::Technocracy,
    }
}

impl AtmosphereTypeSnapshot {
    /// The simulation atmosphere of the same name.
    pub fn to_atmosphere(self) -> (a: AtmosphereType)
        ensures
            a == spec_atmosphere(self),
    {
        match self {
            AtmosphereTypeSnapshot::EarthLike => AtmosphereType::EarthLike,
            AtmosphereTypeSnapshot::CarbonDioxide => AtmosphereType::CarbonDioxide,
            AtmosphereTypeSnapshot::Thin => AtmosphereType::Thin,
            AtmosphereTypeSnapshot::Toxic => AtmosphereType::Toxic,
            AtmosphereTypeSnapshot::NoAtmosphere => AtmosphereType::NoAtmosphere,
        }
    }
}

impl NationalTraitSnapshot {
    /// The simulation trait of the same name.
    pub fn to_trait(self) -> (t: NationalTrait)
        ensures
            t == spec_trait(self),
    {
        match self {
            NationalTraitSnapshot::CollectiveMind => NationalTrait::CollectiveMind,
            NationalTraitSnapshot::WarriorCulture => NationalTrait::WarriorCulture,
            NationalTraitSnapshot::Pacifist => NationalTrait::Pacifist,
            NationalTraitSnapshot::MerchantGuild => NationalTrait::MerchantGuild,
            NationalTraitSnapshot::Technocracy => NationalTrait::Technocracy,
        }
    }
}

impl NationalIdentitySnapshot {
    /// The identity with the same traits, in the same order.
    pub fn to_identity(&self) -> (id: NationalIdentity)
        ensures
            id.traits@.len() == self.traits@.len(),
            forall|i: int| 0 <= i < self.traits@.len() ==> #[trigger] id.traits@[i] == spec_trait(self.traits@[i]),
    {
        let mut traits: Vec<NationalTrait> = Vec::new();
        let mut i: usize = 0;
        while i < self.traits.len()
            invariant
                0 <= i <= self.traits@.len(),
                traits@.len() == i,
                forall|j: int| 0 <= j < i ==> #[trigger] traits@[j] == spec_trait(self.traits@[j]),
            decreases self.traits@.len() - i,
        {
            traits.push(self.traits[i].to_trait());
            i = i + 1;
        }
        NationalIdentity { traits }
    }
}

} // verus!
