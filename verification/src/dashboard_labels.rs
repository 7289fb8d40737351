//! The dashboard's own labels: English event and research-field names,
//! its emoji set and one-character resource abbreviations.
use vstd::prelude::*;
use crate::economy::ResourceType;
use crate::events::EventKind;
use crate::technology::TechField;

verus! {

/// Emoji that the dashboard shows for an event kind.
pub open spec fn spec_event_kind_emoji(kind: EventKind) -> Seq<char> {
    match kind {
        EventKind::Plague => "🦠"@,
        EventKind::BountifulHarvest => "🍎"@,
        EventKind::MineralDiscovery => "💎"@,
        EventKind::BabyBoom => "👶"@,
        EventKind::EnergyCrisis => "⚡"@,
        EventKind::TechBreakthrough => "🚀"@,
        EventKind::Rebellion => "🔥"@,
        EventKind::TradeBoom => "💰"@,
        EventKind::Earthquake => "🌋"@,
        EventKind::RadiationStorm => "☢️"@,
        EventKind::MeteoriteImpact => "☄️"@,
        EventKind::EnvironmentalDisaster => "☣️"@,
    }
}

/// Emoji that the dashboard shows for an event kind.
pub fn event_kind_emoji(kind: &EventKind) -> (s: &'static str)
    ensures
        s@ == spec_event_kind_emoji(*kind),
{
    match kind {
        EventKind::Plague => "🦠",
        EventKind::BountifulHarvest => "🍎",
        EventKind::MineralDiscovery => "💎",
        EventKind::BabyBoom => "👶",
        EventKind::EnergyCrisis => "⚡",
        EventKind::TechBreakthrough => "🚀",
        EventKind::Rebellion => "🔥",
        EventKind::TradeBoom => "💰",
        EventKind::Earthquake => "🌋",
        EventKind::RadiationStorm => "☢️",
        EventKind::MeteoriteImpact => "☄️",
        EventKind::EnvironmentalDisaster => "☣️",
    }
}

/// English name of an event kind.
pub open spec fn spec_event_kind_name(kind: EventKind) -> Seq<char> {
    match kind {
        EventKind::Plague => "Epidemic"@,
        EventKind::BountifulHarvest => "Bountiful Harvest"@,
        EventKind::MineralDiscovery => "Mineral Discovery"@,
        EventKind::BabyBoom => "Baby Boom"@,
        EventKind::EnergyCrisis => "Energy Crisis"@,
        EventKind::TechBreakthrough => "Tech Breakthrough"@,
        EventKind::Rebellion => "Rebellion"@,
        EventKind::TradeBoom => "Trade Boom"@,
        EventKind::Earthquake => "Earthquake"@,
        EventKind::RadiationStorm => "Radiation Storm"@,
        EventKind::MeteoriteImpact => "Meteorite Impact"@,
        EventKind::EnvironmentalDisaster => "Environmental Disaster"@,
    }
}

/// English name of an event kind.
pub fn event_kind_name(kind: &EventKind) -> (s: &'static str)
    ensures
        s@ == spec_event_kind_name(*kind),
{
    match kind {
        EventKind::Plague => "Epidemic",
        EventKind::BountifulHarvest => "Bountiful Harvest",
        EventKind::MineralDiscovery => "Mineral Discovery",
        EventKind::BabyBoom => "Baby Boom",
        EventKind::EnergyCrisis => "Energy Crisis",
        EventKind::TechBreakthrough => "Tech Breakthrough",
        EventKind::Rebellion => "Rebellion",
        EventKind::TradeBoom => "Trade Boom",
        EventKind::Earthquake => "Earthquake",
        EventKind::RadiationStorm => "Radiation Storm",
        EventKind::MeteoriteImpact => "Meteorite Impact",
        EventKind::EnvironmentalDisaster => "Environmental Disaster",
    }
}

/// One-character abbreviation of a resource.
pub open spec fn spec_resource_type_short_name(rt: ResourceType) -> Seq<char> {
    match rt {
        ResourceType::Food => "食"@,
        ResourceType::Minerals => "鉱"@,
        ResourceType::Energy => "エ"@,
        ResourceType::ManufacturedGoods => "工"@,
    }
}

/// One-character abbreviation of a resource.
pub fn resource_type_short_name(rt: &ResourceType) -> (s: &'static str)
    ensures
        s@ == spec_resource_type_short_name(*rt),
{
    match rt {
        ResourceType::Food => "食",
        ResourceType::Minerals => "鉱",
        ResourceType::Energy => "エ",
        ResourceType::ManufacturedGoods => "工",
    }
}

/// English name of a research field.
pub open spec fn spec_tech_field_name(field: TechField) -> Seq<char> {
    match field {
        TechField::Agriculture => "Agriculture"@,
        TechField::Mining => "Mining"@,
        TechField::EnergyTech => "Energy"@,
        TechField::Manufacturing => "Manufacturing"@,
        TechField::MilitaryTech => "Military"@,
        TechField::SpaceNavigation => "Navigation"@,
        TechField::EnvironmentalTech => "Environmental"@,
        TechField::NuclearFusion => "Nuclear Fusion"@,
    }
}

/// English name of a research field.
pub fn tech_field_name(field: &TechField) -> (s: &'static str)
    ensures
        s@ == spec_tech_field_name(*field),
{
    match field {
        TechField::Agriculture => "Agriculture",
        TechField::Mining => "Mining",
        TechField::EnergyTech => "Energy",
        TechField::Manufacturing => "Manufacturing",
        TechField::MilitaryTech => "Military",
        TechField::SpaceNavigation => "Navigation",
        TechField::EnvironmentalTech => "Environmental",
        TechField::NuclearFusion => "Nuclear Fusion",
    }
}

} // verus!
