//! Japanese display names and emoji for event kinds, resources and
//! research fields, shared by the command-line log and the dashboard.
use vstd::prelude::*;
use crate::economy::ResourceType;
use crate::events::EventKind;
use crate::technology::TechField;

verus! {

/// Emoji shown for an event kind.
pub open spec fn spec_event_kind_emoji(kind: EventKind) -> Seq<char> {
    match kind {
        EventKind::Plague => "🦠"@,
        EventKind::BountifulHarvest => "🌾"@,
        EventKind::MineralDiscovery => "💎"@,
        EventKind::BabyBoom => "👶"@,
        EventKind::EnergyCrisis => "⚡"@,
        EventKind::TechBreakthrough => "💡"@,
        EventKind::Rebellion => "🔥"@,
        EventKind::TradeBoom => "📈"@,
        EventKind::Earthquake => "🌋"@,
        EventKind::RadiationStorm => "☢️"@,
        EventKind::MeteoriteImpact => "☄️"@,
        EventKind::EnvironmentalDisaster => "☣️"@,
    }
}

/// Emoji shown for an event kind.
pub fn event_kind_emoji(kind: &EventKind) -> (s: &'static str)
    ensures
        s@ == spec_event_kind_emoji(*kind),
{
    match kind {
        EventKind::Plague => "🦠",
        EventKind::BountifulHarvest => "🌾",
        EventKind::MineralDiscovery => "💎",
        EventKind::BabyBoom => "👶",
        EventKind::EnergyCrisis => "⚡",
        EventKind::TechBreakthrough => "💡",
        EventKind::Rebellion => "🔥",
        EventKind::TradeBoom => "📈",
        EventKind::Earthquake => "🌋",
        EventKind::RadiationStorm => "☢️",
        EventKind::MeteoriteImpact => "☄️",
        EventKind::EnvironmentalDisaster => "☣️",
    }
}

/// Japanese name of an event kind.
pub open spec fn spec_event_kind_name(kind: EventKind) -> Seq<char> {
    match kind {
        EventKind::Plague => "疫病の流行"@,
        EventKind::BountifulHarvest => "豊作"@,
        EventKind::MineralDiscovery => "鉱脈の発見"@,
        EventKind::BabyBoom => "ベビーブーム"@,
        EventKind::EnergyCrisis => "エネルギー危機"@,
        EventKind::TechBreakthrough => "技術ブレイクスルー"@,
        EventKind::Rebellion => "反乱"@,
        EventKind::TradeBoom => "交易ブーム"@,
        EventKind::Earthquake => "大地震"@,
        EventKind::RadiationStorm => "放射線嵐"@,
        EventKind::MeteoriteImpact => "隕石衝突"@,
        EventKind::EnvironmentalDisaster => "環境異常災害"@,
    }
}

/// Japanese name of an event kind.
pub fn event_kind_name(kind: &EventKind) -> (s: &'static str)
    ensures
        s@ == spec_event_kind_name(*kind),
{
    match kind {
        EventKind::Plague => "疫病の流行",
        EventKind::BountifulHarvest => "豊作",
        EventKind::MineralDiscovery => "鉱脈の発見",
        EventKind::BabyBoom => "ベビーブーム",
        EventKind::EnergyCrisis => "エネルギー危機",
        EventKind::TechBreakthrough => "技術ブレイクスルー",
        EventKind::Rebellion => "反乱",
        EventKind::TradeBoom => "交易ブーム",
        EventKind::Earthquake => "大地震",
        EventKind::RadiationStorm => "放射線嵐",
        EventKind::MeteoriteImpact => "隕石衝突",
        EventKind::EnvironmentalDisaster => "環境異常災害",
    }
}

/// Japanese name of a resource.
pub open spec fn spec_resource_type_name(rt: ResourceType) -> Seq<char> {
    match rt {
        ResourceType::Food => "食料"@,
        ResourceType::Minerals => "鉱物"@,
        ResourceType::Energy => "ｴﾈﾙｷﾞｰ"@,
        ResourceType::ManufacturedGoods => "工業品"@,
    }
}

/// Japanese name of a resource.
pub fn resource_type_name(rt: &ResourceType) -> (s: &'static str)
    ensures
        s@ == spec_resource_type_name(*rt),
{
    match rt {
        ResourceType::Food => "食料",
        ResourceType::Minerals => "鉱物",
        ResourceType::Energy => "ｴﾈﾙｷﾞｰ",
        ResourceType::ManufacturedGoods => "工業品",
    }
}

/// Japanese name of a research field.
pub open spec fn spec_tech_field_name(field: TechField) -> Seq<char> {
    match field {
        TechField::Agriculture => "農業"@,
        TechField::Mining => "採掘"@,
        TechField::EnergyTech => "ｴﾈﾙｷﾞｰ"@,
        TechField::Manufacturing => "工業"@,
        TechField::MilitaryTech => "軍事"@,
        TechField::SpaceNavigation => "宇宙航行"@,
        TechField::EnvironmentalTech => "環境技術"@,
        TechField::NuclearFusion => "核融合"@,
    }
}

/// Japanese name of a research field.
pub fn tech_field_name(field: &TechField) -> (s: &'static str)
    ensures
        s@ == spec_tech_field_name(*field),
{
    match field {
        TechField::Agriculture => "農業",
        TechField::Mining => "採掘",
        TechField::EnergyTech => "ｴﾈﾙｷﾞｰ",
        TechField::Manufacturing => "工業",
        TechField::MilitaryTech => "軍事",
        TechField::SpaceNavigation => "宇宙航行",
        TechField::EnvironmentalTech => "環境技術",
        TechField::NuclearFusion => "核融合",
    }
}

} // verus!
