//! Terraforming phases and how a finished phase changes a planet's atmosphere.
use vstd::prelude::*;
use crate::environment::{AtmosphereType, atmosphere_quality};

verus! {

/// The phases that a terraforming project goes through, in order.
#[derive(Debug, Clone, Copy, PartialEq, Eq, Structural)]
pub enum TerraformingPhase {
    NotStarted,
    AtmosphericDensity,
    TemperatureControl,
    WaterManagement,
    BiologicalSeeding,
    Complete,
}

/// Position of a phase in the sequence (`None` is 0, `Complete` is 5).
pub open spec fn phase_rank(p: TerraformingPhase) -> nat {
    match p {
        TerraformingPhase::NotStarted => 0,
        TerraformingPhase::AtmosphericDensity => 1,
        TerraformingPhase::TemperatureControl => 2,
        TerraformingPhase::WaterManagement => 3,
        TerraformingPhase::BiologicalSeeding => 4,
        TerraformingPhase::Complete => 5,
    }
}

/// The phase that follows `p`; `Complete` stays `Complete`.
pub open spec fn spec_next(p: TerraformingPhase) -> TerraformingPhase {
    match p {
        TerraformingPhase::NotStarted => TerraformingPhase::AtmosphericDensity,
        TerraformingPhase::AtmosphericDensity => TerraformingPhase::TemperatureControl,
        TerraformingPhase::TemperatureControl => TerraformingPhase::WaterManagement,
        TerraformingPhase::WaterManagement => TerraformingPhase::BiologicalSeeding,
        TerraformingPhase::BiologicalSeeding => TerraformingPhase::Complete,
        TerraformingPhase::Complete => TerraformingPhase::Complete,
    }
}

impl TerraformingPhase {
    /// The phase that follows this one; `Complete` stays `Complete`.
    pub fn next(&self) -> (r: TerraformingPhase)
        ensures
            r == spec_next(*self),
            phase_rank(r) == if phase_rank(*self) < 5 { phase_rank(*self) + 1 } else { 5 },
    {
        match self {
            TerraformingPhase::NotStarted => TerraformingPhase::AtmosphericDensity,
            TerraformingPhase::AtmosphericDensity => TerraformingPhase::TemperatureControl,
            TerraformingPhase::TemperatureControl => TerraformingPhase::WaterManagement,
            TerraformingPhase::WaterManagement => TerraformingPhase::BiologicalSeeding,
            TerraformingPhase::BiologicalSeeding => TerraformingPhase::Complete,
            TerraformingPhase::Complete => TerraformingPhase::Complete,
        }
    }
}

} // verus!

verus! {

/// Description of each phase.
pub open spec fn phase_description(p: TerraformingPhase) -> Seq<char> {
    match p {
        TerraformingPhase::NotStarted => "未開始"@,
        TerraformingPhase::AtmosphericDensity => "大気密度の調整"@,
        TerraformingPhase::TemperatureControl => "温室効果ガス制御"@,
        TerraformingPhase::WaterManagement => "水の液化・配布"@,
        TerraformingPhase::BiologicalSeeding => "生態系の植え付け"@,
        TerraformingPhase::Complete => "完了"@,
    }
}

impl TerraformingPhase {
    /// Human-readable description of the phase.
    pub fn description(&self) -> (d: &'static str)
        ensures
            d@ == phase_description(*self),
    {
        match self {
            TerraformingPhase::NotStarted => "未開始",
            TerraformingPhase::AtmosphericDensity => "大気密度の調整",
            TerraformingPhase::TemperatureControl => "温室効果ガス制御",
            TerraformingPhase::WaterManagement => "水の液化・配布",
            TerraformingPhase::BiologicalSeeding => "生態系の植え付け",
            TerraformingPhase::Complete => "完了",
        }
    }
}

/// The atmosphere a planet has once `phase` is finished: thickening the
/// atmosphere turns a missing or thin one into a thin one, temperature control
/// fixes a carbon-dioxide atmosphere into a breathable one, and biological
/// seeding always ends with a breathable atmosphere.
pub open spec fn spec_atmosphere_after_phase(phase: TerraformingPhase, atmosphere: AtmosphereType) -> AtmosphereType {
    match phase {
        TerraformingPhase::AtmosphericDensity => if atmosphere == AtmosphereType::NoAtmosphere
            || atmosphere == AtmosphereType::Thin {
            AtmosphereType::Thin
        } else {
            atmosphere
        },
        TerraformingPhase::TemperatureControl => if atmosphere == AtmosphereType::CarbonDioxide {
            AtmosphereType::EarthLike
        } else {
            atmosphere
        },
        TerraformingPhase::BiologicalSeeding => AtmosphereType::EarthLike,
        _ => atmosphere,
    }
}

/// Atmosphere after finishing `phase` (the atmospheric part of completing a phase).
pub fn atmosphere_after_phase(phase: TerraformingPhase, atmosphere: AtmosphereType) -> (a: AtmosphereType)
    ensures
        a == spec_atmosphere_after_phase(phase, atmosphere),
{
    match phase {
        TerraformingPhase::AtmosphericDensity => {
            if atmosphere == AtmosphereType::NoAtmosphere || atmosphere == AtmosphereType::Thin {
                AtmosphereType::Thin
            } else {
                atmosphere
            }
        },
        TerraformingPhase::TemperatureControl => {
            if atmosphere == AtmosphereType::CarbonDioxide {
                AtmosphereType::EarthLike
            } else {
                atmosphere
            }
        },
        TerraformingPhase::BiologicalSeeding => AtmosphereType::EarthLike,
        _ => atmosphere,
    }
}

/// The phase a project works on this tick, or `None` when it does nothing:
/// finished projects and nations whose environmental technology is below the
/// required level do nothing, and a project that has not started begins with
/// the atmospheric-density phase.
pub fn phase_to_work_on(current: TerraformingPhase, env_tech_level: u32, min_env_tech: u32) -> (p: Option<TerraformingPhase>)
    ensures
        current == TerraformingPhase::Complete ==> p is None,
        current != TerraformingPhase::Complete && env_tech_level < min_env_tech ==> p is None,
        current != TerraformingPhase::Complete && env_tech_level >= min_env_tech ==> p == Some(
            if current == TerraformingPhase::NotStarted { TerraformingPhase::AtmosphericDensity } else { current },
        ),
{
    if current == TerraformingPhase::Complete {
        return None;
    }
    if env_tech_level < min_env_tech {
        return None;
    }
    if current == TerraformingPhase::NotStarted {
        Some(TerraformingPhase::AtmosphericDensity)
    } else {
        Some(current)
    }
}

/// Factor on the progress per tick: once the terraforming technology has a
/// level and has unlocked the terraforming feature, progress is multiplied by
/// one plus that level.
pub fn progress_speed_factor(terraforming_level: u32, feature_unlocked: bool) -> (f: u64)
    ensures
        f == if terraforming_level > 0 && feature_unlocked { 1 + terraforming_level } else { 1 },
{
    if terraforming_level > 0 && feature_unlocked {
        1 + terraforming_level as u64
    } else {
        1
    }
}

/// Finishing a phase never makes the atmosphere less livable.
pub proof fn lemma_phase_never_worsens_atmosphere(phase: TerraformingPhase, atmosphere: AtmosphereType)
    ensures
        atmosphere_quality(spec_atmosphere_after_phase(phase, atmosphere)) >= atmosphere_quality(atmosphere),
{
}

/// Starting from any phase, five steps of `next` reach `Complete`, which
/// `next` keeps.
pub proof fn lemma_phases_reach_complete(p: TerraformingPhase)
    ensures
        spec_next(spec_next(spec_next(spec_next(spec_next(p))))) == TerraformingPhase::Complete,
        spec_next(TerraformingPhase::Complete) == TerraformingPhase::Complete,
{
}

} // verus!

verus! {

/// What finishing a phase does to the atmosphere, for every phase and every
/// atmosphere: biological seeding always leaves a breathable atmosphere;
/// otherwise the atmosphere changes only when the density phase finds none
/// (it becomes thin) or temperature control finds carbon dioxide (it becomes
/// breathable). A thin atmosphere stays thin under the density phase, and
/// every other phase leaves every other atmosphere as it was.
pub proof fn lemma_phase_changes_to_atmosphere(phase: TerraformingPhase, atmosphere: AtmosphereType)
    ensures
        ({
            let after = spec_atmosphere_after_phase(phase, atmosphere);
            &&& phase == TerraformingPhase::BiologicalSeeding ==> after == AtmosphereType::EarthLike
            &&& phase == TerraformingPhase::AtmosphericDensity && atmosphere == AtmosphereType::NoAtmosphere
                ==> after == AtmosphereType::Thin
            &&& phase == TerraformingPhase::TemperatureControl && atmosphere == AtmosphereType::CarbonDioxide
                ==> after == AtmosphereType::EarthLike
            &&& phase != TerraformingPhase::BiologicalSeeding && after != atmosphere ==> {
                ||| phase == TerraformingPhase::AtmosphericDensity && atmosphere == AtmosphereType::NoAtmosphere
                ||| phase == TerraformingPhase::TemperatureControl && atmosphere == AtmosphereType::CarbonDioxide
            }
        }),
{
}

} // verus!
