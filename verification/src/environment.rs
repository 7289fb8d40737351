//! Planetary atmospheres.
use vstd::prelude::*;

verus! {

/// Composition of a planet's atmosphere.
#[derive(Debug, Clone, Copy, PartialEq, Eq, Structural)]
pub enum AtmosphereType {
    /// Breathable oxygen/nitrogen.
    EarthLike,
    /// Mostly carbon dioxide, Venus-like.
    CarbonDioxide,
    /// Thin, Mars-like.
    Thin,
    /// Toxic gases.
    Toxic,
    /// No atmosphere at all, Moon-like.
    NoAtmosphere,
}

/// How livable an atmosphere is, in the order that habitability scores them:
/// breathable above thin above carbon dioxide above toxic above none.
pub open spec fn atmosphere_quality(a: AtmosphereType) -> nat {
    match a {
        AtmosphereType::EarthLike => 4,
        AtmosphereType::Thin => 3,
        AtmosphereType::CarbonDioxide => 2,
        AtmosphereType::Toxic => 1,
        AtmosphereType::NoAtmosphere => 0,
    }
}

/// Colour in which the map view draws a planet with this atmosphere.
pub open spec fn spec_atmosphere_color(a: AtmosphereType) -> Seq<char> {
    match a {
        AtmosphereType::EarthLike => "#2288CC"@,
        AtmosphereType::CarbonDioxide => "#DDAA55"@,
        AtmosphereType::Thin => "#CC5544"@,
        AtmosphereType::Toxic => "#88CC44"@,
        AtmosphereType::NoAtmosphere => "#888888"@,
    }
}

/// Colour of a planet on the map: blue when breathable, ochre for carbon
/// dioxide, red when thin, green when toxic, grey without an atmosphere.
pub fn atmosphere_color(a: AtmosphereType) -> (c: &'static str)
    ensures
        c@ == spec_atmosphere_color(a),
{
    match a {
        AtmosphereType::EarthLike => "#2288CC",
        AtmosphereType::CarbonDioxide => "#DDAA55",
        AtmosphereType::Thin => "#CC5544",
        AtmosphereType::Toxic => "#88CC44",
        AtmosphereType::NoAtmosphere => "#888888",
    }
}

/// Name under which the map view reports an atmosphere.
pub open spec fn spec_atmosphere_type_name(a: AtmosphereType) -> Seq<char> {
    match a {
        AtmosphereType::EarthLike => "EarthLike"@,
        AtmosphereType::CarbonDioxide => "CarbonDioxide"@,
        AtmosphereType::Thin => "Thin"@,
        AtmosphereType::Toxic => "Toxic"@,
        AtmosphereType::NoAtmosphere => "None"@,
    }
}

/// Type name of an atmosphere as the map view shows it (a planet without an
/// atmosphere is reported as "None").
pub fn atmosphere_type_name(a: AtmosphereType) -> (n: &'static str)
    ensures
        n@ == spec_atmosphere_type_name(a),
{
    match a {
        AtmosphereType::EarthLike => "EarthLike",
        AtmosphereType::CarbonDioxide => "CarbonDioxide",
        AtmosphereType::Thin => "Thin",
        AtmosphereType::Toxic => "Toxic",
        AtmosphereType::NoAtmosphere => "None",
    }
}

} // verus!
