//! Random planetary events: their kinds and the deterministic roll that
//! decides, from the seed, the tick and the planet, whether one happens.
use vstd::prelude::*;
use vstd::arithmetic::div_mod::{lemma_add_mod_noop, lemma_mod_sub_multiples_vanish, lemma_small_mod};

verus! {

/// Kinds of random event.
#[derive(Debug, Clone, Copy, PartialEq, Eq, Structural)]
pub enum EventKind {
    /// Plague: population loss.
    Plague,
    /// Bountiful harvest: food bonus.
    BountifulHarvest,
    /// Mineral discovery: mineral bonus.
    MineralDiscovery,
    /// Baby boom: a burst of growth.
    BabyBoom,
    /// Energy crisis: energy loss.
    EnergyCrisis,
    /// Technological breakthrough: research bonus.
    TechBreakthrough,
    /// Rebellion: population and food loss.
    Rebellion,
    /// Trade boom: a little of every resource.
    TradeBoom,
    /// Earthquake: damage that depends on tectonic activity.
    Earthquake,
    /// Radiation storm: population and energy loss that depends on radiation.
    RadiationStorm,
    /// Meteorite impact: heavy damage that depends on the meteorite risk.
    MeteoriteImpact,
    /// Environmental disaster: population damage from pollution.
    EnvironmentalDisaster,
}

/// Every kind of event, in declaration order.
pub open spec fn all_event_kinds() -> Seq<EventKind> {
    seq![
        EventKind::Plague,
        EventKind::BountifulHarvest,
        EventKind::MineralDiscovery,
        EventKind::BabyBoom,
        EventKind::EnergyCrisis,
        EventKind::TechBreakthrough,
        EventKind::Rebellion,
        EventKind::TradeBoom,
        EventKind::Earthquake,
        EventKind::RadiationStorm,
        EventKind::MeteoriteImpact,
        EventKind::EnvironmentalDisaster,
    ]
}

impl EventKind {
    /// The list of every kind of event.
    pub fn all() -> (kinds: Vec<EventKind>)
        ensures
            kinds@ == all_event_kinds(),
    {
        let kinds = vec![
            EventKind::Plague,
            EventKind::BountifulHarvest,
            EventKind::MineralDiscovery,
            EventKind::BabyBoom,
            EventKind::EnergyCrisis,
            EventKind::TechBreakthrough,
            EventKind::Rebellion,
            EventKind::TradeBoom,
            EventKind::Earthquake,
            EventKind::RadiationStorm,
            EventKind::MeteoriteImpact,
            EventKind::EnvironmentalDisaster,
        ];
        assert(kinds@ =~= all_event_kinds());
        kinds
    }
}

/// Every kind of event occurs exactly once in `all_event_kinds`.
pub proof fn lemma_all_event_kinds_complete(k: EventKind)
    ensures
        all_event_kinds().contains(k),
        all_event_kinds().no_duplicates(),
{
    let s = all_event_kinds();
    let i: int = match k {
        EventKind::Plague => 0,
        EventKind::BountifulHarvest => 1,
        EventKind::MineralDiscovery => 2,
        EventKind::BabyBoom => 3,
        EventKind::EnergyCrisis => 4,
        EventKind::TechBreakthrough => 5,
        EventKind::Rebellion => 6,
        EventKind::TradeBoom => 7,
        EventKind::Earthquake => 8,
        EventKind::RadiationStorm => 9,
        EventKind::MeteoriteImpact => 10,
        EventKind::EnvironmentalDisaster => 11,
    };
    assert(s[i] == k);
}

/// 2^64.
pub open spec fn two_pow_64() -> int {
    0x1_0000_0000_0000_0000
}

/// `x` reduced to 64 bits.
pub open spec fn wrap64(x: int) -> u64 {
    (x % two_pow_64()) as u64
}

/// One xor-shift step of the finaliser.
pub open spec fn xorshift33(h: u64) -> u64 {
    h ^ (h >> 33u64)
}

/// The hash of (seed, tick, planet index): a weighted sum of the three inputs
/// reduced to 64 bits, then three xor-shift steps with two multiplications
/// (mod 2^64) in between.
pub open spec fn spec_deterministic_hash(seed: u64, tick: u64, index: u64) -> u64 {
    let h0 = wrap64(seed * 2654435761 + tick * 1099511628211 + index * 6364136223846793005);
    let h1 = xorshift33(h0);
    let h2 = wrap64(h1 * 0xff51afd7ed558ccd);
    let h3 = xorshift33(h2);
    let h4 = wrap64(h3 * 0xc4ceb9fe1a85ec53);
    xorshift33(h4)
}

proof fn lemma_wrapping_add_is_wrap(x: u64, y: u64)
    ensures
        vstd::wrapping::u64_specs::wrapping_add(x, y) == wrap64(x + y),
{
    let m = two_pow_64();
    if x + y > u64::MAX {
        lemma_mod_sub_multiples_vanish(x + y, m);
        lemma_small_mod((x + y - m) as nat, m as nat);
    } else {
        lemma_small_mod((x + y) as nat, m as nat);
    }
}

proof fn lemma_wrap_sum(a: int, b: int)
    ensures
        wrap64(wrap64(a) + wrap64(b)) == wrap64(a + b),
{
    lemma_add_mod_noop(a, b, two_pow_64());
}

/// Deterministic 64-bit hash of (seed, tick, planet index).
pub fn deterministic_hash(seed: u64, tick: u64, index: u64) -> (h: u64)
    ensures
        h == spec_deterministic_hash(seed, tick, index),
{
    let a = seed.wrapping_mul(2654435761);
    let b = tick.wrapping_mul(1099511628211);
    let c = index.wrapping_mul(6364136223846793005);
    let mut h = a.wrapping_add(b);
    proof {
        lemma_wrapping_add_is_wrap(a, b);
        lemma_wrap_sum(seed * 2654435761, tick * 1099511628211);
    }
    let ghost ab = h;
    h = h.wrapping_add(c);
    proof {
        lemma_wrapping_add_is_wrap(ab, c);
        lemma_wrap_sum(seed * 2654435761 + tick * 1099511628211, index * 6364136223846793005);
        assert(wrap64(seed * 2654435761 + tick * 1099511628211) == ab);
    }
    h = h ^ (h >> 33);
    h = h.wrapping_mul(0xff51afd7ed558ccd);
    h = h ^ (h >> 33);
    h = h.wrapping_mul(0xc4ceb9fe1a85ec53);
    h = h ^ (h >> 33);
    h
}

/// What the roll decides when an event happens: the value that picks the
/// kind (weighted by the app) and the intensity in percent above the base
/// of 50% (so the intensity is 0.5 + intensity_pct / 100).
#[derive(Debug, Clone, Copy, PartialEq, Eq)]
pub struct EventRoll {
    pub selector: u64,
    pub intensity_pct: u64,
}

/// Roll for an event on planet `index` at `tick`: an event happens when the
/// hash is a multiple of 20 (5% of the time); its kind is picked from the hash
/// shifted right by 8 bits, its intensity from bits 16 and up, modulo 100.
pub fn event_roll(seed: u64, tick: u64, index: u64) -> (r: Option<EventRoll>)
    ensures
        ({
            let h = spec_deterministic_hash(seed, tick, index);
            &&& (r is Some <==> h % 20 == 0)
            &&& r matches Some(roll) ==> roll.selector == h >> 8u64 && roll.intensity_pct == (h >> 16u64) % 100
        }),
{
    let hash = deterministic_hash(seed, tick, index);
    if hash % 20 != 0 {
        return None;
    }
    Some(EventRoll { selector: hash >> 8, intensity_pct: (hash >> 16) % 100 })
}

} // verus!
