//! Ship losses in a star system under attack, occupation, and the end of wars.
//!
//! Entities are held as their 64-bit ids.
use vstd::prelude::*;

verus! {

/// Tactical stance of a fleet.
#[derive(Debug, Clone, Copy, PartialEq, Eq, Default, Structural)]
pub enum FleetStance {
    /// Regular combat.
    #[default]
    Active,
    /// Attack first: +20% power.
    Aggressive,
    /// Defend first: -20% power, shields the planets by taking hits first.
    Defensive,
    /// Avoid combat: 10% power, hit last.
    Passive,
}

/// State of a battlefront.
#[derive(Debug, Clone, Copy, PartialEq, Eq, Structural)]
pub enum BattleStatus {
    /// Both sides are present.
    Active,
    /// One side holds the whole system.
    Resolved,
}

/// Percentage of its power that a fleet brings to a battle, by stance
/// (a fleet without a stance fights as an active one).
pub open spec fn spec_stance_power_pct(stance: Option<FleetStance>) -> u32 {
    match stance {
        Some(FleetStance::Aggressive) => 120,
        Some(FleetStance::Defensive) => 80,
        Some(FleetStance::Passive) => 10,
        _ => 100,
    }
}

/// Percentage of its power that a fleet with this stance brings to a battle.
pub fn stance_power_pct(stance: Option<FleetStance>) -> (pct: u32)
    ensures
        pct == spec_stance_power_pct(stance),
{
    match stance {
        Some(FleetStance::Aggressive) => 120,
        Some(FleetStance::Defensive) => 80,
        Some(FleetStance::Passive) => 10,
        _ => 100,
    }
}

/// A fleet as the combat rules see it.
#[derive(Debug, Clone, Copy, PartialEq, Eq, Structural)]
pub struct CombatFleet {
    pub system: u64,
    pub nation: u64,
    pub ships: u32,
    pub stance: Option<FleetStance>,
}

/// A planet as the combat rules see it.
#[derive(Debug, Clone, Copy, PartialEq, Eq, Structural)]
pub struct CombatPlanet {
    pub system: u64,
    pub nation: u64,
    pub ships: u32,
    /// The nation occupying the planet, if any.
    pub occupied_by: Option<u64>,
}

/// Order in which damage reaches a nation's forces in a system: defensive
/// fleets (0), then active, aggressive and stance-less fleets (1), then the
/// planets' garrisons (2), and passive fleets last (3).
pub open spec fn fleet_phase(stance: Option<FleetStance>) -> int {
    match stance {
        Some(FleetStance::Defensive) => 0,
        Some(FleetStance::Passive) => 3,
        _ => 1,
    }
}

pub open spec fn fleet_targeted(f: CombatFleet, system: u64, nation: u64) -> bool {
    f.system == system && f.nation == nation
}

pub open spec fn planet_targeted(p: CombatPlanet, system: u64, nation: u64) -> bool {
    p.system == system && p.nation == nation
}

/// Ships of the targeted fleets of phase `phase` among the first `n` fleets.
pub open spec fn fleet_phase_ships(fleets: Seq<CombatFleet>, n: int, system: u64, nation: u64, phase: int) -> int
    decreases n,
{
    if n <= 0 {
        0
    } else {
        fleet_phase_ships(fleets, n - 1, system, nation, phase) + if fleet_targeted(fleets[n - 1], system, nation)
            && fleet_phase(fleets[n - 1].stance) == phase {
            fleets[n - 1].ships as int
        } else {
            0
        }
    }
}

/// Garrison ships of the targeted planets among the first `n` planets.
pub open spec fn planet_ships(planets: Seq<CombatPlanet>, n: int, system: u64, nation: u64) -> int
    decreases n,
{
    if n <= 0 {
        0
    } else {
        planet_ships(planets, n - 1, system, nation) + if planet_targeted(planets[n - 1], system, nation) {
            planets[n - 1].ships as int
        } else {
            0
        }
    }
}

/// Targeted ships that damage reaches before phase `phase` begins.
pub open spec fn ships_before_phase(
    fleets: Seq<CombatFleet>,
    planets: Seq<CombatPlanet>,
    system: u64,
    nation: u64,
    phase: int,
) -> int {
    let f0 = fleet_phase_ships(fleets, fleets.len() as int, system, nation, 0);
    let f1 = fleet_phase_ships(fleets, fleets.len() as int, system, nation, 1);
    let p = planet_ships(planets, planets.len() as int, system, nation);
    if phase <= 0 {
        0
    } else if phase == 1 {
        f0
    } else if phase == 2 {
        f0 + f1
    } else {
        f0 + f1 + p
    }
}

/// All ships of the target nation in the system.
pub open spec fn targeted_ships(fleets: Seq<CombatFleet>, planets: Seq<CombatPlanet>, system: u64, nation: u64) -> int {
    ships_before_phase(fleets, planets, system, nation, 3) + fleet_phase_ships(
        fleets,
        fleets.len() as int,
        system,
        nation,
        3,
    )
}

/// `x`, or 0 when `x` is negative.
pub open spec fn sat(x: int) -> int {
    if x > 0 {
        x
    } else {
        0
    }
}

pub open spec fn min_int(a: int, b: int) -> int {
    if a <= b {
        a
    } else {
        b
    }
}

/// Ships that fleet `i` loses: damage is taken in phase order, and within a
/// phase in list order, each unit losing as many ships as the damage left
/// when its turn comes allows.
pub open spec fn fleet_loss(
    fleets: Seq<CombatFleet>,
    planets: Seq<CombatPlanet>,
    system: u64,
    nation: u64,
    damage: int,
    i: int,
) -> int {
    let f = fleets[i];
    if fleet_targeted(f, system, nation) {
        let p = fleet_phase(f.stance);
        min_int(
            f.ships as int,
            sat(damage - ships_before_phase(fleets, planets, system, nation, p) - fleet_phase_ships(fleets, i, system, nation, p)),
        )
    } else {
        0
    }
}

/// Garrison ships that planet `j` loses.
pub open spec fn planet_loss(
    fleets: Seq<CombatFleet>,
    planets: Seq<CombatPlanet>,
    system: u64,
    nation: u64,
    damage: int,
    j: int,
) -> int {
    let p = planets[j];
    if planet_targeted(p, system, nation) {
        min_int(
            p.ships as int,
            sat(damage - ships_before_phase(fleets, planets, system, nation, 2) - planet_ships(planets, j, system, nation)),
        )
    } else {
        0
    }
}

/// Sum of the ships of a list of fleets.
pub open spec fn fleets_total(fleets: Seq<CombatFleet>) -> int
    decreases fleets.len(),
{
    if fleets.len() == 0 {
        0
    } else {
        fleets_total(fleets.drop_last()) + fleets.last().ships
    }
}

/// Sum of the garrison ships of a list of planets.
pub open spec fn planets_total(planets: Seq<CombatPlanet>) -> int
    decreases planets.len(),
{
    if planets.len() == 0 {
        0
    } else {
        planets_total(planets.drop_last()) + planets.last().ships
    }
}

/// Outcome of dealing damage to a nation's forces in a system.
#[derive(Debug, Clone)]
pub struct DamageReport {
    /// Damage left once every ship of the target in the system is gone.
    pub remaining: u32,
    /// Garrison ships lost by each planet (same order as the planets).
    pub planet_losses: Vec<u32>,
    /// Planets (by index, ascending) that the attacker occupies.
    pub occupied: Vec<usize>,
}

proof fn lemma_fleets_total_update(s: Seq<CombatFleet>, i: int, f: CombatFleet)
    requires
        0 <= i < s.len(),
    ensures
        fleets_total(s.update(i, f)) == fleets_total(s) - s[i].ships + f.ships,
    decreases s.len(),
{
    if i == s.len() - 1 {
        assert(s.update(i, f).drop_last() =~= s.drop_last());
    } else {
        assert(s.update(i, f).drop_last() =~= s.drop_last().update(i, f));
        lemma_fleets_total_update(s.drop_last(), i, f);
    }
}

proof fn lemma_planets_total_update(s: Seq<CombatPlanet>, i: int, p: CombatPlanet)
    requires
        0 <= i < s.len(),
    ensures
        planets_total(s.update(i, p)) == planets_total(s) - s[i].ships + p.ships,
    decreases s.len(),
{
    if i == s.len() - 1 {
        assert(s.update(i, p).drop_last() =~= s.drop_last());
    } else {
        assert(s.update(i, p).drop_last() =~= s.drop_last().update(i, p));
        lemma_planets_total_update(s.drop_last(), i, p);
    }
}

/// The fleet after losing `fleet_loss` ships.
pub open spec fn fleet_after(
    fleets: Seq<CombatFleet>,
    planets: Seq<CombatPlanet>,
    system: u64,
    nation: u64,
    damage: int,
    i: int,
) -> CombatFleet {
    CombatFleet { ships: (fleets[i].ships - fleet_loss(fleets, planets, system, nation, damage, i)) as u32, ..fleets[i] }
}

/// The planet after losing `planet_loss` garrison ships.
pub open spec fn planet_after(
    fleets: Seq<CombatFleet>,
    planets: Seq<CombatPlanet>,
    system: u64,
    nation: u64,
    damage: int,
    j: int,
) -> CombatPlanet {
    CombatPlanet { ships: (planets[j].ships - planet_loss(fleets, planets, system, nation, damage, j)) as u32, ..planets[j] }
}

/// One pass over the fleets dealing damage to those of phase `phase`.
fn damage_fleet_phase(
    fleets: &mut Vec<CombatFleet>,
    system: u64,
    target: u64,
    phase: u8,
    remaining: &mut u32,
    Ghost(orig): Ghost<Seq<CombatFleet>>,
    Ghost(planets): Ghost<Seq<CombatPlanet>>,
    Ghost(damage): Ghost<int>,
)
    requires
        phase == 0 || phase == 1 || phase == 3,
        old(fleets)@.len() == orig.len(),
        *old(remaining) == sat(damage - ships_before_phase(orig, planets, system, target, phase as int)),
        forall|k: int| 0 <= k < orig.len() ==> #[trigger] old(fleets)@[k] == if fleet_phase(orig[k].stance) < phase {
            fleet_after(orig, planets, system, target, damage, k)
        } else {
            orig[k]
        },
    ensures
        final(fleets)@.len() == orig.len(),
        *final(remaining) == sat(
            damage - ships_before_phase(orig, planets, system, target, phase as int) - fleet_phase_ships(
                orig,
                orig.len() as int,
                system,
                target,
                phase as int,
            ),
        ),
        forall|k: int| 0 <= k < orig.len() ==> #[trigger] final(fleets)@[k] == if fleet_phase(orig[k].stance) <= phase {
            fleet_after(orig, planets, system, target, damage, k)
        } else {
            orig[k]
        },
        fleets_total(old(fleets)@) - fleets_total(final(fleets)@) == *old(remaining) - *final(remaining),
        *final(remaining) <= *old(remaining),
{
    let ghost start = fleets@;
    let ghost rem0 = *remaining as int;
    let ghost before = ships_before_phase(orig, planets, system, target, phase as int);
    let mut i: usize = 0;
    while i < fleets.len()
        invariant
            0 <= i <= fleets@.len(),
            fleets@.len() == orig.len(),
            phase == 0 || phase == 1 || phase == 3,
            before == ships_before_phase(orig, planets, system, target, phase as int),
            rem0 == sat(damage - before),
            *remaining == sat(damage - before - fleet_phase_ships(orig, i as int, system, target, phase as int)),
            forall|k: int| 0 <= k < orig.len() ==> #[trigger] fleets@[k] == if fleet_phase(orig[k].stance) < phase
                || (fleet_phase(orig[k].stance) == phase && k < i) {
                fleet_after(orig, planets, system, target, damage, k)
            } else {
                orig[k]
            },
            forall|k: int| 0 <= k < orig.len() ==> #[trigger] start[k] == if fleet_phase(orig[k].stance) < phase {
                fleet_after(orig, planets, system, target, damage, k)
            } else {
                orig[k]
            },
            start.len() == orig.len(),
            fleets_total(start) - fleets_total(fleets@) == rem0 - *remaining,
            *remaining <= rem0,
        decreases fleets@.len() - i,
    {
        let f = fleets[i];
        let in_phase = match f.stance {
            Some(FleetStance::Defensive) => phase == 0,
            Some(FleetStance::Passive) => phase == 3,
            _ => phase == 1,
        };
        let ghost prev = fleets@;
        proof {
            assert(f.stance == orig[i as int].stance && f.system == orig[i as int].system && f.nation == orig[i as int].nation);
            if fleet_phase(orig[i as int].stance) == phase as int {
                assert(f == orig[i as int]);
            }
            assert(in_phase == (fleet_phase(orig[i as int].stance) == phase as int));
        }
        if f.system == system && f.nation == target && f.ships > 0 && in_phase {
            let dmg = if *remaining < f.ships { *remaining } else { f.ships };
            fleets.set(i, CombatFleet { ships: f.ships - dmg, ..f });
            *remaining = *remaining - dmg;
            proof {
                lemma_fleets_total_update(prev, i as int, CombatFleet { ships: (f.ships - dmg) as u32, ..f });
            }
        }
        proof {
            if fleet_phase(orig[i as int].stance) == phase as int {
                assert(fleets@[i as int] == fleet_after(orig, planets, system, target, damage, i as int));
            }
        }
        i = i + 1;
    }
}


/// Deal `total_damage` (in ships) to `target_nation`'s forces in `system`.
///
/// Damage reaches the forces in this order: defensive fleets, then active,
/// aggressive and stance-less fleets, then the planets' garrisons, and passive
/// fleets last; within each group in list order. Each unit loses as many ships
/// as the damage still left allows. If damage is left once every ship of the
/// target in the system is gone, the attacker occupies each of the target's
/// planets there that it does not occupy yet.
pub fn apply_damage_to_system(
    fleets: &mut Vec<CombatFleet>,
    planets: &mut Vec<CombatPlanet>,
    system: u64,
    target_nation: u64,
    total_damage: u32,
    attacker_nation: u64,
) -> (report: DamageReport)
    ensures
        final(fleets)@.len() == old(fleets)@.len(),
        final(planets)@.len() == old(planets)@.len(),
        forall|k: int| 0 <= k < old(fleets)@.len() ==> #[trigger] final(fleets)@[k] == fleet_after(
            old(fleets)@, old(planets)@, system, target_nation, total_damage as int, k),
        forall|j: int| 0 <= j < old(planets)@.len() ==> #[trigger] final(planets)@[j] == planet_after(
            old(fleets)@, old(planets)@, system, target_nation, total_damage as int, j),
        report.planet_losses@.len() == old(planets)@.len(),
        forall|j: int| 0 <= j < old(planets)@.len() ==> #[trigger] report.planet_losses@[j] == planet_loss(
            old(fleets)@, old(planets)@, system, target_nation, total_damage as int, j),
        report.remaining == sat(total_damage - targeted_ships(old(fleets)@, old(planets)@, system, target_nation)),
        forall|x: usize| #[trigger] report.occupied@.contains(x) <==> {
            &&& x < old(planets)@.len()
            &&& report.remaining > 0
            &&& planet_targeted(old(planets)@[x as int], system, target_nation)
            &&& old(planets)@[x as int].occupied_by != Some(attacker_nation)
        },
        forall|a: int, b: int| 0 <= a < b < report.occupied@.len() ==> report.occupied@[a] < report.occupied@[b],
        fleets_total(old(fleets)@) + planets_total(old(planets)@) - fleets_total(final(fleets)@) - planets_total(
            final(planets)@) == total_damage - report.remaining,
{
    let ghost orig_f = fleets@;
    let ghost orig_p = planets@;
    let ghost damage = total_damage as int;
    let mut remaining = total_damage;
    damage_fleet_phase(fleets, system, target_nation, 0, &mut remaining, Ghost(orig_f), Ghost(orig_p), Ghost(damage));
    damage_fleet_phase(fleets, system, target_nation, 1, &mut remaining, Ghost(orig_f), Ghost(orig_p), Ghost(damage));
    let ghost before = ships_before_phase(orig_f, orig_p, system, target_nation, 2);
    let ghost rem_p = remaining as int;
    let mut losses: Vec<u32> = Vec::new();
    let mut defeated = true;
    let mut j: usize = 0;
    while j < planets.len()
        invariant
            0 <= j <= planets@.len(),
            planets@.len() == orig_p.len(),
            losses@.len() == j,
            before == ships_before_phase(orig_f, orig_p, system, target_nation, 2),
            rem_p == sat(damage - before),
            remaining == sat(damage - before - planet_ships(orig_p, j as int, system, target_nation)),
            forall|k: int| 0 <= k < orig_p.len() ==> #[trigger] planets@[k] == if k < j {
                planet_after(orig_f, orig_p, system, target_nation, damage, k)
            } else {
                orig_p[k]
            },
            forall|k: int| 0 <= k < j ==> #[trigger] losses@[k] == planet_loss(orig_f, orig_p, system, target_nation, damage, k),
            planets_total(orig_p) - planets_total(planets@) == rem_p - remaining,
            !defeated ==> remaining == 0,
            remaining <= rem_p,
        decreases planets@.len() - j,
    {
        let p = planets[j];
        let ghost prev = planets@;
        if p.system == system && p.nation == target_nation {
            if p.ships > 0 {
                let dmg = if remaining < p.ships { remaining } else { p.ships };
                planets.set(j, CombatPlanet { ships: p.ships - dmg, ..p });
                remaining = remaining - dmg;
                losses.push(dmg);
                proof {
                    lemma_planets_total_update(prev, j as int, CombatPlanet { ships: (p.ships - dmg) as u32, ..p });
                }
            } else {
                losses.push(0);
            }
            if planets[j].ships > 0 {
                defeated = false;
            }
        } else {
            losses.push(0);
        }
        proof {
            assert(planets@[j as int] == planet_after(orig_f, orig_p, system, target_nation, damage, j as int));
        }
        j = j + 1;
    }
    damage_fleet_phase(fleets, system, target_nation, 3, &mut remaining, Ghost(orig_f), Ghost(orig_p), Ghost(damage));
    proof {
        assert forall|k: int| 0 <= k < orig_f.len() implies #[trigger] fleets@[k] == fleet_after(
            orig_f, orig_p, system, target_nation, damage, k) by {
            assert(fleet_phase(orig_f[k].stance) <= 3);
        }
    }
    let mut occupied: Vec<usize> = Vec::new();
    proof {
        assert forall|k: int| 0 <= k < orig_p.len() implies #[trigger] planets@[k].system == orig_p[k].system
            && planets@[k].nation == orig_p[k].nation && planets@[k].occupied_by == orig_p[k].occupied_by by {
            assert(planets@[k] == planet_after(orig_f, orig_p, system, target_nation, damage, k));
        }
    }
    if defeated && remaining > 0 {
        let mut m: usize = 0;
        while m < planets.len()
            invariant
                0 <= m <= planets@.len(),
                planets@.len() == orig_p.len(),
                forall|x: usize| #[trigger] occupied@.contains(x) <==> {
                    &&& x < m
                    &&& planet_targeted(orig_p[x as int], system, target_nation)
                    &&& orig_p[x as int].occupied_by != Some(attacker_nation)
                },
                forall|a: int, b: int| 0 <= a < b < occupied@.len() ==> occupied@[a] < occupied@[b],
                forall|a: int| 0 <= a < occupied@.len() ==> occupied@[a] < m,
                forall|k: int| 0 <= k < orig_p.len() ==> #[trigger] planets@[k].system == orig_p[k].system
                    && planets@[k].nation == orig_p[k].nation && planets@[k].occupied_by == orig_p[k].occupied_by,
            decreases planets@.len() - m,
        {
            let p = planets[m];
            assert(p.system == orig_p[m as int].system && p.nation == orig_p[m as int].nation
                && p.occupied_by == orig_p[m as int].occupied_by);
            let ghost old_occ = occupied@;
            let not_ours = match p.occupied_by {
                Some(o) => o != attacker_nation,
                None => true,
            };
            assert(not_ours == (orig_p[m as int].occupied_by != Some(attacker_nation)));
            if p.system == system && p.nation == target_nation && not_ours {
                occupied.push(m);
                assert(occupied@ == old_occ.push(m));
            } else {
                assert(occupied@ == old_occ);
            }
            proof {
                assert forall|x: usize| #[trigger] occupied@.contains(x) <==> {
                    &&& x < m + 1
                    &&& planet_targeted(orig_p[x as int], system, target_nation)
                    &&& orig_p[x as int].occupied_by != Some(attacker_nation)
                } by {
                    if occupied@.contains(x) {
                        let i = choose|i: int| 0 <= i < occupied@.len() && occupied@[i] == x;
                        if i < old_occ.len() {
                            assert(old_occ[i] == x);
                            assert(old_occ.contains(x));
                        }
                    }
                    if old_occ.contains(x) {
                        let i = choose|i: int| 0 <= i < old_occ.len() && old_occ[i] == x;
                        assert(occupied@[i] == x);
                    }
                    if x == m && planet_targeted(orig_p[x as int], system, target_nation)
                        && orig_p[x as int].occupied_by != Some(attacker_nation) {
                        assert(occupied@[occupied@.len() - 1] == x);
                    }
                }
            }
            m = m + 1;
        }
    }
    proof {
        assert(ships_before_phase(orig_f, orig_p, system, target_nation, 3) == before + planet_ships(orig_p, orig_p.len() as int, system, target_nation));
    }
    proof {
        if remaining > 0 {
            assert(defeated);
        }
        if !(defeated && remaining > 0) {
            assert forall|x: usize| !#[trigger] occupied@.contains(x) by {}
        }
    }
    DamageReport { remaining, planet_losses: losses, occupied }
}


/// Every planet of `system` belongs to `occupier` or is occupied by it.
pub open spec fn spec_fully_occupied_by(planets: Seq<CombatPlanet>, system: u64, occupier: u64) -> bool {
    forall|j: int| 0 <= j < planets.len() && #[trigger] planets[j].system == system && planets[j].nation != occupier
        ==> planets[j].occupied_by == Some(occupier)
}

/// Whether `occupier` owns or occupies every planet of `system`.
pub fn system_is_fully_occupied_by(planets: &Vec<CombatPlanet>, system: u64, occupier: u64) -> (r: bool)
    ensures
        r == spec_fully_occupied_by(planets@, system, occupier),
{
    let mut j: usize = 0;
    while j < planets.len()
        invariant
            0 <= j <= planets@.len(),
            forall|k: int| 0 <= k < j && #[trigger] planets@[k].system == system && planets@[k].nation != occupier
                ==> planets@[k].occupied_by == Some(occupier),
        decreases planets@.len() - j,
    {
        let p = planets[j];
        if p.system == system && p.nation != occupier {
            match p.occupied_by {
                Some(o) => {
                    if o != occupier {
                        return false;
                    }
                },
                None => {
                    return false;
                },
            }
        }
        j = j + 1;
    }
    true
}

/// A battle is resolved once one of the nations present holds the whole system.
pub fn battle_status(planets: &Vec<CombatPlanet>, system: u64, nations_present: &Vec<u64>) -> (s: BattleStatus)
    ensures
        s == if exists|i: int| 0 <= i < nations_present@.len() && spec_fully_occupied_by(planets@, system, #[trigger] nations_present@[i]) {
            BattleStatus::Resolved
        } else {
            BattleStatus::Active
        },
{
    let mut i: usize = 0;
    while i < nations_present.len()
        invariant
            0 <= i <= nations_present@.len(),
            forall|k: int| 0 <= k < i ==> !spec_fully_occupied_by(planets@, system, #[trigger] nations_present@[k]),
        decreases nations_present@.len() - i,
    {
        if system_is_fully_occupied_by(planets, system, nations_present[i]) {
            return BattleStatus::Resolved;
        }
        i = i + 1;
    }
    BattleStatus::Active
}

/// Ticks after which a war ends in a ceasefire.
pub const CEASEFIRE_AFTER_TICKS: u64 = 15;

/// Ticks that a truce lasts after a ceasefire.
pub const TRUCE_DURATION: u64 = 50;

/// How a war stands this tick.
#[derive(Debug, Clone, Copy, PartialEq, Eq, Structural)]
pub enum WarEnd {
    /// The war has lasted long enough: a ceasefire, and a truce until `truce_expiration`.
    Ceasefire { duration: u64, truce_expiration: u64 },
    /// The nation's home garrison is gone and it has no fleet left: it surrenders.
    Surrender,
    /// The war goes on.
    Continue,
}

/// Decide whether a war ends this tick: after 15 ticks (counted from
/// `started_at`, never negative) it ends in a ceasefire with a 50-tick truce;
/// otherwise a nation whose home planet has neither ships nor power left and
/// that has no fleet surrenders.
pub fn war_end(tick: u64, started_at: u64, home_defeated: bool, has_fleet: bool) -> (e: WarEnd)
    requires
        tick >= started_at + CEASEFIRE_AFTER_TICKS ==> tick <= u64::MAX - TRUCE_DURATION,
    ensures
        ({
            let duration = if tick >= started_at { tick - started_at } else { 0 };
            e == if duration >= CEASEFIRE_AFTER_TICKS {
                WarEnd::Ceasefire { duration: duration as u64, truce_expiration: (tick + TRUCE_DURATION) as u64 }
            } else if home_defeated && !has_fleet {
                WarEnd::Surrender
            } else {
                WarEnd::Continue
            }
        }),
{
    let duration = tick.saturating_sub(started_at);
    if duration >= CEASEFIRE_AFTER_TICKS {
        return WarEnd::Ceasefire { duration, truce_expiration: tick + TRUCE_DURATION };
    }
    if home_defeated && !has_fleet {
        return WarEnd::Surrender;
    }
    WarEnd::Continue
}

/// A diplomatic relation as the war trigger sees it.
#[derive(Debug, Clone, Copy, PartialEq, Eq, Structural)]
pub struct RelationState {
    pub owner: u64,
    pub target: u64,
    /// Tick at which a truce between the two ends, if there is one.
    pub truce_expiration: Option<u64>,
    /// The relation score has fallen to -50 or below.
    pub hostile: bool,
}

/// An ongoing war of some nation, as the war trigger sees it.
#[derive(Debug, Clone, Copy, PartialEq, Eq, Structural)]
pub struct WarState {
    pub enemy_nation: u64,
    pub own_planet: u64,
}

/// A war already involves the relation's two nations: some war is fought
/// against its target from a real home planet, or against its owner.
pub open spec fn already_at_war(r: RelationState, wars: Seq<WarState>, placeholder: u64) -> bool {
    exists|i: int| 0 <= i < wars.len() && ((#[trigger] wars[i].enemy_nation == r.target && wars[i].own_planet != placeholder)
        || wars[i].enemy_nation == r.owner)
}

/// The relation leads to a war: no truce in force, a hostile score, and no war already.
pub open spec fn triggers_war(tick: u64, r: RelationState, wars: Seq<WarState>, placeholder: u64) -> bool {
    &&& !(r.truce_expiration matches Some(e) && tick < e)
    &&& r.hostile
    &&& !already_at_war(r, wars, placeholder)
}

/// Indices (ascending) of the relations that lead to a declaration of war this tick.
pub fn war_candidates(tick: u64, relations: &Vec<RelationState>, wars: &Vec<WarState>, placeholder: u64) -> (c: Vec<usize>)
    ensures
        forall|x: usize| #[trigger] c@.contains(x) <==> x < relations@.len() && triggers_war(tick, relations@[x as int], wars@, placeholder),
        forall|a: int, b: int| 0 <= a < b < c@.len() ==> c@[a] < c@[b],
{
    let mut c: Vec<usize> = Vec::new();
    let mut i: usize = 0;
    while i < relations.len()
        invariant
            0 <= i <= relations@.len(),
            forall|x: usize| #[trigger] c@.contains(x) <==> x < i && triggers_war(tick, relations@[x as int], wars@, placeholder),
            forall|a: int, b: int| 0 <= a < b < c@.len() ==> c@[a] < c@[b],
            forall|a: int| 0 <= a < c@.len() ==> c@[a] < i,
        decreases relations@.len() - i,
    {
        let r = relations[i];
        let ghost old_c = c@;
        let in_truce = match r.truce_expiration {
            Some(e) => tick < e,
            None => false,
        };
        let mut at_war = false;
        let mut k: usize = 0;
        while k < wars.len()
            invariant
                0 <= k <= wars@.len(),
                at_war == exists|m: int| 0 <= m < k && ((#[trigger] wars@[m].enemy_nation == r.target
                    && wars@[m].own_planet != placeholder) || wars@[m].enemy_nation == r.owner),
            decreases wars@.len() - k,
        {
            let w = wars[k];
            if (w.enemy_nation == r.target && w.own_planet != placeholder) || w.enemy_nation == r.owner {
                at_war = true;
            }
            k = k + 1;
        }
        if !in_truce && r.hostile && !at_war {
            c.push(i);
            assert(c@ == old_c.push(i));
        } else {
            assert(c@ == old_c);
        }
        proof {
            assert(triggers_war(tick, relations@[i as int], wars@, placeholder) == (!in_truce && r.hostile && !at_war));
            assert forall|x: usize| #[trigger] c@.contains(x) <==> x < i + 1 && triggers_war(tick, relations@[x as int], wars@, placeholder) by {
                if c@.contains(x) {
                    let j = choose|j: int| 0 <= j < c@.len() && c@[j] == x;
                    if j < old_c.len() {
                        assert(old_c[j] == x);
                        assert(old_c.contains(x));
                    }
                }
                if old_c.contains(x) {
                    let j = choose|j: int| 0 <= j < old_c.len() && old_c[j] == x;
                    assert(c@[j] == x);
                }
                if x == i && triggers_war(tick, relations@[x as int], wars@, placeholder) {
                    assert(c@[c@.len() - 1] == x);
                }
            }
        }
        i = i + 1;
    }
    c
}

/// Garrison size at or below which a planet sends no fleet.
pub const MIN_GARRISON: u32 = 20;

/// Ships a planet with `ships` in its garrison sends: half of them, rounded
/// down.
pub open spec fn spec_fleet_size(ships: u32) -> u32 {
    ships / 2
}

/// A planet's garrison as the war planner sees it.
#[derive(Debug, Clone, Copy, PartialEq, Eq, Structural)]
pub struct Garrison {
    pub nation: u64,
    pub ships: u32,
}

/// Where a fleet of some nation is.
#[derive(Debug, Clone, Copy, PartialEq, Eq, Structural)]
pub struct FleetPosition {
    pub nation: u64,
    pub system: u64,
}

/// A planet of `nation` can send a fleet: its garrison exceeds 20 ships.
pub open spec fn can_send(g: Garrison, nation: u64) -> bool {
    g.nation == nation && g.ships > MIN_GARRISON
}

/// Plan a fleet for a nation at war: unless it already has a fleet in the
/// enemy's system, the first of its planets with the most ships, among those
/// with more than 20, sends half its garrison (rounded down). Returns that planet's index and the number of ships sent.
pub fn plan_fleet_dispatch(
    nation: u64,
    target_system: u64,
    fleets: &Vec<FleetPosition>,
    planets: &Vec<Garrison>,
) -> (plan: Option<(usize, u32)>)
    ensures
        (exists|f: int| 0 <= f < fleets@.len() && #[trigger] fleets@[f] == (FleetPosition { nation, system: target_system }))
            ==> plan is None,
        (forall|f: int| 0 <= f < fleets@.len() ==> #[trigger] fleets@[f] != (FleetPosition { nation, system: target_system }))
            ==> (plan is None <==> forall|j: int| 0 <= j < planets@.len() ==> !can_send(#[trigger] planets@[j], nation)),
        plan matches Some((i, sent)) ==> {
            &&& i < planets@.len()
            &&& can_send(planets@[i as int], nation)
            &&& forall|j: int| 0 <= j < planets@.len() && can_send(#[trigger] planets@[j], nation) ==> planets@[j].ships <= planets@[i as int].ships
            &&& forall|j: int| 0 <= j < i && can_send(#[trigger] planets@[j], nation) ==> planets@[j].ships < planets@[i as int].ships
            &&& sent == spec_fleet_size(planets@[i as int].ships)
        },
{
    let mut f: usize = 0;
    while f < fleets.len()
        invariant
            0 <= f <= fleets@.len(),
            forall|k: int| 0 <= k < f ==> #[trigger] fleets@[k] != (FleetPosition { nation, system: target_system }),
        decreases fleets@.len() - f,
    {
        if fleets[f].nation == nation && fleets[f].system == target_system {
            return None;
        }
        f = f + 1;
    }
    let mut best: Option<usize> = None;
    let mut max_ships: u32 = 0;
    let mut j: usize = 0;
    while j < planets.len()
        invariant
            0 <= j <= planets@.len(),
            best is None ==> max_ships == 0 && forall|k: int| 0 <= k < j ==> !can_send(#[trigger] planets@[k], nation),
            best matches Some(b) ==> {
                &&& b < j
                &&& can_send(planets@[b as int], nation)
                &&& max_ships == planets@[b as int].ships
                &&& forall|k: int| 0 <= k < j && can_send(#[trigger] planets@[k], nation) ==> planets@[k].ships <= max_ships
                &&& forall|k: int| 0 <= k < b && can_send(#[trigger] planets@[k], nation) ==> planets@[k].ships < max_ships
            },
        decreases planets@.len() - j,
    {
        let g = planets[j];
        if g.nation == nation && g.ships > MIN_GARRISON {
            if g.ships > max_ships {
                max_ships = g.ships;
                best = Some(j);
            }
        }
        j = j + 1;
    }
    match best {
        Some(b) => {
            Some((b, planets[b].ships / 2))
        },
        None => None,
    }
}


proof fn lemma_fleet_phase_ships_mono(fleets: Seq<CombatFleet>, a: int, b: int, system: u64, nation: u64, phase: int)
    requires
        0 <= a <= b <= fleets.len(),
    ensures
        0 <= fleet_phase_ships(fleets, a, system, nation, phase) <= fleet_phase_ships(fleets, b, system, nation, phase),
    decreases b,
{
    if a < b {
        lemma_fleet_phase_ships_mono(fleets, a, b - 1, system, nation, phase);
    } else if a > 0 {
        lemma_fleet_phase_ships_mono(fleets, a - 1, a - 1, system, nation, phase);
    }
}

proof fn lemma_planet_ships_mono(planets: Seq<CombatPlanet>, a: int, b: int, system: u64, nation: u64)
    requires
        0 <= a <= b <= planets.len(),
    ensures
        0 <= planet_ships(planets, a, system, nation) <= planet_ships(planets, b, system, nation),
    decreases b,
{
    if a < b {
        lemma_planet_ships_mono(planets, a, b - 1, system, nation);
    } else if a > 0 {
        lemma_planet_ships_mono(planets, a - 1, a - 1, system, nation);
    }
}

/// Damage beyond every ship the target has in the system destroys all of
/// them: each targeted fleet and garrison loses all its ships. (Only then does
/// damage remain for the attacker to occupy planets.)
pub proof fn lemma_overwhelming_damage_destroys_all(
    fleets: Seq<CombatFleet>,
    planets: Seq<CombatPlanet>,
    system: u64,
    nation: u64,
    damage: int,
)
    requires
        damage > targeted_ships(fleets, planets, system, nation),
    ensures
        forall|k: int| 0 <= k < fleets.len() && fleet_targeted(fleets[k], system, nation)
            ==> #[trigger] fleet_loss(fleets, planets, system, nation, damage, k) == fleets[k].ships,
        forall|j: int| 0 <= j < planets.len() && planet_targeted(planets[j], system, nation)
            ==> #[trigger] planet_loss(fleets, planets, system, nation, damage, j) == planets[j].ships,
{
    let n = fleets.len() as int;
    lemma_fleet_phase_ships_mono(fleets, 0, n, system, nation, 0);
    lemma_fleet_phase_ships_mono(fleets, 0, n, system, nation, 1);
    lemma_fleet_phase_ships_mono(fleets, 0, n, system, nation, 3);
    lemma_planet_ships_mono(planets, 0, planets.len() as int, system, nation);
    assert forall|k: int| 0 <= k < fleets.len() && fleet_targeted(fleets[k], system, nation)
        implies #[trigger] fleet_loss(fleets, planets, system, nation, damage, k) == fleets[k].ships by {
        let p = fleet_phase(fleets[k].stance);
        lemma_fleet_phase_ships_mono(fleets, k + 1, n, system, nation, p);
        assert(fleet_phase_ships(fleets, k + 1, system, nation, p) == fleet_phase_ships(fleets, k, system, nation, p) + fleets[k].ships);
    }
    assert forall|j: int| 0 <= j < planets.len() && planet_targeted(planets[j], system, nation)
        implies #[trigger] planet_loss(fleets, planets, system, nation, damage, j) == planets[j].ships by {
        lemma_planet_ships_mono(planets, j + 1, planets.len() as int, system, nation);
    }
}

/// No war is declared over a relation while its truce is in force.
pub proof fn lemma_truce_blocks_war(tick: u64, r: RelationState, wars: Seq<WarState>, placeholder: u64)
    requires
        r.truce_expiration matches Some(e) && tick < e,
    ensures
        !triggers_war(tick, r, wars, placeholder),
{
}

/// A planet that sends a fleet sends at least ten ships and keeps at least as
/// many as it sends; once its garrison has 40 ships or more, at least 20 stay
/// at home.
pub proof fn lemma_dispatch_leaves_garrison(g: Garrison, nation: u64)
    requires
        can_send(g, nation),
    ensures
        spec_fleet_size(g.ships) >= 10,
        g.ships - spec_fleet_size(g.ships) >= spec_fleet_size(g.ships),
        g.ships >= 2 * MIN_GARRISON ==> g.ships - spec_fleet_size(g.ships) >= MIN_GARRISON,
{
}

} // verus!

verus! {

proof fn lemma_fleet_phase_ships_step(fleets: Seq<CombatFleet>, i: int, system: u64, nation: u64, phase: int)
    requires
        0 <= i < fleets.len(),
        fleet_targeted(fleets[i], system, nation),
        fleet_phase(fleets[i].stance) == phase,
    ensures
        fleet_phase_ships(fleets, i + 1, system, nation, phase) == fleet_phase_ships(fleets, i, system, nation, phase)
            + fleets[i].ships,
{
}

/// Targeted ships that damage reaches before unit `i` of phase `phase` plus
/// that unit's own ships are all reached before phase `later` starts.
proof fn lemma_phase_exhausted_before(
    fleets: Seq<CombatFleet>,
    planets: Seq<CombatPlanet>,
    system: u64,
    nation: u64,
    i: int,
    phase: int,
    later: int,
)
    requires
        0 <= i < fleets.len(),
        fleet_targeted(fleets[i], system, nation),
        fleet_phase(fleets[i].stance) == phase,
        phase < later <= 3,
    ensures
        ships_before_phase(fleets, planets, system, nation, phase) + fleet_phase_ships(fleets, i, system, nation, phase)
            + fleets[i].ships <= ships_before_phase(fleets, planets, system, nation, later),
{
    let n = fleets.len() as int;
    lemma_fleet_phase_ships_step(fleets, i, system, nation, phase);
    lemma_fleet_phase_ships_mono(fleets, i + 1, n, system, nation, phase);
    lemma_fleet_phase_ships_mono(fleets, 0, n, system, nation, 0);
    lemma_fleet_phase_ships_mono(fleets, 0, n, system, nation, 1);
    lemma_planet_ships_mono(planets, 0, planets.len() as int, system, nation);
}

/// Once a unit of a later phase, or a later unit of the same phase, has lost
/// ships, fleet `i` has lost all of its ships.
proof fn lemma_fleet_exhausted(
    fleets: Seq<CombatFleet>,
    planets: Seq<CombatPlanet>,
    system: u64,
    nation: u64,
    damage: int,
    i: int,
    reached: int,
)
    requires
        0 <= i < fleets.len(),
        fleet_targeted(fleets[i], system, nation),
        damage > reached,
        reached >= ships_before_phase(fleets, planets, system, nation, fleet_phase(fleets[i].stance))
            + fleet_phase_ships(fleets, i, system, nation, fleet_phase(fleets[i].stance)) + fleets[i].ships,
    ensures
        fleet_loss(fleets, planets, system, nation, damage, i) == fleets[i].ships,
{
}

/// Damage reaches a nation's fleets in a system by stance: every defensive
/// fleet is wiped out before any other fleet loses a ship; active, aggressive
/// and stance-less fleets form one group, hit in list order, so one of them
/// loses ships only once each of them listed before it has lost all of its
/// ships; passive fleets lose ships only after every other fleet has lost all
/// of its ships.
pub proof fn lemma_damage_reaches_fleets_by_stance(
    fleets: Seq<CombatFleet>,
    planets: Seq<CombatPlanet>,
    system: u64,
    nation: u64,
    damage: int,
    i: int,
    k: int,
)
    requires
        0 <= i < fleets.len(),
        0 <= k < fleets.len(),
        fleet_targeted(fleets[i], system, nation),
        fleet_targeted(fleets[k], system, nation),
        fleet_loss(fleets, planets, system, nation, damage, k) > 0,
    ensures
        fleets[i].stance == Some(FleetStance::Defensive) && fleets[k].stance != Some(FleetStance::Defensive)
            ==> fleet_loss(fleets, planets, system, nation, damage, i) == fleets[i].ships,
        ({
            let grouped = |s: Option<FleetStance>|
                s == Some(FleetStance::Active) || s == Some(FleetStance::Aggressive) || s is None;
            grouped(fleets[i].stance) && grouped(fleets[k].stance) && i < k
                ==> fleet_loss(fleets, planets, system, nation, damage, i) == fleets[i].ships
        }),
        fleets[k].stance == Some(FleetStance::Passive) && fleets[i].stance != Some(FleetStance::Passive)
            ==> fleet_loss(fleets, planets, system, nation, damage, i) == fleets[i].ships,
{
    let pi = fleet_phase(fleets[i].stance);
    let pk = fleet_phase(fleets[k].stance);
    let reached = ships_before_phase(fleets, planets, system, nation, pk) + fleet_phase_ships(fleets, k, system, nation, pk);
    assert(damage > reached);
    lemma_fleet_phase_ships_mono(fleets, 0, k, system, nation, pk);
    if pi < pk {
        lemma_phase_exhausted_before(fleets, planets, system, nation, i, pi, pk);
        lemma_fleet_exhausted(fleets, planets, system, nation, damage, i, reached);
    } else if pi == pk && i < k {
        lemma_fleet_phase_ships_step(fleets, i, system, nation, pi);
        lemma_fleet_phase_ships_mono(fleets, i + 1, k, system, nation, pi);
        lemma_fleet_exhausted(fleets, planets, system, nation, damage, i, reached);
    }
}

/// Damage reaches the planets' garrisons after every defensive, active,
/// aggressive and stance-less fleet of the nation in the system has lost all
/// of its ships, and passive fleets only after every garrison there has lost
/// all of its ships.
pub proof fn lemma_garrisons_between_fleet_groups(
    fleets: Seq<CombatFleet>,
    planets: Seq<CombatPlanet>,
    system: u64,
    nation: u64,
    damage: int,
    i: int,
    j: int,
)
    requires
        0 <= i < fleets.len(),
        0 <= j < planets.len(),
        fleet_targeted(fleets[i], system, nation),
        planet_targeted(planets[j], system, nation),
    ensures
        planet_loss(fleets, planets, system, nation, damage, j) > 0 && fleets[i].stance != Some(FleetStance::Passive)
            ==> fleet_loss(fleets, planets, system, nation, damage, i) == fleets[i].ships,
        fleet_loss(fleets, planets, system, nation, damage, i) > 0 && fleets[i].stance == Some(FleetStance::Passive)
            ==> planet_loss(fleets, planets, system, nation, damage, j) == planets[j].ships,
{
    let pi = fleet_phase(fleets[i].stance);
    if planet_loss(fleets, planets, system, nation, damage, j) > 0 && fleets[i].stance != Some(FleetStance::Passive) {
        lemma_planet_ships_mono(planets, 0, j, system, nation);
        lemma_phase_exhausted_before(fleets, planets, system, nation, i, pi, 2);
        lemma_fleet_exhausted(fleets, planets, system, nation, damage, i,
            ships_before_phase(fleets, planets, system, nation, 2) + planet_ships(planets, j, system, nation));
    }
    if fleet_loss(fleets, planets, system, nation, damage, i) > 0 && fleets[i].stance == Some(FleetStance::Passive) {
        lemma_fleet_phase_ships_mono(fleets, 0, i, system, nation, 3);
        lemma_planet_ships_mono(planets, j + 1, planets.len() as int, system, nation);
        assert(planet_ships(planets, j + 1, system, nation) == planet_ships(planets, j, system, nation) + planets[j].ships);
    }
}

} // verus!
