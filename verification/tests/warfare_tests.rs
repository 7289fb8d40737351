use deep_juno::warfare::{
    apply_damage_to_system, battle_status, plan_fleet_dispatch, stance_power_pct, system_is_fully_occupied_by,
    war_candidates, war_end, BattleStatus, CombatFleet, CombatPlanet, FleetPosition, FleetStance, Garrison,
    RelationState, WarEnd, WarState,
};

const SYS: u64 = 1;
const OTHER_SYS: u64 = 2;
const A: u64 = 10;
const B: u64 = 20;

fn fleet(system: u64, nation: u64, ships: u32, stance: Option<FleetStance>) -> CombatFleet {
    CombatFleet { system, nation, ships, stance }
}

fn planet(system: u64, nation: u64, ships: u32) -> CombatPlanet {
    CombatPlanet { system, nation, ships, occupied_by: None }
}

#[test]
fn defensive_fleets_shield_and_passive_fleets_are_hit_last() {
    let mut fleets = vec![
        fleet(SYS, B, 5, Some(FleetStance::Passive)),
        fleet(SYS, B, 4, None),
        fleet(SYS, B, 3, Some(FleetStance::Defensive)),
        fleet(OTHER_SYS, B, 9, Some(FleetStance::Defensive)),
        fleet(SYS, A, 9, Some(FleetStance::Defensive)),
    ];
    let mut planets = vec![planet(SYS, B, 6)];
    let r = apply_damage_to_system(&mut fleets, &mut planets, SYS, B, 10, A);
    assert_eq!(fleets[2].ships, 0); // defensive first
    assert_eq!(fleets[1].ships, 0); // then the stance-less fleet
    assert_eq!(planets[0].ships, 3); // then the garrison
    assert_eq!(fleets[0].ships, 5); // passive untouched
    assert_eq!(fleets[3].ships, 9); // another system
    assert_eq!(fleets[4].ships, 9); // the attacker
    assert_eq!(r.remaining, 0);
    assert_eq!(r.planet_losses, vec![3]);
    assert!(r.occupied.is_empty());
}

#[test]
fn overwhelming_damage_destroys_all_and_occupies() {
    let mut fleets = vec![fleet(SYS, B, 2, Some(FleetStance::Passive)), fleet(SYS, B, 1, Some(FleetStance::Aggressive))];
    let mut planets = vec![
        planet(SYS, B, 3),
        CombatPlanet { system: SYS, nation: B, ships: 0, occupied_by: Some(A) },
        planet(SYS, A, 7),
        planet(OTHER_SYS, B, 4),
    ];
    let r = apply_damage_to_system(&mut fleets, &mut planets, SYS, B, 10, A);
    assert_eq!(fleets[0].ships, 0);
    assert_eq!(fleets[1].ships, 0);
    assert_eq!(planets[0].ships, 0);
    assert_eq!(planets[2].ships, 7);
    assert_eq!(planets[3].ships, 4);
    assert_eq!(r.remaining, 4);
    assert_eq!(r.planet_losses, vec![3, 0, 0, 0]);
    // The planet already held by A is not occupied again.
    assert_eq!(r.occupied, vec![0]);
}

#[test]
fn damage_equal_to_the_defence_occupies_nothing() {
    let mut fleets = vec![];
    let mut planets = vec![planet(SYS, B, 5)];
    let r = apply_damage_to_system(&mut fleets, &mut planets, SYS, B, 5, A);
    assert_eq!(planets[0].ships, 0);
    assert_eq!(r.remaining, 0);
    assert!(r.occupied.is_empty());
}

#[test]
fn zero_damage_changes_nothing() {
    let mut fleets = vec![fleet(SYS, B, 2, None)];
    let mut planets = vec![planet(SYS, B, 3)];
    let r = apply_damage_to_system(&mut fleets, &mut planets, SYS, B, 0, A);
    assert_eq!(fleets[0].ships, 2);
    assert_eq!(planets[0].ships, 3);
    assert_eq!(r.remaining, 0);
    assert_eq!(r.planet_losses, vec![0]);
}

#[test]
fn ships_lost_equal_the_damage_absorbed() {
    let mut fleets = vec![fleet(SYS, B, 4, Some(FleetStance::Defensive)), fleet(SYS, B, 4, Some(FleetStance::Passive))];
    let mut planets = vec![planet(SYS, B, 4), planet(SYS, B, 4)];
    let before: u32 = fleets.iter().map(|f| f.ships).sum::<u32>() + planets.iter().map(|p| p.ships).sum::<u32>();
    let r = apply_damage_to_system(&mut fleets, &mut planets, SYS, B, 11, A);
    let after: u32 = fleets.iter().map(|f| f.ships).sum::<u32>() + planets.iter().map(|p| p.ships).sum::<u32>();
    assert_eq!(before - after, 11 - r.remaining);
    assert_eq!(r.planet_losses, vec![4, 3]);
    assert_eq!(fleets[1].ships, 4);
}

#[test]
fn stance_powers() {
    assert_eq!(stance_power_pct(Some(FleetStance::Aggressive)), 120);
    assert_eq!(stance_power_pct(Some(FleetStance::Defensive)), 80);
    assert_eq!(stance_power_pct(Some(FleetStance::Passive)), 10);
    assert_eq!(stance_power_pct(Some(FleetStance::Active)), 100);
    assert_eq!(stance_power_pct(None), 100);
    assert_eq!(FleetStance::default(), FleetStance::Active);
}

#[test]
fn occupation_and_battle_status() {
    let planets = vec![
        planet(SYS, A, 1),
        CombatPlanet { system: SYS, nation: B, ships: 0, occupied_by: Some(A) },
        planet(OTHER_SYS, B, 1),
    ];
    assert!(system_is_fully_occupied_by(&planets, SYS, A));
    assert!(!system_is_fully_occupied_by(&planets, SYS, B));
    assert!(!system_is_fully_occupied_by(&planets, OTHER_SYS, A));
    assert_eq!(battle_status(&planets, SYS, &vec![B, A]), BattleStatus::Resolved);
    assert_eq!(battle_status(&planets, OTHER_SYS, &vec![A]), BattleStatus::Active);
    assert_eq!(battle_status(&planets, SYS, &vec![]), BattleStatus::Active);
}

#[test]
fn wars_end_in_ceasefire_or_surrender() {
    assert_eq!(war_end(25, 10, false, false), WarEnd::Ceasefire { duration: 15, truce_expiration: 75 });
    assert_eq!(war_end(24, 10, true, false), WarEnd::Surrender);
    assert_eq!(war_end(24, 10, true, true), WarEnd::Continue);
    assert_eq!(war_end(24, 10, false, false), WarEnd::Continue);
    // A war that starts after the current tick has lasted 0 ticks.
    assert_eq!(war_end(5, 30, false, false), WarEnd::Continue);
}

#[test]
fn wars_start_from_hostile_relations_without_truce_or_war() {
    let placeholder = u64::MAX;
    let rels = vec![
        RelationState { owner: A, target: B, truce_expiration: None, hostile: true },
        RelationState { owner: A, target: B, truce_expiration: Some(100), hostile: true },
        RelationState { owner: A, target: B, truce_expiration: Some(50), hostile: true },
        RelationState { owner: A, target: B, truce_expiration: None, hostile: false },
        RelationState { owner: 30, target: 40, truce_expiration: None, hostile: true },
    ];
    assert_eq!(war_candidates(50, &rels, &vec![], placeholder), vec![0, 2, 4]);
    let wars = vec![WarState { enemy_nation: B, own_planet: 7 }];
    assert_eq!(war_candidates(50, &rels, &wars, placeholder), vec![4]);
    let wars = vec![WarState { enemy_nation: B, own_planet: placeholder }];
    assert_eq!(war_candidates(50, &rels, &wars, placeholder), vec![0, 2, 4]);
    let wars = vec![WarState { enemy_nation: 30, own_planet: placeholder }];
    assert_eq!(war_candidates(50, &rels, &wars, placeholder), vec![0, 2]);
}

#[test]
fn fleets_come_from_the_strongest_garrison() {
    let planets = vec![
        Garrison { nation: A, ships: 30 },
        Garrison { nation: B, ships: 90 },
        Garrison { nation: A, ships: 41 },
        Garrison { nation: A, ships: 41 },
        Garrison { nation: A, ships: 20 },
    ];
    assert_eq!(plan_fleet_dispatch(A, SYS, &vec![], &planets), Some((2, 20)));
    let fleets = vec![FleetPosition { nation: A, system: SYS }];
    assert_eq!(plan_fleet_dispatch(A, SYS, &fleets, &planets), None);
    assert_eq!(plan_fleet_dispatch(A, OTHER_SYS, &fleets, &planets), Some((2, 20)));
    assert_eq!(plan_fleet_dispatch(A, SYS, &vec![], &vec![Garrison { nation: A, ships: 20 }]), None);
}

#[test]
fn a_dispatching_planet_sends_half_its_garrison() {
    assert_eq!(plan_fleet_dispatch(A, SYS, &vec![], &vec![Garrison { nation: A, ships: 21 }]), Some((0, 10)));
    assert_eq!(plan_fleet_dispatch(A, SYS, &vec![], &vec![Garrison { nation: A, ships: 30 }]), Some((0, 15)));
    assert_eq!(plan_fleet_dispatch(A, SYS, &vec![], &vec![Garrison { nation: A, ships: 33 }]), Some((0, 16)));
    assert_eq!(plan_fleet_dispatch(A, SYS, &vec![], &vec![Garrison { nation: A, ships: 40 }]), Some((0, 20)));
    assert_eq!(plan_fleet_dispatch(A, SYS, &vec![], &vec![Garrison { nation: A, ships: 41 }]), Some((0, 20)));
    assert_eq!(plan_fleet_dispatch(A, SYS, &vec![], &vec![Garrison { nation: A, ships: 100 }]), Some((0, 50)));
}
