use deep_juno::environment::AtmosphereType;
use deep_juno::events::{deterministic_hash, event_roll, EventKind, EventRoll};
use deep_juno::military::ships_to_build;
use deep_juno::national_ai::NationalTrait;
use deep_juno::population::next_starvation_ticks;
use deep_juno::simulation_event::{EventImportance, SimulationEventKind};
use deep_juno::snapshot::{AtmosphereTypeSnapshot, NationalIdentitySnapshot, NationalTraitSnapshot};
use deep_juno::terraforming::{atmosphere_after_phase, phase_to_work_on, progress_speed_factor, TerraformingPhase};
use deep_juno::tick::{advance_tick, CurrentTick, TickOutcome};

#[test]
fn phases_advance_in_order_and_stop_at_complete() {
    let mut p = TerraformingPhase::NotStarted;
    let expected = [
        TerraformingPhase::AtmosphericDensity,
        TerraformingPhase::TemperatureControl,
        TerraformingPhase::WaterManagement,
        TerraformingPhase::BiologicalSeeding,
        TerraformingPhase::Complete,
        TerraformingPhase::Complete,
    ];
    for e in expected {
        p = p.next();
        assert_eq!(p, e);
    }
}

#[test]
fn phase_descriptions() {
    assert_eq!(TerraformingPhase::NotStarted.description(), "未開始");
    assert_eq!(TerraformingPhase::WaterManagement.description(), "水の液化・配布");
    assert_eq!(TerraformingPhase::Complete.description(), "完了");
}

#[test]
fn finished_phases_improve_the_atmosphere() {
    assert_eq!(atmosphere_after_phase(TerraformingPhase::AtmosphericDensity, AtmosphereType::NoAtmosphere), AtmosphereType::Thin);
    assert_eq!(atmosphere_after_phase(TerraformingPhase::AtmosphericDensity, AtmosphereType::Toxic), AtmosphereType::Toxic);
    assert_eq!(atmosphere_after_phase(TerraformingPhase::TemperatureControl, AtmosphereType::CarbonDioxide), AtmosphereType::EarthLike);
    assert_eq!(atmosphere_after_phase(TerraformingPhase::TemperatureControl, AtmosphereType::Thin), AtmosphereType::Thin);
    assert_eq!(atmosphere_after_phase(TerraformingPhase::WaterManagement, AtmosphereType::Toxic), AtmosphereType::Toxic);
    assert_eq!(atmosphere_after_phase(TerraformingPhase::BiologicalSeeding, AtmosphereType::Toxic), AtmosphereType::EarthLike);
}

#[test]
fn terraforming_needs_environmental_technology() {
    assert_eq!(phase_to_work_on(TerraformingPhase::NotStarted, 4, 5), None);
    assert_eq!(phase_to_work_on(TerraformingPhase::NotStarted, 5, 5), Some(TerraformingPhase::AtmosphericDensity));
    assert_eq!(phase_to_work_on(TerraformingPhase::WaterManagement, 9, 5), Some(TerraformingPhase::WaterManagement));
    assert_eq!(phase_to_work_on(TerraformingPhase::Complete, 9, 5), None);
    assert_eq!(progress_speed_factor(0, true), 1);
    assert_eq!(progress_speed_factor(1, false), 1);
    assert_eq!(progress_speed_factor(1, true), 2);
    assert_eq!(progress_speed_factor(u32::MAX, true), 1 + u32::MAX as u64);
}

#[test]
fn deterministic_hash_known_values() {
    assert_eq!(deterministic_hash(0, 0, 0), 0);
    assert_eq!(deterministic_hash(42, 1, 0), 9617481708118717058);
    assert_eq!(deterministic_hash(42, 10, 3), 3583100352343634510);
    assert_eq!(deterministic_hash(1, 2, 3), 13504615378990979766);
    assert_eq!(deterministic_hash(42, 10, 3), deterministic_hash(42, 10, 3));
}

#[test]
fn event_roll_fires_on_multiples_of_twenty() {
    assert_eq!(event_roll(42, 1, 0), None);
    assert_eq!(
        event_roll(42, 4, 1),
        Some(EventRoll { selector: 9734131479010966, intensity_pct: 86 })
    );
    let roll = event_roll(0, 0, 0).unwrap();
    assert_eq!(roll, EventRoll { selector: 0, intensity_pct: 0 });
}

#[test]
fn every_event_kind_listed_once() {
    let all = EventKind::all();
    assert_eq!(all.len(), 12);
    assert_eq!(all[0], EventKind::Plague);
    assert_eq!(all[11], EventKind::EnvironmentalDisaster);
    for (i, a) in all.iter().enumerate() {
        for b in &all[i + 1..] {
            assert_ne!(a, b);
        }
    }
}

#[test]
fn importance_of_events() {
    assert_eq!(SimulationEventKind::ResourceReport.importance(), EventImportance::Low);
    assert_eq!(SimulationEventKind::TerraformingProgress.importance(), EventImportance::Low);
    assert_eq!(SimulationEventKind::RandomEvent.importance(), EventImportance::Medium);
    assert_eq!(SimulationEventKind::WarDeclared.importance(), EventImportance::High);
    assert!(EventImportance::Medium.passes(EventImportance::Low));
    assert!(EventImportance::Medium.passes(EventImportance::Medium));
    assert!(!EventImportance::Low.passes(EventImportance::Medium));
    assert!(EventImportance::High.passes(EventImportance::High));
    assert_eq!(EventImportance::default(), EventImportance::Low);
    assert!(EventImportance::Low < EventImportance::High);
}

#[test]
fn ticks_end_by_exit_or_halt() {
    let mut t = CurrentTick::default();
    assert_eq!(advance_tick(&mut t, 3, false), TickOutcome::Continue);
    assert_eq!(advance_tick(&mut t, 3, false), TickOutcome::Continue);
    assert_eq!(advance_tick(&mut t, 3, false), TickOutcome::Exit);
    assert_eq!(t.value, 3);
    let mut t = CurrentTick { value: 9 };
    assert_eq!(advance_tick(&mut t, 10, true), TickOutcome::Halt);
    assert_eq!(advance_tick(&mut t, 10, true), TickOutcome::Halt);
    assert_eq!(t.value, 11);
}

#[test]
fn scenario_values_convert() {
    assert_eq!(AtmosphereTypeSnapshot::NoAtmosphere.to_atmosphere(), AtmosphereType::NoAtmosphere);
    assert_eq!(AtmosphereTypeSnapshot::CarbonDioxide.to_atmosphere(), AtmosphereType::CarbonDioxide);
    let id = NationalIdentitySnapshot {
        traits: vec![NationalTraitSnapshot::Pacifist, NationalTraitSnapshot::Technocracy],
    };
    assert_eq!(id.to_identity().traits, vec![NationalTrait::Pacifist, NationalTrait::Technocracy]);
    assert!(NationalIdentitySnapshot { traits: vec![] }.to_identity().traits.is_empty());
}

#[test]
fn shipbuilding_and_starvation() {
    assert_eq!(ships_to_build(5, 7), 2);
    assert_eq!(ships_to_build(1, 7), 1);
    assert_eq!(ships_to_build(9, 0), 0);
    assert_eq!(next_starvation_ticks(0, true), 1);
    assert_eq!(next_starvation_ticks(4, false), 3);
    assert_eq!(next_starvation_ticks(0, false), 0);
}
