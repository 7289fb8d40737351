use deep_juno::technology::{
    tech_from_slot, tech_slot, TechDefinition, TechEffect, TechId, TechnologyState, UnlockableFeature,
};

fn def_of(id: TechId) -> TechDefinition {
    TechDefinition::all().into_iter().find(|d| d.id == id).unwrap()
}

#[test]
fn catalogue_has_every_technology_once_in_slot_order() {
    let defs = TechDefinition::all();
    assert_eq!(defs.len(), 18);
    for (i, d) in defs.iter().enumerate() {
        assert_eq!(tech_slot(d.id), i);
        assert_eq!(tech_from_slot(i), d.id);
    }
}

#[test]
fn catalogue_entries_hold_the_published_numbers() {
    let ftl = def_of(TechId::FTL);
    assert_eq!(ftl.name, "FTL Navigation");
    assert_eq!(ftl.tier, 2);
    assert_eq!(ftl.max_level, 3);
    assert_eq!(ftl.base_cost, 600);
    assert_eq!(ftl.prerequisites, vec![(TechId::Navigation, 4), (TechId::Energy, 3)]);
    assert_eq!(ftl.effects, vec![TechEffect::TradeCostReduction(30)]);

    let dyson = def_of(TechId::DysonSphere);
    assert_eq!(dyson.tier, 3);
    assert_eq!(dyson.max_level, 1);
    assert_eq!(dyson.base_cost, 5000);
    assert_eq!(dyson.prerequisites, vec![(TechId::Fusion, 3), (TechId::Megastructure, 1)]);
    assert_eq!(dyson.effects, vec![TechEffect::Unlock(UnlockableFeature::DysonSphere)]);

    let military = def_of(TechId::Military);
    assert_eq!(military.effects, vec![TechEffect::MilitaryPowerBonus(10), TechEffect::MilitaryCostReduction(5)]);
    assert_eq!(def_of(TechId::Agriculture).base_cost, 100);
    assert_eq!(def_of(TechId::Megastructure).base_cost, 1500);
}

#[test]
fn fresh_state_researches_agriculture_with_everything_at_zero() {
    let s = TechnologyState::new();
    assert_eq!(s.current_research, TechId::Agriculture);
    for d in TechDefinition::all() {
        assert_eq!(s.level(d.id), 0);
    }
    assert_eq!(s.total_level(), 0);
    assert!(!s.is_feature_unlocked(UnlockableFeature::Terraforming));
}

#[test]
fn fresh_state_can_research_exactly_tier_one() {
    let s = TechnologyState::new();
    for d in TechDefinition::all() {
        assert_eq!(s.can_research(&d), d.tier == 1, "{:?}", d.id);
    }
}

#[test]
fn level_up_raises_one_level_and_the_total() {
    let mut s = TechnologyState::new();
    s.level_up(TechId::Mining);
    s.level_up(TechId::Mining);
    s.level_up(TechId::Energy);
    assert_eq!(s.level(TechId::Mining), 2);
    assert_eq!(s.level(TechId::Energy), 1);
    assert_eq!(s.level(TechId::Agriculture), 0);
    assert_eq!(s.total_level(), 3);
}

#[test]
fn prerequisites_and_level_cap_gate_research() {
    let mut s = TechnologyState::new();
    let biotech = def_of(TechId::Biotech);
    assert!(!s.can_research(&biotech));
    for _ in 0..3 {
        s.level_up(TechId::Agriculture);
    }
    assert!(s.can_research(&biotech));
    let fusion = def_of(TechId::Fusion);
    for _ in 0..4 {
        s.level_up(TechId::Energy);
    }
    assert!(s.can_research(&fusion));
    for _ in 0..3 {
        s.level_up(TechId::Fusion);
    }
    // Fusion has reached its cap of 3.
    assert!(!s.can_research(&fusion));
}

#[test]
fn synergies_need_both_partner_technologies() {
    let mut s = TechnologyState::new();
    assert_eq!(s.synergy_bonus(TechId::Mining), 0);
    s.level_up(TechId::Nanotech);
    assert_eq!(s.synergy_bonus(TechId::Mining), 0);
    s.level_up(TechId::DeepMining);
    assert_eq!(s.synergy_bonus(TechId::Mining), 20);

    s.level_up(TechId::Shields);
    s.level_up(TechId::PsiTech);
    assert_eq!(s.synergy_bonus(TechId::Military), 0);
    s.level_up(TechId::Shields);
    assert_eq!(s.synergy_bonus(TechId::Military), 30);

    s.level_up(TechId::FTL);
    s.level_up(TechId::FTL);
    s.level_up(TechId::Megastructure);
    assert_eq!(s.synergy_bonus(TechId::Navigation), 25);
    assert_eq!(s.synergy_bonus(TechId::Energy), 0);
}

#[test]
fn unlocks_need_a_level() {
    let mut s = TechnologyState::new();
    let tf = def_of(TechId::Terraforming);
    s.add_unlocks(&tf);
    assert!(!s.is_feature_unlocked(UnlockableFeature::Terraforming));
    s.level_up(TechId::Terraforming);
    s.add_unlocks(&tf);
    assert!(s.is_feature_unlocked(UnlockableFeature::Terraforming));
    assert!(!s.is_feature_unlocked(UnlockableFeature::DysonSphere));
    // Effects that unlock nothing leave the features alone.
    s.level_up(TechId::Mining);
    s.add_unlocks(&def_of(TechId::Mining));
    assert!(!s.is_feature_unlocked(UnlockableFeature::ColonyShip));
}

#[test]
fn completing_research_reports_newly_researchable_techs() {
    let mut s = TechnologyState::new();
    assert_eq!(s.complete_research(), Vec::<TechId>::new());
    assert_eq!(s.complete_research(), Vec::<TechId>::new());
    assert_eq!(s.level(TechId::Agriculture), 2);
    // The third agriculture level opens biotechnology.
    assert_eq!(s.complete_research(), vec![TechId::Biotech]);
    assert_eq!(s.level(TechId::Agriculture), 3);
}

#[test]
fn completing_research_opens_shields_only_when_both_prerequisites_are_met() {
    let mut s = TechnologyState::new();
    s.current_research = TechId::Energy;
    s.complete_research();
    s.complete_research();
    s.current_research = TechId::Military;
    assert_eq!(s.complete_research(), Vec::<TechId>::new());
    assert_eq!(s.complete_research(), Vec::<TechId>::new());
    assert_eq!(s.complete_research(), vec![TechId::Shields]);
}

#[test]
fn completing_research_records_unlocks() {
    let mut s = TechnologyState::new();
    s.current_research = TechId::ColonyShip;
    let newly = s.complete_research();
    assert!(newly.is_empty());
    assert!(s.is_feature_unlocked(UnlockableFeature::ColonyShip));
    assert_eq!(s.level(TechId::ColonyShip), 1);
}

#[test]
fn newly_researchable_techs_are_never_tier_one() {
    let mut s = TechnologyState::new();
    for id in [TechId::Mining, TechId::Mining, TechId::Mining, TechId::Manufacturing, TechId::Manufacturing,
        TechId::Manufacturing, TechId::Manufacturing] {
        s.current_research = id;
        for t in s.complete_research() {
            assert!(def_of(t).tier >= 2);
        }
    }
    assert!(s.can_research(&def_of(TechId::DeepMining)));
    assert!(s.can_research(&def_of(TechId::Nanotech)));
}

#[test]
fn each_completed_level_adds_one_to_the_total() {
    let mut s = TechnologyState::new();
    s.current_research = TechId::Energy;
    for expected in 1..=6u32 {
        s.complete_research();
        assert_eq!(s.total_level(), expected);
    }
    s.current_research = TechId::Fusion;
    s.complete_research();
    assert_eq!(s.total_level(), 7);
    assert_eq!(s.level(TechId::Fusion), 1);
}

#[test]
fn checked_total_matches_total() {
    let mut s = TechnologyState::new();
    assert_eq!(s.total_level_checked(), Some(0));
    s.level_up(TechId::Mining);
    s.level_up(TechId::PsiTech);
    s.level_up(TechId::PsiTech);
    assert_eq!(s.total_level_checked(), Some(3));
    assert_eq!(s.total_level(), 3);
}

#[test]
fn a_cloned_state_keeps_levels_unlocks_and_target() {
    let mut s = TechnologyState::new();
    s.level_up(TechId::Terraforming);
    s.level_up(TechId::Terraforming);
    s.level_up(TechId::Mining);
    s.add_unlocks(&def_of(TechId::Terraforming));
    s.current_research = TechId::Fusion;
    let c = s.clone();
    assert_eq!(c.level(TechId::Terraforming), 2);
    assert_eq!(c.level(TechId::Mining), 1);
    assert_eq!(c.level(TechId::Energy), 0);
    assert_eq!(c.total_level(), 3);
    assert!(c.is_feature_unlocked(UnlockableFeature::Terraforming));
    assert!(!c.is_feature_unlocked(UnlockableFeature::DysonSphere));
    assert_eq!(c.current_research, TechId::Fusion);
}
