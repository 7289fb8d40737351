//! The technology tree: what each technology costs and requires, the levels a
//! nation has reached, and which features those levels unlock.
use std::collections::HashMap;
use std::collections::HashSet;
use vstd::prelude::*;

verus! {

broadcast use vstd::std_specs::hash::group_hash_axioms;

/// The number of technologies in the tree.
pub const TECH_COUNT: usize = 18;

/// The number of features that technologies can unlock.
pub const FEATURE_COUNT: usize = 4;

/// Identifier of each technology.
#[derive(Debug, Clone, Copy, PartialEq, Eq, Hash, Structural)]
pub enum TechId {
    // Tier 1: foundations
    Agriculture,
    Mining,
    Energy,
    Manufacturing,
    Military,
    Navigation,
    Environmental,
    // Tier 2: applied technologies
    Biotech,
    DeepMining,
    Fusion,
    Nanotech,
    Shields,
    FTL,
    // Tier 3: advanced technologies
    Terraforming,
    DysonSphere,
    ColonyShip,
    Megastructure,
    PsiTech,
}

/// The research fields that the reports name.
#[derive(Debug, Clone, Copy, PartialEq, Eq, Hash, Structural)]
pub enum TechField {
    Agriculture,
    Mining,
    EnergyTech,
    Manufacturing,
    MilitaryTech,
    SpaceNavigation,
    EnvironmentalTech,
    NuclearFusion,
}

/// Features that a technology can unlock.
#[derive(Debug, Clone, Copy, PartialEq, Eq, Hash, Structural)]
pub enum UnlockableFeature {
    Terraforming,
    AstralMining,
    ColonyShip,
    DysonSphere,
}

/// The slot of a technology in the tree, in declaration order.
pub open spec fn tech_index(id: TechId) -> int {
    match id {
        TechId::Agriculture => 0,
        TechId::Mining => 1,
        TechId::Energy => 2,
        TechId::Manufacturing => 3,
        TechId::Military => 4,
        TechId::Navigation => 5,
        TechId::Environmental => 6,
        TechId::Biotech => 7,
        TechId::DeepMining => 8,
        TechId::Fusion => 9,
        TechId::Nanotech => 10,
        TechId::Shields => 11,
        TechId::FTL => 12,
        TechId::Terraforming => 13,
        TechId::DysonSphere => 14,
        TechId::ColonyShip => 15,
        TechId::Megastructure => 16,
        TechId::PsiTech => 17,
    }
}

/// The technology in a given slot (the inverse of `tech_index`).
pub open spec fn tech_at(i: int) -> TechId {
    if i == 0 {
        TechId::Agriculture
    } else if i == 1 {
        TechId::Mining
    } else if i == 2 {
        TechId::Energy
    } else if i == 3 {
        TechId::Manufacturing
    } else if i == 4 {
        TechId::Military
    } else if i == 5 {
        TechId::Navigation
    } else if i == 6 {
        TechId::Environmental
    } else if i == 7 {
        TechId::Biotech
    } else if i == 8 {
        TechId::DeepMining
    } else if i == 9 {
        TechId::Fusion
    } else if i == 10 {
        TechId::Nanotech
    } else if i == 11 {
        TechId::Shields
    } else if i == 12 {
        TechId::FTL
    } else if i == 13 {
        TechId::Terraforming
    } else if i == 14 {
        TechId::DysonSphere
    } else if i == 15 {
        TechId::ColonyShip
    } else if i == 16 {
        TechId::Megastructure
    } else {
        TechId::PsiTech
    }
}

/// The slot of a feature in the unlock table.
pub open spec fn feature_index(f: UnlockableFeature) -> int {
    match f {
        UnlockableFeature::Terraforming => 0,
        UnlockableFeature::AstralMining => 1,
        UnlockableFeature::ColonyShip => 2,
        UnlockableFeature::DysonSphere => 3,
    }
}

/// `tech_at` undoes `tech_index` and the other way round.
pub proof fn lemma_tech_index_bijective()
    ensures
        forall|id: TechId| 0 <= #[trigger] tech_index(id) < TECH_COUNT && tech_at(tech_index(id)) == id,
        forall|i: int| 0 <= i < TECH_COUNT ==> tech_index(#[trigger] tech_at(i)) == i,
{
}

/// The slot of `id` as an executable index.
pub fn tech_slot(id: TechId) -> (i: usize)
    ensures
        i == tech_index(id),
        i < TECH_COUNT,
{
    match id {
        TechId::Agriculture => 0,
        TechId::Mining => 1,
        TechId::Energy => 2,
        TechId::Manufacturing => 3,
        TechId::Military => 4,
        TechId::Navigation => 5,
        TechId::Environmental => 6,
        TechId::Biotech => 7,
        TechId::DeepMining => 8,
        TechId::Fusion => 9,
        TechId::Nanotech => 10,
        TechId::Shields => 11,
        TechId::FTL => 12,
        TechId::Terraforming => 13,
        TechId::DysonSphere => 14,
        TechId::ColonyShip => 15,
        TechId::Megastructure => 16,
        TechId::PsiTech => 17,
    }
}

/// The technology in slot `i`.
pub fn tech_from_slot(i: usize) -> (id: TechId)
    requires
        i < TECH_COUNT,
    ensures
        id == tech_at(i as int),
{
    if i == 0 {
        TechId::Agriculture
    } else if i == 1 {
        TechId::Mining
    } else if i == 2 {
        TechId::Energy
    } else if i == 3 {
        TechId::Manufacturing
    } else if i == 4 {
        TechId::Military
    } else if i == 5 {
        TechId::Navigation
    } else if i == 6 {
        TechId::Environmental
    } else if i == 7 {
        TechId::Biotech
    } else if i == 8 {
        TechId::DeepMining
    } else if i == 9 {
        TechId::Fusion
    } else if i == 10 {
        TechId::Nanotech
    } else if i == 11 {
        TechId::Shields
    } else if i == 12 {
        TechId::FTL
    } else if i == 13 {
        TechId::Terraforming
    } else if i == 14 {
        TechId::DysonSphere
    } else if i == 15 {
        TechId::ColonyShip
    } else if i == 16 {
        TechId::Megastructure
    } else {
        TechId::PsiTech
    }
}

fn feature_slot(f: UnlockableFeature) -> (i: usize)
    ensures
        i == feature_index(f),
        i < FEATURE_COUNT,
{
    match f {
        UnlockableFeature::Terraforming => 0,
        UnlockableFeature::AstralMining => 1,
        UnlockableFeature::ColonyShip => 2,
        UnlockableFeature::DysonSphere => 3,
    }
}

/// The effect of a technology. Fractional bonuses are held in percent
/// (`ProductionBonus { resource_pct: 10 }` is a +10% production bonus).
#[derive(Debug, Clone, Copy, PartialEq, Eq, Structural)]
pub enum TechEffect {
    ProductionBonus { resource_pct: u32 },
    MilitaryPowerBonus(u32),
    MilitaryCostReduction(u32),
    TradeCapacityBonus(u32),
    TradeCostReduction(u32),
    CleanupBonus(u32),
    PopulationGrowthBonus(u32),
    CombatDamageReduction(u32),
    /// Offsets the loss of output from dwindling mineral reserves.
    MiningStabilityBonus,
    Unlock(UnlockableFeature),
}

/// Static definition of a technology.
#[derive(Debug, Clone)]
pub struct TechDefinition {
    pub id: TechId,
    pub name: String,
    pub tier: u8,
    pub max_level: u32,
    /// Technologies (and the level of each) needed before this one can be researched.
    pub prerequisites: Vec<(TechId, u32)>,
    /// Research points needed for the first level.
    pub base_cost: u32,
    pub effects: Vec<TechEffect>,
}

/// Tier of each technology.
pub open spec fn tech_tier(id: TechId) -> u8 {
    match id {
        TechId::Agriculture | TechId::Mining | TechId::Energy | TechId::Manufacturing
        | TechId::Military | TechId::Navigation | TechId::Environmental => 1,
        TechId::Biotech | TechId::DeepMining | TechId::Fusion | TechId::Nanotech
        | TechId::Shields | TechId::FTL => 2,
        _ => 3,
    }
}

/// Highest level that each technology can reach.
pub open spec fn tech_max_level(id: TechId) -> u32 {
    match id {
        TechId::Agriculture | TechId::Mining | TechId::Energy | TechId::Manufacturing
        | TechId::Military | TechId::Navigation | TechId::Environmental => 10,
        TechId::Biotech | TechId::DeepMining | TechId::Megastructure | TechId::PsiTech => 5,
        TechId::Fusion | TechId::Nanotech | TechId::Shields | TechId::FTL => 3,
        _ => 1,
    }
}

/// Research points for the first level of each technology.
pub open spec fn tech_base_cost(id: TechId) -> u32 {
    match id {
        TechId::Biotech | TechId::DeepMining => 300,
        TechId::Fusion | TechId::Nanotech => 500,
        TechId::Shields => 400,
        TechId::FTL => 600,
        TechId::Terraforming | TechId::PsiTech => 2000,
        TechId::DysonSphere => 5000,
        TechId::ColonyShip => 3000,
        TechId::Megastructure => 1500,
        _ => 100,
    }
}

/// Prerequisites of each technology.
pub open spec fn tech_prerequisites(id: TechId) -> Seq<(TechId, u32)> {
    match id {
        TechId::Biotech => seq![(TechId::Agriculture, 3u32)],
        TechId::DeepMining => seq![(TechId::Mining, 3u32)],
        TechId::Fusion => seq![(TechId::Energy, 4u32)],
        TechId::Nanotech => seq![(TechId::Manufacturing, 4u32)],
        TechId::Shields => seq![(TechId::Military, 3u32), (TechId::Energy, 2u32)],
        TechId::FTL => seq![(TechId::Navigation, 4u32), (TechId::Energy, 3u32)],
        TechId::Terraforming => seq![(TechId::Environmental, 5u32), (TechId::Biotech, 3u32)],
        TechId::DysonSphere => seq![(TechId::Fusion, 3u32), (TechId::Megastructure, 1u32)],
        TechId::ColonyShip => seq![(TechId::FTL, 3u32), (TechId::Biotech, 3u32)],
        TechId::Megastructure => seq![(TechId::Nanotech, 3u32), (TechId::DeepMining, 3u32)],
        TechId::PsiTech => seq![(TechId::Biotech, 5u32), (TechId::Energy, 5u32)],
        _ => seq![],
    }
}

/// Effects of each technology.
pub open spec fn tech_effects(id: TechId) -> Seq<TechEffect> {
    match id {
        TechId::Agriculture | TechId::Mining | TechId::Energy | TechId::Manufacturing => seq![
            TechEffect::ProductionBonus { resource_pct: 10 },
        ],
        TechId::Military => seq![
            TechEffect::MilitaryPowerBonus(10),
            TechEffect::MilitaryCostReduction(5),
        ],
        TechId::Navigation => seq![TechEffect::TradeCapacityBonus(15), TechEffect::TradeCostReduction(3)],
        TechId::Environmental => seq![TechEffect::CleanupBonus(100)],
        TechId::Biotech => seq![TechEffect::PopulationGrowthBonus(5)],
        TechId::DeepMining => seq![TechEffect::MiningStabilityBonus],
        TechId::Fusion => seq![TechEffect::ProductionBonus { resource_pct: 50 }],
        TechId::Nanotech => seq![TechEffect::ProductionBonus { resource_pct: 30 }],
        TechId::Shields => seq![TechEffect::CombatDamageReduction(15)],
        TechId::FTL => seq![TechEffect::TradeCostReduction(30)],
        TechId::Terraforming => seq![TechEffect::Unlock(UnlockableFeature::Terraforming)],
        TechId::DysonSphere => seq![TechEffect::Unlock(UnlockableFeature::DysonSphere)],
        TechId::ColonyShip => seq![TechEffect::Unlock(UnlockableFeature::ColonyShip)],
        TechId::Megastructure => seq![TechEffect::ProductionBonus { resource_pct: 50 }],
        TechId::PsiTech => seq![TechEffect::MilitaryPowerBonus(50)],
    }
}

/// Display name of each technology.
pub open spec fn tech_name(id: TechId) -> Seq<char> {
    match id {
        TechId::Agriculture => "Agriculture"@,
        TechId::Mining => "Mining"@,
        TechId::Energy => "Energy"@,
        TechId::Manufacturing => "Manufacturing"@,
        TechId::Military => "Military"@,
        TechId::Navigation => "Navigation"@,
        TechId::Environmental => "Environmental"@,
        TechId::Biotech => "Biotechnology"@,
        TechId::DeepMining => "Deep Mining"@,
        TechId::Fusion => "Nuclear Fusion"@,
        TechId::Nanotech => "Nanotechnology"@,
        TechId::Shields => "Shield Technology"@,
        TechId::FTL => "FTL Navigation"@,
        TechId::Terraforming => "Advanced Terraforming"@,
        TechId::DysonSphere => "Dyson Sphere"@,
        TechId::ColonyShip => "Interstellar Colony Ship"@,
        TechId::Megastructure => "Megastructure Engineering"@,
        TechId::PsiTech => "Psionic Technology"@,
    }
}

/// `def` is the catalogue entry for its technology.
pub open spec fn is_catalog_entry(def: TechDefinition) -> bool {
    &&& def.name@ =~= tech_name(def.id)
    &&& def.tier == tech_tier(def.id)
    &&& def.max_level == tech_max_level(def.id)
    &&& def.prerequisites@ =~= tech_prerequisites(def.id)
    &&& def.base_cost == tech_base_cost(def.id)
    &&& def.effects@ =~= tech_effects(def.id)
}

/// The first `n` entries of `defs` are the catalogue entries of the first `n` slots.
pub open spec fn catalog_prefix(defs: Seq<TechDefinition>, n: int) -> bool {
    &&& defs.len() == n
    &&& forall|i: int| 0 <= i < n ==> #[trigger] defs[i].id == tech_at(i) && is_catalog_entry(defs[i])
}

impl TechDefinition {
    fn entry(
        id: TechId,
        name: &str,
        tier: u8,
        max_level: u32,
        prerequisites: Vec<(TechId, u32)>,
        base_cost: u32,
        effects: Vec<TechEffect>,
    ) -> (def: TechDefinition)
        ensures
            def.id == id,
            def.name@ == name@,
            def.tier == tier,
            def.max_level == max_level,
            def.prerequisites == prerequisites,
            def.base_cost == base_cost,
            def.effects == effects,
    {
        TechDefinition {
            id,
            name: name.to_string(),
            tier,
            max_level,
            prerequisites,
            base_cost,
            effects,
        }
    }

    /// The whole technology tree, one definition per technology in slot order.
    pub fn all() -> (defs: Vec<TechDefinition>)
        ensures
            defs.len() == TECH_COUNT,
            forall|i: int|
                0 <= i < TECH_COUNT ==> #[trigger] defs[i].id == tech_at(i) && is_catalog_entry(
                    defs[i],
                ),
    {
        let mut defs: Vec<TechDefinition> = Vec::new();
        // Tier 1
        defs.push(Self::entry(TechId::Agriculture, "Agriculture", 1, 10, vec![], 100,
            vec![TechEffect::ProductionBonus { resource_pct: 10 }]));
        assert(catalog_prefix(defs@, 1));
        defs.push(Self::entry(TechId::Mining, "Mining", 1, 10, vec![], 100,
            vec![TechEffect::ProductionBonus { resource_pct: 10 }]));
        assert(catalog_prefix(defs@, 2));
        defs.push(Self::entry(TechId::Energy, "Energy", 1, 10, vec![], 100,
            vec![TechEffect::ProductionBonus { resource_pct: 10 }]));
        assert(catalog_prefix(defs@, 3));
        defs.push(Self::entry(TechId::Manufacturing, "Manufacturing", 1, 10, vec![], 100,
            vec![TechEffect::ProductionBonus { resource_pct: 10 }]));
        assert(catalog_prefix(defs@, 4));
        defs.push(Self::entry(TechId::Military, "Military", 1, 10, vec![], 100,
            vec![TechEffect::MilitaryPowerBonus(10), TechEffect::MilitaryCostReduction(5)]));
        assert(catalog_prefix(defs@, 5));
        defs.push(Self::entry(TechId::Navigation, "Navigation", 1, 10, vec![], 100,
            vec![TechEffect::TradeCapacityBonus(15), TechEffect::TradeCostReduction(3)]));
        assert(catalog_prefix(defs@, 6));
        defs.push(Self::entry(TechId::Environmental, "Environmental", 1, 10, vec![], 100,
            vec![TechEffect::CleanupBonus(100)]));
        assert(catalog_prefix(defs@, 7));
        // Tier 2
        defs.push(Self::entry(TechId::Biotech, "Biotechnology", 2, 5,
            vec![(TechId::Agriculture, 3)], 300, vec![TechEffect::PopulationGrowthBonus(5)]));
        assert(catalog_prefix(defs@, 8));
        defs.push(Self::entry(TechId::DeepMining, "Deep Mining", 2, 5,
            vec![(TechId::Mining, 3)], 300, vec![TechEffect::MiningStabilityBonus]));
        assert(catalog_prefix(defs@, 9));
        defs.push(Self::entry(TechId::Fusion, "Nuclear Fusion", 2, 3,
            vec![(TechId::Energy, 4)], 500, vec![TechEffect::ProductionBonus { resource_pct: 50 }]));
        assert(catalog_prefix(defs@, 10));
        defs.push(Self::entry(TechId::Nanotech, "Nanotechnology", 2, 3,
            vec![(TechId::Manufacturing, 4)], 500,
            vec![TechEffect::ProductionBonus { resource_pct: 30 }]));
        assert(catalog_prefix(defs@, 11));
        defs.push(Self::entry(TechId::Shields, "Shield Technology", 2, 3,
            vec![(TechId::Military, 3), (TechId::Energy, 2)], 400,
            vec![TechEffect::CombatDamageReduction(15)]));
        assert(catalog_prefix(defs@, 12));
        defs.push(Self::entry(TechId::FTL, "FTL Navigation", 2, 3,
            vec![(TechId::Navigation, 4), (TechId::Energy, 3)], 600,
            vec![TechEffect::TradeCostReduction(30)]));
        assert(catalog_prefix(defs@, 13));
        // Tier 3
        defs.push(Self::entry(TechId::Terraforming, "Advanced Terraforming", 3, 1,
            vec![(TechId::Environmental, 5), (TechId::Biotech, 3)], 2000,
            vec![TechEffect::Unlock(UnlockableFeature::Terraforming)]));
        assert(catalog_prefix(defs@, 14));
        defs.push(Self::entry(TechId::DysonSphere, "Dyson Sphere", 3, 1,
            vec![(TechId::Fusion, 3), (TechId::Megastructure, 1)], 5000,
            vec![TechEffect::Unlock(UnlockableFeature::DysonSphere)]));
        assert(catalog_prefix(defs@, 15));
        defs.push(Self::entry(TechId::ColonyShip, "Interstellar Colony Ship", 3, 1,
            vec![(TechId::FTL, 3), (TechId::Biotech, 3)], 3000,
            vec![TechEffect::Unlock(UnlockableFeature::ColonyShip)]));
        assert(catalog_prefix(defs@, 16));
        defs.push(Self::entry(TechId::Megastructure, "Megastructure Engineering", 3, 5,
            vec![(TechId::Nanotech, 3), (TechId::DeepMining, 3)], 1500,
            vec![TechEffect::ProductionBonus { resource_pct: 50 }]));
        assert(catalog_prefix(defs@, 17));
        defs.push(Self::entry(TechId::PsiTech, "Psionic Technology", 3, 5,
            vec![(TechId::Biotech, 5), (TechId::Energy, 5)], 2000,
            vec![TechEffect::MilitaryPowerBonus(50)]));
        assert(catalog_prefix(defs@, 18));
        defs
    }
}

} // verus!

verus! {

/// Sum of a sequence of levels.
pub open spec fn level_sum(s: Seq<u32>) -> int
    decreases s.len(),
{
    if s.len() == 0 {
        0
    } else {
        level_sum(s.drop_last()) + s.last()
    }
}

/// The features that a list of effects unlocks.
pub open spec fn effect_unlocks(effects: Seq<TechEffect>) -> Set<UnlockableFeature> {
    Set::new(|f: UnlockableFeature| exists|i: int| 0 <= i < effects.len() && #[trigger] effects[i] == TechEffect::Unlock(f))
}

/// Abstract state of a nation's research: the level of each technology (by
/// slot), the unlocked features and the technology being researched.
pub struct TechStateView {
    pub levels: Seq<u32>,
    pub unlocked: Set<UnlockableFeature>,
    pub current_research: TechId,
}

impl TechStateView {
    pub open spec fn level(self, id: TechId) -> u32 {
        self.levels[tech_index(id)]
    }

    /// Every prerequisite is met.
    pub open spec fn prerequisites_met(self, prerequisites: Seq<(TechId, u32)>) -> bool {
        forall|i: int| 0 <= i < prerequisites.len() ==> self.level(#[trigger] prerequisites[i].0) >= prerequisites[i].1
    }

    /// A technology with this id, level cap and prerequisites can be researched.
    pub open spec fn can_research(self, id: TechId, max_level: u32, prerequisites: Seq<(TechId, u32)>) -> bool {
        self.level(id) < max_level && self.prerequisites_met(prerequisites)
    }

    /// The catalogue technology `id` can be researched.
    pub open spec fn researchable(self, id: TechId) -> bool {
        self.can_research(id, tech_max_level(id), tech_prerequisites(id))
    }

    /// Synergy bonus (in percent) that combinations of technologies give to `id`.
    pub open spec fn synergy_pct(self, id: TechId) -> u32 {
        match id {
            TechId::Mining => if self.level(TechId::Nanotech) >= 1 && self.level(TechId::DeepMining) >= 1 { 20 } else { 0 },
            TechId::Military => if self.level(TechId::Shields) >= 2 && self.level(TechId::PsiTech) >= 1 { 30 } else { 0 },
            TechId::Navigation => if self.level(TechId::FTL) >= 2 && self.level(TechId::Megastructure) >= 1 { 25 } else { 0 },
            _ => 0,
        }
    }

    pub open spec fn total_level(self) -> int {
        level_sum(self.levels)
    }
}

/// The level that a map from technology slots to levels records for slot
/// `i`; a slot without an entry is at level 0.
spec fn slot_level(m: Map<u64, u32>, i: int) -> u32 {
    if m.contains_key(i as u64) { m[i as u64] } else { 0 }
}

/// A nation's technology levels, unlocked features and current research target.
/// Levels are kept in a map from each technology's slot (`tech_index`) to its
/// level, and the unlocked features as the set of their slots
/// (`feature_index`).
#[derive(Debug)]
pub struct TechnologyState {
    levels: HashMap<u64, u32>,
    unlocked: HashSet<u64>,
    pub current_research: TechId,
}

impl View for TechnologyState {
    type V = TechStateView;

    closed spec fn view(&self) -> TechStateView {
        TechStateView {
            levels: Seq::new(TECH_COUNT as nat, |i: int| slot_level(self.levels@, i)),
            unlocked: Set::new(|f: UnlockableFeature| self.unlocked@.contains(feature_index(f) as u64)),
            current_research: self.current_research,
        }
    }
}

impl Clone for TechnologyState {
    /// A copy with the same levels, unlocked features and research target.
    fn clone(&self) -> (c: Self)
        ensures
            c@ == self@,
    {
        let mut unlocked: HashSet<u64> = HashSet::new();
        let mut k: usize = 0;
        while k < FEATURE_COUNT
            invariant
                0 <= k <= FEATURE_COUNT,
                forall|x: u64| #[trigger] unlocked@.contains(x) <==> x < k && self.unlocked@.contains(x),
            decreases FEATURE_COUNT - k,
        {
            if self.unlocked.contains(&(k as u64)) {
                unlocked.insert(k as u64);
            }
            k = k + 1;
        }
        let c = TechnologyState { levels: self.levels.clone(), unlocked, current_research: self.current_research };
        assert(c@.levels =~= self@.levels);
        assert(c@.unlocked =~= self@.unlocked);
        c
    }
}

impl TechnologyState {
    /// Every technology at level 0, nothing unlocked, researching agriculture.
    pub fn new() -> (s: TechnologyState)
        ensures
            s@.levels.len() == TECH_COUNT,
            forall|id: TechId| s@.level(id) == 0,
            s@.unlocked == Set::<UnlockableFeature>::empty(),
            s@.current_research == TechId::Agriculture,
    {
        let mut levels: HashMap<u64, u32> = HashMap::new();
        let mut i: usize = 0;
        while i < TECH_COUNT
            invariant
                0 <= i <= TECH_COUNT,
                forall|k: u64| #[trigger] levels@.contains_key(k) ==> levels@[k] == 0,
            decreases TECH_COUNT - i,
        {
            levels.insert(i as u64, 0);
            i = i + 1;
        }
        let s = TechnologyState {
            levels,
            unlocked: HashSet::new(),
            current_research: TechId::Agriculture,
        };
        assert(s@.unlocked =~= Set::<UnlockableFeature>::empty());
        s
    }

    /// The level recorded for technology slot `i`.
    fn slot_level_of(&self, i: usize) -> (l: u32)
        requires
            i < TECH_COUNT,
        ensures
            l == self@.levels[i as int],
    {
        match self.levels.get(&(i as u64)) {
            Some(v) => *v,
            None => 0,
        }
    }

    /// The view always holds one level per technology.
    pub proof fn lemma_view_len(&self)
        ensures
            self@.levels.len() == TECH_COUNT,
    {
    }

    /// The level reached in technology `id`.
    pub fn level(&self, id: TechId) -> (l: u32)
        ensures
            l == self@.level(id),
    {
        self.slot_level_of(tech_slot(id))
    }

    /// Raise technology `id` by one level.
    pub fn level_up(&mut self, id: TechId)
        requires
            old(self)@.level(id) < u32::MAX,
        ensures
            final(self)@.levels == old(self)@.levels.update(tech_index(id), (old(self)@.level(id) + 1) as u32),
            final(self)@.unlocked == old(self)@.unlocked,
            final(self)@.current_research == old(self)@.current_research,
    {
        let i = tech_slot(id);
        let cur = self.slot_level_of(i);
        self.levels.insert(i as u64, cur + 1);
        assert forall|j: int| 0 <= j < TECH_COUNT implies #[trigger] self@.levels[j]
            == old(self)@.levels.update(tech_index(id), (cur + 1) as u32)[j] by {
            assert(j != i ==> j as u64 != i as u64);
        }
        assert(self@.levels =~= old(self)@.levels.update(tech_index(id), (cur + 1) as u32));
        assert(self@.unlocked =~= old(self)@.unlocked);
    }

    /// Sum of the levels of all technologies.
    pub fn total_level(&self) -> (t: u32)
        requires
            self@.total_level() <= u32::MAX,
        ensures
            t == self@.total_level(),
    {
        let mut t: u32 = 0;
        let mut i: usize = 0;
        while i < TECH_COUNT
            invariant
                0 <= i <= TECH_COUNT,
                level_sum(self@.levels) <= u32::MAX,
                t == level_sum(self@.levels.take(i as int)),
            decreases TECH_COUNT - i,
        {
            proof {
                assert(self@.levels.take(i as int + 1).drop_last() =~= self@.levels.take(i as int));
                lemma_level_sum_prefix_bound(self@.levels, i as int + 1);
            }
            t = t + self.slot_level_of(i);
            i = i + 1;
        }
        assert(self@.levels.take(TECH_COUNT as int) =~= self@.levels);
        t
    }

    /// The total level when it fits in a `u32`, `None` otherwise.
    pub fn total_level_checked(&self) -> (t: Option<u32>)
        ensures
            t == if self@.total_level() <= u32::MAX { Some(self@.total_level() as u32) } else { None },
    {
        let mut sum: u64 = 0;
        let mut i: usize = 0;
        while i < TECH_COUNT
            invariant
                0 <= i <= TECH_COUNT,
                self@.levels.len() == TECH_COUNT,
                sum == level_sum(self@.levels.take(i as int)),
                sum <= i * 0xffff_ffffu64,
            decreases TECH_COUNT - i,
        {
            proof {
                assert(self@.levels.take(i as int + 1).drop_last() =~= self@.levels.take(i as int));
            }
            sum = sum + self.slot_level_of(i) as u64;
            i = i + 1;
        }
        assert(self@.levels.take(TECH_COUNT as int) =~= self@.levels);
        if sum <= 0xffff_ffffu64 {
            Some(sum as u32)
        } else {
            None
        }
    }

    /// Whether `def` can be researched now: below its level cap, and every
    /// prerequisite at or above its required level.
    pub fn can_research(&self, def: &TechDefinition) -> (r: bool)
        ensures
            r == self@.can_research(def.id, def.max_level, def.prerequisites@),
    {
        if self.level(def.id) >= def.max_level {
            return false;
        }
        let mut k: usize = 0;
        while k < def.prerequisites.len()
            invariant
                0 <= k <= def.prerequisites.len(),
                forall|j: int| 0 <= j < k ==> self@.level(#[trigger] def.prerequisites@[j].0) >= def.prerequisites@[j].1,
            decreases def.prerequisites.len() - k,
        {
            let (pre_id, pre_lv) = def.prerequisites[k];
            if self.level(pre_id) < pre_lv {
                return false;
            }
            k = k + 1;
        }
        true
    }

    /// Bonus, in percent, from combinations of technologies: nanotech with
    /// deep mining for mining, shields with psionics for the military, FTL with
    /// megastructures for navigation.
    pub fn synergy_bonus(&self, id: TechId) -> (pct: u32)
        ensures
            pct == self@.synergy_pct(id),
    {
        match id {
            TechId::Mining => {
                if self.level(TechId::Nanotech) >= 1 && self.level(TechId::DeepMining) >= 1 {
                    return 20;
                }
            },
            TechId::Military => {
                if self.level(TechId::Shields) >= 2 && self.level(TechId::PsiTech) >= 1 {
                    return 30;
                }
            },
            TechId::Navigation => {
                if self.level(TechId::FTL) >= 2 && self.level(TechId::Megastructure) >= 1 {
                    return 25;
                }
            },
            _ => {},
        }
        0
    }

    /// Whether `feature` has been unlocked.
    pub fn is_feature_unlocked(&self, feature: UnlockableFeature) -> (r: bool)
        ensures
            r == self@.unlocked.contains(feature),
    {
        self.unlocked.contains(&(feature_slot(feature) as u64))
    }

    /// Once `def` has a level above 0, record the features that its effects unlock.
    pub fn add_unlocks(&mut self, def: &TechDefinition)
        ensures
            final(self)@.levels == old(self)@.levels,
            final(self)@.current_research == old(self)@.current_research,
            final(self)@.unlocked == if old(self)@.level(def.id) > 0 {
                old(self)@.unlocked.union(effect_unlocks(def.effects@))
            } else {
                old(self)@.unlocked
            },
    {
        if self.level(def.id) > 0 {
            let mut k: usize = 0;
            while k < def.effects.len()
                invariant
                    0 <= k <= def.effects.len(),
                    self@.levels == old(self)@.levels,
                    self@.current_research == old(self)@.current_research,
                    self@.unlocked == old(self)@.unlocked.union(effect_unlocks(def.effects@.take(k as int))),
                decreases def.effects.len() - k,
            {
                let ghost before = self@;
                match def.effects[k] {
                    TechEffect::Unlock(feature) => {
                        self.unlocked.insert(feature_slot(feature) as u64);
                    },
                    _ => {},
                }
                proof {
                    assert(self@.levels =~= before.levels);
                    assert forall|f: UnlockableFeature| #[trigger] self@.unlocked.contains(f)
                        == (before.unlocked.contains(f) || def.effects@[k as int] == TechEffect::Unlock(f)) by {
                        match def.effects@[k as int] {
                            TechEffect::Unlock(g) => {
                                assert(feature_index(f) == feature_index(g) ==> f == g);
                            },
                            _ => {},
                        }
                    }
                    assert(self@.unlocked =~= old(self)@.unlocked.union(effect_unlocks(def.effects@.take(k as int + 1)))) by {
                        assert forall|f: UnlockableFeature| #[trigger] effect_unlocks(def.effects@.take(k as int + 1)).contains(f)
                            <==> effect_unlocks(def.effects@.take(k as int)).contains(f)
                                || def.effects@[k as int] == TechEffect::Unlock(f) by {
                            if effect_unlocks(def.effects@.take(k as int + 1)).contains(f) {
                                let j = choose|j: int| 0 <= j < k + 1 && #[trigger] def.effects@.take(k as int + 1)[j] == TechEffect::Unlock(f);
                                if j < k {
                                    assert(def.effects@.take(k as int)[j] == TechEffect::Unlock(f));
                                }
                            }
                            if effect_unlocks(def.effects@.take(k as int)).contains(f) {
                                let j = choose|j: int| 0 <= j < k && #[trigger] def.effects@.take(k as int)[j] == TechEffect::Unlock(f);
                                assert(def.effects@.take(k as int + 1)[j] == TechEffect::Unlock(f));
                            }
                            if def.effects@[k as int] == TechEffect::Unlock(f) {
                                assert(def.effects@.take(k as int + 1)[k as int] == TechEffect::Unlock(f));
                            }
                        }
                    }
                }
                k = k + 1;
            }
            assert(def.effects@.take(def.effects.len() as int) =~= def.effects@);
        } else {
            assert(self@.unlocked == old(self)@.unlocked);
        }
    }
}

impl TechnologyState {
    /// Complete a level of the technology under research: raise its level,
    /// record the features it unlocks, and report the technologies that this
    /// level made researchable and that are still at level 0, in slot order.
    pub fn complete_research(&mut self) -> (newly_researchable: Vec<TechId>)
        requires
            old(self)@.level(old(self)@.current_research) < u32::MAX,
        ensures
            ({
                let id = old(self)@.current_research;
                &&& final(self)@.levels == old(self)@.levels.update(tech_index(id), (old(self)@.level(id) + 1) as u32)
                &&& final(self)@.unlocked == old(self)@.unlocked.union(effect_unlocks(tech_effects(id)))
                &&& final(self)@.current_research == id
            }),
            forall|t: TechId| #[trigger] newly_researchable@.contains(t) <==> {
                &&& final(self)@.researchable(t)
                &&& !old(self)@.researchable(t)
                &&& final(self)@.level(t) == 0
            },
            newly_researchable@.no_duplicates(),
            forall|i: int| 0 <= i < newly_researchable.len() ==> tech_tier(#[trigger] newly_researchable@[i]) >= 2,
    {
        let id = self.current_research;
        let defs = TechDefinition::all();
        proof { lemma_tech_index_bijective(); }
        let mut before: Vec<bool> = Vec::new();
        let mut i: usize = 0;
        while i < TECH_COUNT
            invariant
                0 <= i <= TECH_COUNT,
                before.len() == i,
                defs.len() == TECH_COUNT,
                forall|j: int| 0 <= j < TECH_COUNT ==> #[trigger] defs[j].id == tech_at(j) && is_catalog_entry(defs[j]),
                forall|j: int| 0 <= j < i ==> #[trigger] before@[j] == self@.researchable(tech_at(j)),
            decreases TECH_COUNT - i,
        {
            let r = self.can_research(&defs[i]);
            before.push(r);
            i = i + 1;
        }
        let ghost pre = self@;
        self.level_up(id);
        let slot = tech_slot(id);
        assert(defs[slot as int].id == id);
        self.add_unlocks(&defs[slot]);
        let mut newly: Vec<TechId> = Vec::new();
        let mut m: usize = 0;
        while m < TECH_COUNT
            invariant
                0 <= m <= TECH_COUNT,
                defs.len() == TECH_COUNT,
                before.len() == TECH_COUNT,
                forall|j: int| 0 <= j < TECH_COUNT ==> #[trigger] defs[j].id == tech_at(j) && is_catalog_entry(defs[j]),
                forall|j: int| 0 <= j < TECH_COUNT ==> #[trigger] before@[j] == pre.researchable(tech_at(j)),
                forall|t: TechId| #[trigger] newly@.contains(t) <==> {
                    &&& tech_index(t) < m
                    &&& self@.researchable(t)
                    &&& !pre.researchable(t)
                    &&& self@.level(t) == 0
                },
                forall|a: int, b: int| 0 <= a < b < newly.len() ==> tech_index(#[trigger] newly@[a]) < tech_index(#[trigger] newly@[b]),
                forall|a: int| 0 <= a < newly.len() ==> tech_index(#[trigger] newly@[a]) < m,
            decreases TECH_COUNT - m,
        {
            let ghost old_newly = newly@;
            let after = self.can_research(&defs[m]);
            proof {
                assert(defs[m as int].id == tech_at(m as int) && is_catalog_entry(defs[m as int]));
                assert(after == self@.researchable(tech_at(m as int)));
                assert(before@[m as int] == pre.researchable(tech_at(m as int)));
            }
            if after && !before[m] && self.level(defs[m].id) == 0 {
                newly.push(defs[m].id);
                assert(newly@ == old_newly.push(tech_at(m as int)));
            } else {
                assert(newly@ == old_newly);
            }
            proof {
                assert forall|t: TechId| #[trigger] newly@.contains(t) <==> {
                    &&& tech_index(t) < m + 1
                    &&& self@.researchable(t)
                    &&& !pre.researchable(t)
                    &&& self@.level(t) == 0
                } by {
                    if tech_index(t) == m {
                        assert(tech_at(m as int) == t);
                        assert(defs[m as int].id == t);
                    }
                    if newly@.contains(t) {
                        let i = choose|i: int| 0 <= i < newly@.len() && newly@[i] == t;
                        if i < old_newly.len() {
                            assert(old_newly[i] == t);
                            assert(old_newly.contains(t));
                        } else {
                            assert(t == tech_at(m as int));
                        }
                    }
                    if old_newly.contains(t) {
                        let i = choose|i: int| 0 <= i < old_newly.len() && old_newly[i] == t;
                        assert(newly@[i] == t);
                    }
                    if tech_index(t) == m && self@.researchable(t) && !pre.researchable(t) && self@.level(t) == 0 {
                        assert(newly@[newly@.len() - 1] == t);
                    }
                }
            }
            m = m + 1;
        }
        proof {
            assert forall|a: int, b: int| 0 <= a < newly.len() && 0 <= b < newly.len() && a != b implies newly@[a] != newly@[b] by {
                if a < b {
                    assert(tech_index(newly@[a]) < tech_index(newly@[b]));
                } else {
                    assert(tech_index(newly@[b]) < tech_index(newly@[a]));
                }
            }
            assert forall|i: int| 0 <= i < newly.len() implies tech_tier(#[trigger] newly@[i]) >= 2 by {
                let t = newly@[i];
                assert(newly@.contains(t));
                if tech_tier(t) == 1 {
                    assert(tech_prerequisites(t) =~= Seq::<(TechId, u32)>::empty());
                    assert(pre.level(t) >= 10);
                    assert(self@.level(t) >= pre.level(t));
                }
            }
        }
        newly
    }
}

/// In a fresh technology state, where every level is 0, exactly the tier-1
/// technologies can be researched.
pub proof fn lemma_fresh_state_researchable_is_tier_one(v: TechStateView)
    requires
        v.levels.len() == TECH_COUNT,
        forall|id: TechId| v.level(id) == 0,
    ensures
        forall|id: TechId| #[trigger] v.researchable(id) <==> tech_tier(id) == 1,
{
    assert forall|id: TechId| #[trigger] v.researchable(id) <==> tech_tier(id) == 1 by {
        let p = tech_prerequisites(id);
        if tech_tier(id) != 1 {
            assert(p.len() > 0 && p[0].1 >= 1);
            assert(v.level(p[0].0) == 0);
        } else {
            assert(p =~= Seq::<(TechId, u32)>::empty());
        }
    }
}

/// Raising a level never takes away a met prerequisite: whatever could be
/// required before a level-up is still met after it.
pub proof fn lemma_level_up_keeps_prerequisites(
    before: TechStateView,
    after: TechStateView,
    id: TechId,
    prerequisites: Seq<(TechId, u32)>,
)
    requires
        before.levels.len() == TECH_COUNT,
        after.levels == before.levels.update(tech_index(id), (before.level(id) + 1) as u32),
        before.level(id) < u32::MAX,
        before.prerequisites_met(prerequisites),
    ensures
        after.prerequisites_met(prerequisites),
{
    assert forall|i: int| 0 <= i < prerequisites.len() implies after.level(#[trigger] prerequisites[i].0) >= prerequisites[i].1 by {
        assert(before.level(prerequisites[i].0) >= prerequisites[i].1);
    }
}

/// A prefix of a sequence of levels sums to no more than the whole.
pub proof fn lemma_level_sum_prefix_bound(s: Seq<u32>, n: int)
    requires
        0 <= n <= s.len(),
    ensures
        level_sum(s.take(n)) <= level_sum(s),
        0 <= level_sum(s.take(n)),
    decreases s.len(),
{
    if n == s.len() {
        assert(s.take(n) =~= s);
        lemma_level_sum_nonneg(s);
    } else {
        assert(s.drop_last().take(n) =~= s.take(n));
        lemma_level_sum_prefix_bound(s.drop_last(), n);
    }
}

/// Sums of levels are never negative.
pub proof fn lemma_level_sum_nonneg(s: Seq<u32>)
    ensures
        level_sum(s) >= 0,
    decreases s.len(),
{
    if s.len() > 0 {
        lemma_level_sum_nonneg(s.drop_last());
    }
}

proof fn lemma_level_sum_update(s: Seq<u32>, i: int, v: u32)
    requires
        0 <= i < s.len(),
    ensures
        level_sum(s.update(i, v)) == level_sum(s) - s[i] + v,
    decreases s.len(),
{
    if i == s.len() - 1 {
        assert(s.update(i, v).drop_last() =~= s.drop_last());
    } else {
        assert(s.update(i, v).drop_last() =~= s.drop_last().update(i, v));
        lemma_level_sum_update(s.drop_last(), i, v);
    }
}

/// Each completed level adds exactly one to the nation's total technology
/// level (the number that level-up reports show).
pub proof fn lemma_level_up_adds_one_to_total(before: TechStateView, after: TechStateView, id: TechId)
    requires
        before.levels.len() == TECH_COUNT,
        before.level(id) < u32::MAX,
        after.levels == before.levels.update(tech_index(id), (before.level(id) + 1) as u32),
    ensures
        after.total_level() == before.total_level() + 1,
{
    lemma_level_sum_update(before.levels, tech_index(id), (before.level(id) + 1) as u32);
}

} // verus!

verus! {

/// When each technology can be researched, for every state of a nation's
/// research: the seven first-tier technologies while below level 10;
/// biotechnology and deep mining up to level 5 once agriculture, respectively
/// mining, has level 3; fusion and nanotechnology up to level 3 once energy,
/// respectively manufacturing, has level 4; shields up to level 3 with
/// military 3 and energy 2; FTL up to level 3 with navigation 4 and energy 3;
/// advanced terraforming once, with environmental 5 and biotechnology 3; the
/// Dyson sphere once, with fusion 3 and megastructures 1; the colony ship once,
/// with FTL 3 and biotechnology 3; megastructures up to level 5 with
/// nanotechnology 3 and deep mining 3; psionics up to level 5 with
/// biotechnology 5 and energy 5.
pub proof fn lemma_research_requirements(v: TechStateView)
    ensures
        v.researchable(TechId::Agriculture) <==> v.level(TechId::Agriculture) < 10,
        v.researchable(TechId::Mining) <==> v.level(TechId::Mining) < 10,
        v.researchable(TechId::Energy) <==> v.level(TechId::Energy) < 10,
        v.researchable(TechId::Manufacturing) <==> v.level(TechId::Manufacturing) < 10,
        v.researchable(TechId::Military) <==> v.level(TechId::Military) < 10,
        v.researchable(TechId::Navigation) <==> v.level(TechId::Navigation) < 10,
        v.researchable(TechId::Environmental) <==> v.level(TechId::Environmental) < 10,
        v.researchable(TechId::Biotech) <==> v.level(TechId::Biotech) < 5 && v.level(TechId::Agriculture) >= 3,
        v.researchable(TechId::DeepMining) <==> v.level(TechId::DeepMining) < 5 && v.level(TechId::Mining) >= 3,
        v.researchable(TechId::Fusion) <==> v.level(TechId::Fusion) < 3 && v.level(TechId::Energy) >= 4,
        v.researchable(TechId::Nanotech) <==> v.level(TechId::Nanotech) < 3 && v.level(TechId::Manufacturing) >= 4,
        v.researchable(TechId::Shields) <==> v.level(TechId::Shields) < 3 && v.level(TechId::Military) >= 3
            && v.level(TechId::Energy) >= 2,
        v.researchable(TechId::FTL) <==> v.level(TechId::FTL) < 3 && v.level(TechId::Navigation) >= 4
            && v.level(TechId::Energy) >= 3,
        v.researchable(TechId::Terraforming) <==> v.level(TechId::Terraforming) == 0
            && v.level(TechId::Environmental) >= 5 && v.level(TechId::Biotech) >= 3,
        v.researchable(TechId::DysonSphere) <==> v.level(TechId::DysonSphere) == 0 && v.level(TechId::Fusion) >= 3
            && v.level(TechId::Megastructure) >= 1,
        v.researchable(TechId::ColonyShip) <==> v.level(TechId::ColonyShip) == 0 && v.level(TechId::FTL) >= 3
            && v.level(TechId::Biotech) >= 3,
        v.researchable(TechId::Megastructure) <==> v.level(TechId::Megastructure) < 5
            && v.level(TechId::Nanotech) >= 3 && v.level(TechId::DeepMining) >= 3,
        v.researchable(TechId::PsiTech) <==> v.level(TechId::PsiTech) < 5 && v.level(TechId::Biotech) >= 5
            && v.level(TechId::Energy) >= 5,
{
    let two = |id: TechId| {
        let p = tech_prerequisites(id);
        v.prerequisites_met(p) <==> v.level(p[0].0) >= p[0].1 && v.level(p[1].0) >= p[1].1
    };
    let one = |id: TechId| {
        let p = tech_prerequisites(id);
        v.prerequisites_met(p) <==> v.level(p[0].0) >= p[0].1
    };
    assert(one(TechId::Biotech));
    assert(one(TechId::DeepMining));
    assert(one(TechId::Fusion));
    assert(one(TechId::Nanotech));
    assert(two(TechId::Shields));
    assert(two(TechId::FTL));
    assert(two(TechId::Terraforming));
    assert(two(TechId::DysonSphere));
    assert(two(TechId::ColonyShip));
    assert(two(TechId::Megastructure));
    assert(two(TechId::PsiTech));
}

/// The features that technologies unlock: advanced terraforming unlocks
/// terraforming, the Dyson sphere the Dyson sphere and the colony ship the
/// colony ship; no other technology unlocks anything.
pub proof fn lemma_unlocking_technologies(id: TechId, f: UnlockableFeature)
    ensures
        effect_unlocks(tech_effects(id)).contains(f) <==> {
            ||| id == TechId::Terraforming && f == UnlockableFeature::Terraforming
            ||| id == TechId::DysonSphere && f == UnlockableFeature::DysonSphere
            ||| id == TechId::ColonyShip && f == UnlockableFeature::ColonyShip
        },
{
    let e = tech_effects(id);
    if effect_unlocks(e).contains(f) {
        let i = choose|i: int| 0 <= i < e.len() && #[trigger] e[i] == TechEffect::Unlock(f);
        match id {
            TechId::Military | TechId::Navigation => assert(i == 0 || i == 1),
            _ => assert(i == 0),
        }
    }
    if id == TechId::Terraforming || id == TechId::DysonSphere || id == TechId::ColonyShip {
        assert(e[0] == TechEffect::Unlock(f) ==> effect_unlocks(e).contains(f));
    }
}

} // verus!
