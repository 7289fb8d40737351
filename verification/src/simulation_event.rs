//! Kinds of simulation event and how important each is for display.
use vstd::prelude::*;

verus! {

/// Importance of an event, lowest first.
#[derive(Debug, Clone, Copy, PartialEq, Eq, PartialOrd, Ord, Default, Structural)]
pub enum EventImportance {
    #[default]
    Low,
    Medium,
    High,
}

/// Position of an importance in the order Low < Medium < High.
pub open spec fn importance_rank(i: EventImportance) -> nat {
    match i {
        EventImportance::Low => 0,
        EventImportance::Medium => 1,
        EventImportance::High => 2,
    }
}

impl EventImportance {
    /// Position in the order Low < Medium < High.
    pub fn rank(self) -> (r: u8)
        ensures
            r == importance_rank(self),
    {
        match self {
            EventImportance::Low => 0,
            EventImportance::Medium => 1,
            EventImportance::High => 2,
        }
    }

    /// Whether an event of this importance passes a display threshold of `min`
    /// (events below the threshold are not shown).
    pub fn passes(self, min: EventImportance) -> (r: bool)
        ensures
            r == (importance_rank(self) >= importance_rank(min)),
    {
        self.rank() >= min.rank()
    }
}

/// The kinds of event that the simulation emits for its displays.
#[derive(Debug, Clone, Copy, PartialEq, Eq, Structural)]
pub enum SimulationEventKind {
    ResourceReport,
    PopulationReport,
    TradeSummary,
    MilitaryReport,
    DiplomacyReport,
    WarDeclared,
    Ceasefire,
    Surrender,
    CombatReport,
    TechLevelUp,
    ResearchReport,
    RandomEvent,
    TerraformingProgress,
    TerraformingPhaseComplete,
    WorldInitialized,
}

/// Importance of each kind: periodic reports are low, trade, research
/// level-ups, combat, ceasefires, random events and finished terraforming
/// phases are medium, and war, surrender and the start of the world are high.
pub open spec fn kind_importance(k: SimulationEventKind) -> EventImportance {
    match k {
        SimulationEventKind::ResourceReport | SimulationEventKind::PopulationReport
        | SimulationEventKind::MilitaryReport | SimulationEventKind::DiplomacyReport
        | SimulationEventKind::ResearchReport
        | SimulationEventKind::TerraformingProgress => EventImportance::Low,
        SimulationEventKind::TradeSummary | SimulationEventKind::TechLevelUp
        | SimulationEventKind::CombatReport | SimulationEventKind::Ceasefire
        | SimulationEventKind::RandomEvent
        | SimulationEventKind::TerraformingPhaseComplete => EventImportance::Medium,
        SimulationEventKind::WarDeclared | SimulationEventKind::Surrender
        | SimulationEventKind::WorldInitialized => EventImportance::High,
    }
}

impl SimulationEventKind {
    /// The importance of events of this kind.
    pub fn importance(&self) -> (i: EventImportance)
        ensures
            i == kind_importance(*self),
    {
        match self {
            SimulationEventKind::ResourceReport => EventImportance::Low,
            SimulationEventKind::PopulationReport => EventImportance::Low,
            SimulationEventKind::MilitaryReport => EventImportance::Low,
            SimulationEventKind::DiplomacyReport => EventImportance::Low,
            SimulationEventKind::ResearchReport => EventImportance::Low,
            SimulationEventKind::TradeSummary => EventImportance::Medium,
            SimulationEventKind::TechLevelUp => EventImportance::Medium,
            SimulationEventKind::CombatReport => EventImportance::Medium,
            SimulationEventKind::Ceasefire => EventImportance::Medium,
            SimulationEventKind::RandomEvent => EventImportance::Medium,
            SimulationEventKind::TerraformingPhaseComplete => EventImportance::Medium,
            SimulationEventKind::WarDeclared => EventImportance::High,
            SimulationEventKind::Surrender => EventImportance::High,
            SimulationEventKind::WorldInitialized => EventImportance::High,
            SimulationEventKind::TerraformingProgress => EventImportance::Low,
        }
    }
}

/// Raising the display threshold only hides events: what passes a higher
/// threshold passes every lower one.
pub proof fn lemma_threshold_monotone(i: EventImportance, lower: EventImportance, higher: EventImportance)
    requires
        importance_rank(lower) <= importance_rank(higher),
        importance_rank(i) >= importance_rank(higher),
    ensures
        importance_rank(i) >= importance_rank(lower),
{
}

/// War declarations, surrenders and the start of the world pass every threshold.
pub proof fn lemma_high_importance_always_shown(k: SimulationEventKind, min: EventImportance)
    requires
        k == SimulationEventKind::WarDeclared || k == SimulationEventKind::Surrender
            || k == SimulationEventKind::WorldInitialized,
    ensures
        importance_rank(kind_importance(k)) >= importance_rank(min),
{
}

/// How often the console log prints events of each kind: the periodic
/// economy, population, trade, military, diplomacy and terraforming reports
/// every 10 ticks, combat reports every 5, research reports every 25; every
/// other kind each time it happens.
pub open spec fn spec_console_period(k: SimulationEventKind) -> u64 {
    match k {
        SimulationEventKind::ResourceReport | SimulationEventKind::PopulationReport
        | SimulationEventKind::TradeSummary | SimulationEventKind::MilitaryReport
        | SimulationEventKind::DiplomacyReport | SimulationEventKind::TerraformingProgress => 10,
        SimulationEventKind::CombatReport => 5,
        SimulationEventKind::ResearchReport => 25,
        _ => 1,
    }
}

/// Whether the console log prints an event of kind `k` raised at `tick`.
pub fn console_report_due(k: SimulationEventKind, tick: u64) -> (due: bool)
    ensures
        due == (tick % spec_console_period(k) == 0),
{
    let period: u64 = match k {
        SimulationEventKind::ResourceReport | SimulationEventKind::PopulationReport
        | SimulationEventKind::TradeSummary | SimulationEventKind::MilitaryReport
        | SimulationEventKind::DiplomacyReport | SimulationEventKind::TerraformingProgress => 10,
        SimulationEventKind::CombatReport => 5,
        SimulationEventKind::ResearchReport => 25,
        _ => 1,
    };
    tick % period == 0
}

/// Events that matter beyond the periodic reports (wars, ceasefires,
/// surrenders, level-ups, random events, finished phases, the start) are
/// printed whenever they happen.
pub proof fn lemma_rare_events_always_printed(k: SimulationEventKind, tick: u64)
    requires
        kind_importance(k) != EventImportance::Low,
        k != SimulationEventKind::TradeSummary,
        k != SimulationEventKind::CombatReport,
    ensures
        tick % spec_console_period(k) == 0,
{
}

} // verus!

verus! {

/// Which events each display threshold shows, for every kind: a low threshold
/// shows everything; a medium threshold shows trade summaries, research
/// level-ups, combat reports, ceasefires, random events, finished
/// terraforming phases, war declarations, surrenders and the start of the
/// world, and hides the periodic economy, population, military, diplomacy,
/// research and terraforming-progress reports; a high threshold shows only
/// war declarations, surrenders and the start of the world.
pub proof fn lemma_threshold_shows(k: SimulationEventKind)
    ensures
        importance_rank(kind_importance(k)) >= importance_rank(EventImportance::Low),
        importance_rank(kind_importance(k)) >= importance_rank(EventImportance::Medium) <==> {
            ||| k == SimulationEventKind::TradeSummary
            ||| k == SimulationEventKind::TechLevelUp
            ||| k == SimulationEventKind::CombatReport
            ||| k == SimulationEventKind::Ceasefire
            ||| k == SimulationEventKind::RandomEvent
            ||| k == SimulationEventKind::TerraformingPhaseComplete
            ||| k == SimulationEventKind::WarDeclared
            ||| k == SimulationEventKind::Surrender
            ||| k == SimulationEventKind::WorldInitialized
        },
        importance_rank(kind_importance(k)) >= importance_rank(EventImportance::High) <==> {
            ||| k == SimulationEventKind::WarDeclared
            ||| k == SimulationEventKind::Surrender
            ||| k == SimulationEventKind::WorldInitialized
        },
{
}

} // verus!
