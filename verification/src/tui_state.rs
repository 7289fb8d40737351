//! State of the terminal dashboard: simulation control (pause, step, speed,
//! quit), the event log, the planet selection and the history charts, and how
//! key presses change them.
use vstd::prelude::*;
use crate::events::EventKind;
use crate::simulation_event::SimulationEventKind;

verus! {

/// Most entries that the event log keeps.
pub const MAX_LOG_ENTRIES: usize = 200;

/// Most samples that each history chart keeps.
pub const MAX_HISTORY: usize = 100;

/// Severity of a log entry (used for colouring).
#[derive(Clone, Copy, Debug, PartialEq, Eq, Structural)]
pub enum EventSeverity {
    Info,
    Warning,
    Critical,
}

/// One line of the event log.
#[derive(Clone, Debug)]
pub struct EventLogEntry {
    pub tick: u64,
    pub message: String,
    pub severity: EventSeverity,
}

/// Simulation speed.
#[derive(Clone, Copy, Debug, PartialEq, Eq, Structural)]
pub enum SimSpeed {
    X1,
    X5,
    X10,
}

/// Position of a speed, slowest first.
pub open spec fn speed_rank(s: SimSpeed) -> nat {
    match s {
        SimSpeed::X1 => 0,
        SimSpeed::X5 => 1,
        SimSpeed::X10 => 2,
    }
}

/// The speed one step faster (the fastest stays).
pub open spec fn spec_faster(s: SimSpeed) -> SimSpeed {
    match s {
        SimSpeed::X1 => SimSpeed::X5,
        SimSpeed::X5 => SimSpeed::X10,
        SimSpeed::X10 => SimSpeed::X10,
    }
}

/// The speed one step slower (the slowest stays).
pub open spec fn spec_slower(s: SimSpeed) -> SimSpeed {
    match s {
        SimSpeed::X1 => SimSpeed::X1,
        SimSpeed::X5 => SimSpeed::X1,
        SimSpeed::X10 => SimSpeed::X5,
    }
}

impl SimSpeed {
    /// Switch to the next faster speed.
    pub fn faster(self) -> (s: SimSpeed)
        ensures
            s == spec_faster(self),
    {
        match self {
            SimSpeed::X1 => SimSpeed::X5,
            SimSpeed::X5 => SimSpeed::X10,
            SimSpeed::X10 => SimSpeed::X10,
        }
    }

    /// Switch to the next slower speed.
    pub fn slower(self) -> (s: SimSpeed)
        ensures
            s == spec_slower(self),
    {
        match self {
            SimSpeed::X1 => SimSpeed::X1,
            SimSpeed::X5 => SimSpeed::X1,
            SimSpeed::X10 => SimSpeed::X5,
        }
    }

    /// Label shown in the header.
    pub fn label(self) -> (l: &'static str)
        ensures
            l@ == match self {
                SimSpeed::X1 => "x1"@,
                SimSpeed::X5 => "x5"@,
                SimSpeed::X10 => "x10"@,
            },
    {
        match self {
            SimSpeed::X1 => "x1",
            SimSpeed::X5 => "x5",
            SimSpeed::X10 => "x10",
        }
    }
}

/// Slowing down undoes speeding up, except at the top speed; speeding up
/// undoes slowing down, except at the bottom speed; both move at most one step.
pub proof fn lemma_speed_steps(s: SimSpeed)
    ensures
        s != SimSpeed::X10 ==> spec_slower(spec_faster(s)) == s,
        s != SimSpeed::X1 ==> spec_faster(spec_slower(s)) == s,
        speed_rank(spec_faster(s)) >= speed_rank(s),
        speed_rank(spec_slower(s)) <= speed_rank(s),
        speed_rank(spec_faster(s)) <= speed_rank(s) + 1,
        speed_rank(spec_slower(s)) + 1 >= speed_rank(s),
{
}

/// Which screen the dashboard shows.
#[derive(Debug, Clone, Copy, PartialEq, Eq, Structural)]
pub enum TuiView {
    Main,
    PlanetDetail,
}

/// Execution control: pause, stop, single step, speed and quit request.
#[derive(Debug, Clone, Copy, PartialEq, Eq, Structural)]
pub struct SimControl {
    pub paused: bool,
    pub stopped: bool,
    pub step_once: bool,
    pub speed: SimSpeed,
    pub quit_requested: bool,
}

impl Default for SimControl {
    fn default() -> (c: Self)
        ensures
            !c.paused && !c.stopped && !c.step_once && c.speed == SimSpeed::X1 && !c.quit_requested,
    {
        SimControl { paused: false, stopped: false, step_once: false, speed: SimSpeed::X1, quit_requested: false }
    }
}

impl SimControl {
    /// Stop and pause the simulation (what reaching the last tick does in the
    /// terminal UI).
    pub fn halt(&mut self)
        ensures
            final(self).stopped && final(self).paused,
            final(self).step_once == old(self).step_once,
            final(self).speed == old(self).speed,
            final(self).quit_requested == old(self).quit_requested,
    {
        self.stopped = true;
        self.paused = true;
    }

    /// Clear the single-step request once a frame has run.
    pub fn reset_step(&mut self)
        ensures
            *final(self) == (SimControl { step_once: false, ..*old(self) }),
    {
        if self.step_once {
            self.step_once = false;
        }
    }
}

/// Whether the simulation may run this frame: always without a control
/// (command-line mode); with one, when a single step is requested, or else
/// when it is neither stopped nor paused.
pub open spec fn spec_running(control: Option<SimControl>) -> bool {
    match control {
        Some(c) => c.step_once || (!c.stopped && !c.paused),
        None => true,
    }
}

/// Run condition of the simulation systems.
pub fn simulation_running(control: Option<&SimControl>) -> (r: bool)
    ensures
        r == spec_running(match control { Some(c) => Some(*c), None => None }),
{
    match control {
        Some(control) => {
            if control.step_once {
                return true;
            }
            if control.stopped || control.paused {
                return false;
            }
            true
        },
        None => true,
    }
}

/// The integer part of the dashboard's state: event log, tick counters, seed,
/// planet selection, log scroll position, current screen and history charts.
#[derive(Debug)]
pub struct TuiAppState {
    pub event_log: Vec<EventLogEntry>,
    pub current_tick: u64,
    pub max_ticks: u64,
    pub seed: u64,
    pub selected_planet: usize,
    pub log_scroll_offset: usize,
    pub view: TuiView,
    pub population_history: Vec<u64>,
    pub resource_history: Vec<u64>,
}

impl Default for TuiAppState {
    fn default() -> (s: Self)
        ensures
            s.event_log@.len() == 0,
            s.current_tick == 0,
            s.max_ticks == 0,
            s.seed == 0,
            s.selected_planet == 0,
            s.log_scroll_offset == 0,
            s.view == TuiView::Main,
            s.population_history@.len() == 0,
            s.resource_history@.len() == 0,
    {
        TuiAppState {
            event_log: Vec::new(),
            current_tick: 0,
            max_ticks: 0,
            seed: 0,
            selected_planet: 0,
            log_scroll_offset: 0,
            view: TuiView::Main,
            population_history: Vec::new(),
            resource_history: Vec::new(),
        }
    }
}

/// `s` with `x` appended, keeping only the last `cap` items when it grows past `cap`.
pub open spec fn push_bounded<T>(s: Seq<T>, x: T, cap: nat) -> Seq<T> {
    if s.len() + 1 > cap {
        s.push(x).drop_first()
    } else {
        s.push(x)
    }
}

fn push_capped(v: &mut Vec<u64>, x: u64, cap: usize)
    requires
        cap >= 1,
    ensures
        final(v)@ == push_bounded(old(v)@, x, cap as nat),
{
    v.push(x);
    if v.len() > cap {
        v.remove(0);
    }
}

/// A command that a key press stands for.
#[derive(Debug, Clone, Copy, PartialEq, Eq, Structural)]
pub enum TuiKey {
    /// `q` or `Q`.
    Quit,
    /// Ctrl-C.
    Interrupt,
    /// Space, `s` or `S`.
    TogglePause,
    /// `n` or `N`.
    Step,
    /// `+` or `=`.
    Faster,
    /// `-`.
    Slower,
    /// Enter, `i` or `I`.
    OpenDetail,
    /// Escape or Backspace.
    Back,
    Up,
    Down,
    /// `j` or `J`.
    ScrollDown,
    /// `k` or `K`.
    ScrollUp,
    /// Any other key.
    Other,
}

impl TuiAppState {
    /// Append a log entry; the log keeps the latest 200 entries.
    pub fn push_log(&mut self, tick: u64, message: String, severity: EventSeverity)
        ensures
            final(self).event_log@ == push_bounded(
                old(self).event_log@,
                EventLogEntry { tick, message, severity },
                MAX_LOG_ENTRIES as nat,
            ),
            final(self).current_tick == old(self).current_tick,
            final(self).max_ticks == old(self).max_ticks,
            final(self).seed == old(self).seed,
            final(self).selected_planet == old(self).selected_planet,
            final(self).log_scroll_offset == old(self).log_scroll_offset,
            final(self).view == old(self).view,
            final(self).population_history == old(self).population_history,
            final(self).resource_history == old(self).resource_history,
    {
        self.event_log.push(EventLogEntry { tick, message, severity });
        if self.event_log.len() > MAX_LOG_ENTRIES {
            self.event_log.remove(0);
        }
    }

    /// Record one sample of total population and total manufactured goods in
    /// the history charts while the simulation runs (not paused nor stopped,
    /// or stepping once); each chart keeps the latest 100 samples.
    pub fn record_history(&mut self, control: &SimControl, population: u64, goods: u64)
        ensures
            ({
                let running = (!control.paused && !control.stopped) || control.step_once;
                &&& final(self).population_history@ == if running {
                    push_bounded(old(self).population_history@, population, MAX_HISTORY as nat)
                } else {
                    old(self).population_history@
                }
                &&& final(self).resource_history@ == if running {
                    push_bounded(old(self).resource_history@, goods, MAX_HISTORY as nat)
                } else {
                    old(self).resource_history@
                }
            }),
            final(self).event_log == old(self).event_log,
            final(self).current_tick == old(self).current_tick,
            final(self).max_ticks == old(self).max_ticks,
            final(self).seed == old(self).seed,
            final(self).selected_planet == old(self).selected_planet,
            final(self).log_scroll_offset == old(self).log_scroll_offset,
            final(self).view == old(self).view,
    {
        if !control.paused && !control.stopped || control.step_once {
            push_capped(&mut self.population_history, population, MAX_HISTORY);
            push_capped(&mut self.resource_history, goods, MAX_HISTORY);
        }
    }
}

/// The control and dashboard state after a key press, with `planet_count`
/// planets on screen.
pub open spec fn key_effect(
    control: SimControl,
    state: TuiAppState,
    key: TuiKey,
    planet_count: nat,
) -> (SimControl, TuiAppState) {
    match key {
        TuiKey::Quit | TuiKey::Interrupt => (SimControl { quit_requested: true, ..control }, state),
        TuiKey::TogglePause => if control.paused || control.stopped {
            (SimControl { paused: false, stopped: false, ..control }, state)
        } else {
            (SimControl { paused: true, stopped: true, ..control }, state)
        },
        TuiKey::Step => if (control.paused || control.stopped) && state.current_tick < state.max_ticks {
            (SimControl { step_once: true, ..control }, state)
        } else {
            (control, state)
        },
        TuiKey::Faster => (SimControl { speed: spec_faster(control.speed), ..control }, state),
        TuiKey::Slower => (SimControl { speed: spec_slower(control.speed), ..control }, state),
        TuiKey::OpenDetail => if state.view == TuiView::Main && planet_count > 0 {
            (control, TuiAppState { view: TuiView::PlanetDetail, ..state })
        } else {
            (control, state)
        },
        TuiKey::Back => if state.view == TuiView::PlanetDetail {
            (control, TuiAppState { view: TuiView::Main, ..state })
        } else {
            (control, state)
        },
        TuiKey::Up => if state.selected_planet > 0 {
            (control, TuiAppState { selected_planet: (state.selected_planet - 1) as usize, ..state })
        } else {
            (control, state)
        },
        TuiKey::Down => {
            let max: int = if planet_count == 0 { 0 } else { planet_count - 1 };
            if state.selected_planet < max {
                (control, TuiAppState { selected_planet: (state.selected_planet + 1) as usize, ..state })
            } else {
                (control, state)
            }
        },
        TuiKey::ScrollDown => if state.log_scroll_offset + 1 < state.event_log@.len() {
            (control, TuiAppState { log_scroll_offset: (state.log_scroll_offset + 1) as usize, ..state })
        } else {
            (control, state)
        },
        TuiKey::ScrollUp => if state.log_scroll_offset > 0 {
            (control, TuiAppState { log_scroll_offset: (state.log_scroll_offset - 1) as usize, ..state })
        } else {
            (control, state)
        },
        TuiKey::Other => (control, state),
    }
}

/// Apply a key press to the execution control and the dashboard state.
pub fn handle_key(control: &mut SimControl, state: &mut TuiAppState, key: TuiKey, planet_count: usize)
    ensures
        (*final(control), *final(state)) == key_effect(*old(control), *old(state), key, planet_count as nat),
{
    match key {
        TuiKey::Quit | TuiKey::Interrupt => {
            control.quit_requested = true;
        },
        TuiKey::TogglePause => {
            if control.paused || control.stopped {
                control.paused = false;
                control.stopped = false;
            } else {
                control.paused = true;
                control.stopped = true;
            }
        },
        TuiKey::Step => {
            if (control.paused || control.stopped) && state.current_tick < state.max_ticks {
                control.step_once = true;
            }
        },
        TuiKey::Faster => {
            control.speed = control.speed.faster();
        },
        TuiKey::Slower => {
            control.speed = control.speed.slower();
        },
        TuiKey::OpenDetail => {
            if state.view == TuiView::Main && planet_count > 0 {
                state.view = TuiView::PlanetDetail;
            }
        },
        TuiKey::Back => {
            if state.view == TuiView::PlanetDetail {
                state.view = TuiView::Main;
            }
        },
        TuiKey::Up => {
            if state.selected_planet > 0 {
                state.selected_planet = state.selected_planet - 1;
            }
        },
        TuiKey::Down => {
            let max = if planet_count == 0 { 0 } else { planet_count - 1 };
            if state.selected_planet < max {
                state.selected_planet = state.selected_planet + 1;
            }
        },
        TuiKey::ScrollDown => {
            let len = state.event_log.len();
            if len > 0 && state.log_scroll_offset < len - 1 {
                state.log_scroll_offset = state.log_scroll_offset + 1;
            }
        },
        TuiKey::ScrollUp => {
            if state.log_scroll_offset > 0 {
                state.log_scroll_offset = state.log_scroll_offset - 1;
            }
        },
        TuiKey::Other => {},
    }
}

/// Severity of a random event in the log: plague, rebellion and energy crisis
/// are critical, every other event a warning.
pub fn random_event_severity(kind: EventKind) -> (s: EventSeverity)
    ensures
        s == if kind == EventKind::Plague || kind == EventKind::Rebellion || kind == EventKind::EnergyCrisis {
            EventSeverity::Critical
        } else {
            EventSeverity::Warning
        },
{
    match kind {
        EventKind::Plague | EventKind::Rebellion | EventKind::EnergyCrisis => EventSeverity::Critical,
        _ => EventSeverity::Warning,
    }
}

/// Key presses keep the planet selection on screen: if it was within
/// `planet_count` planets it still is, and it never moves by more than one.
pub proof fn lemma_selection_stays_in_range(control: SimControl, state: TuiAppState, key: TuiKey, planet_count: nat)
    requires
        planet_count <= usize::MAX,
        planet_count == 0 ==> state.selected_planet == 0,
        planet_count > 0 ==> state.selected_planet < planet_count,
    ensures
        ({
            let s2 = key_effect(control, state, key, planet_count).1;
            &&& (planet_count == 0 ==> s2.selected_planet == 0)
            &&& (planet_count > 0 ==> s2.selected_planet < planet_count)
            &&& s2.selected_planet <= state.selected_planet + 1
            &&& state.selected_planet <= s2.selected_planet + 1
        }),
{
    let s2 = key_effect(control, state, key, planet_count).1;
    match key {
        TuiKey::Up => {
            if state.selected_planet > 0 {
                assert(s2.selected_planet == state.selected_planet - 1);
                assert(s2.selected_planet + 1 >= state.selected_planet);
            } else {
                assert(s2 == state);
            }
        },
        TuiKey::Down => {
            let max: int = if planet_count == 0 { 0 } else { planet_count - 1 };
            if state.selected_planet < max {
                assert(s2.selected_planet == state.selected_planet + 1);
            } else {
                assert(s2.selected_planet == state.selected_planet);
            }
        },
        _ => {
            assert(s2.selected_planet == state.selected_planet);
        },
    }
}

/// Key presses keep the log scroll position within the log: if it pointed at
/// an entry it still does.
pub proof fn lemma_scroll_stays_in_log(control: SimControl, state: TuiAppState, key: TuiKey, planet_count: nat)
    requires
        state.log_scroll_offset < state.event_log@.len(),
    ensures
        key_effect(control, state, key, planet_count).1.log_scroll_offset < state.event_log@.len(),
        key_effect(control, state, key, planet_count).1.event_log == state.event_log,
{
}

/// Pausing twice restores the pause state: toggling is its own inverse on a
/// running or a fully stopped simulation.
pub proof fn lemma_toggle_pause_twice(control: SimControl, state: TuiAppState, planet_count: nat)
    requires
        control.paused == control.stopped,
    ensures
        ({
            let (c1, s1) = key_effect(control, state, TuiKey::TogglePause, planet_count);
            let (c2, s2) = key_effect(c1, s1, TuiKey::TogglePause, planet_count);
            c2 == control && s2 == state
        }),
{
}

/// Each history chart keeps at most 100 samples, the newest last.
pub proof fn lemma_history_bounded(history: Seq<u64>, x: u64)
    requires
        history.len() <= MAX_HISTORY,
    ensures
        push_bounded(history, x, MAX_HISTORY as nat).len() <= MAX_HISTORY,
        push_bounded(history, x, MAX_HISTORY as nat).last() == x,
{
}

/// The log never holds more than 200 entries, and pushing always keeps the
/// newest entry last.
pub proof fn lemma_log_bounded<T>(log: Seq<T>, x: T)
    requires
        log.len() <= MAX_LOG_ENTRIES,
    ensures
        push_bounded(log, x, MAX_LOG_ENTRIES as nat).len() <= MAX_LOG_ENTRIES,
        push_bounded(log, x, MAX_LOG_ENTRIES as nat).last() == x,
{
}

/// What the header reports about the simulation.
#[derive(Debug, Clone, Copy, PartialEq, Eq, Structural)]
pub enum DashboardStatus {
    Quit,
    Finished,
    Stopped,
    Paused,
    Running,
}

/// The status shown in the header: a quit request first, then a stop (which
/// is a finish once the last tick is reached), then a pause.
pub open spec fn spec_dashboard_status(control: SimControl, current_tick: u64, max_ticks: u64) -> DashboardStatus {
    if control.quit_requested {
        DashboardStatus::Quit
    } else if control.stopped {
        if current_tick >= max_ticks {
            DashboardStatus::Finished
        } else {
            DashboardStatus::Stopped
        }
    } else if control.paused {
        DashboardStatus::Paused
    } else {
        DashboardStatus::Running
    }
}

/// Status of the simulation for the header.
pub fn dashboard_status(control: &SimControl, current_tick: u64, max_ticks: u64) -> (s: DashboardStatus)
    ensures
        s == spec_dashboard_status(*control, current_tick, max_ticks),
{
    if control.quit_requested {
        DashboardStatus::Quit
    } else if control.stopped {
        if current_tick >= max_ticks {
            DashboardStatus::Finished
        } else {
            DashboardStatus::Stopped
        }
    } else if control.paused {
        DashboardStatus::Paused
    } else {
        DashboardStatus::Running
    }
}

impl DashboardStatus {
    /// Label of the status badge.
    pub fn label(self) -> (l: &'static str)
        ensures
            l@ == match self {
                DashboardStatus::Quit => "QUIT"@,
                DashboardStatus::Finished => "FINISHED"@,
                DashboardStatus::Stopped => "STOPPED"@,
                DashboardStatus::Paused => "PAUSED"@,
                DashboardStatus::Running => "RUNNING"@,
            },
    {
        match self {
            DashboardStatus::Quit => "QUIT",
            DashboardStatus::Finished => "FINISHED",
            DashboardStatus::Stopped => "STOPPED",
            DashboardStatus::Paused => "PAUSED",
            DashboardStatus::Running => "RUNNING",
        }
    }
}

/// Label of the pause key in the footer: "Resume" while paused or stopped,
/// "Pause" otherwise.
pub fn pause_key_label(control: &SimControl) -> (l: &'static str)
    ensures
        l@ == if control.paused || control.stopped { "Resume"@ } else { "Pause"@ },
{
    if control.paused || control.stopped {
        "Resume"
    } else {
        "Pause"
    }
}

/// `a - b`, or 0 when `b` exceeds `a`.
pub open spec fn sat_sub(a: int, b: int) -> int {
    if a > b {
        a - b
    } else {
        0
    }
}

/// The part of the log that the log panel shows, with `visible` lines of room:
/// the latest entries when the scroll offset is 0, else the window moved up by
/// the offset (never above the first entry). Returns the index of the first
/// entry shown and how many are shown.
pub fn log_window(total: usize, visible: usize, offset: usize) -> (w: (usize, usize))
    ensures
        w.0 == if offset == 0 {
            sat_sub(total as int, visible as int)
        } else {
            sat_sub(sat_sub(total as int, visible as int), offset as int)
        },
        w.1 == if visible as int <= total - w.0 { visible as int } else { total - w.0 },
        w.0 + w.1 <= total,
        w.1 <= visible,
{
    let max_scroll = if total > visible { total - visible } else { 0 };
    let start = if offset == 0 {
        max_scroll
    } else if max_scroll > offset {
        max_scroll - offset
    } else {
        0
    };
    let left = total - start;
    let shown = if visible <= left { visible } else { left };
    (start, shown)
}

/// Whether the dashboard's log takes an event of kind `k` raised at `tick`:
/// never the resource and military reports (the tables show them), diplomacy
/// reports and terraforming progress every 10 ticks, research and combat
/// reports every 5 ticks, every other kind each time (population and trade
/// reports are further filtered by what they say).
pub open spec fn spec_dashboard_log_due(k: SimulationEventKind, tick: u64) -> bool {
    match k {
        SimulationEventKind::ResourceReport | SimulationEventKind::MilitaryReport => false,
        SimulationEventKind::DiplomacyReport | SimulationEventKind::TerraformingProgress => tick % 10 == 0,
        SimulationEventKind::ResearchReport | SimulationEventKind::CombatReport => tick % 5 == 0,
        _ => true,
    }
}

/// Whether the dashboard's log takes an event of kind `k` raised at `tick`.
pub fn dashboard_log_due(k: SimulationEventKind, tick: u64) -> (due: bool)
    ensures
        due == spec_dashboard_log_due(k, tick),
{
    match k {
        SimulationEventKind::ResourceReport | SimulationEventKind::MilitaryReport => false,
        SimulationEventKind::DiplomacyReport | SimulationEventKind::TerraformingProgress => tick % 10 == 0,
        SimulationEventKind::ResearchReport | SimulationEventKind::CombatReport => tick % 5 == 0,
        _ => true,
    }
}

/// Severity of a log entry by kind: wars and surrenders are critical;
/// starvation, ceasefires and combat are warnings; a random event is graded
/// by its own kind; everything else is information.
pub open spec fn spec_log_severity(k: SimulationEventKind, random_kind: EventKind) -> EventSeverity {
    match k {
        SimulationEventKind::WarDeclared | SimulationEventKind::Surrender => EventSeverity::Critical,
        SimulationEventKind::PopulationReport | SimulationEventKind::Ceasefire
        | SimulationEventKind::CombatReport => EventSeverity::Warning,
        SimulationEventKind::RandomEvent => if random_kind == EventKind::Plague || random_kind == EventKind::Rebellion
            || random_kind == EventKind::EnergyCrisis {
            EventSeverity::Critical
        } else {
            EventSeverity::Warning
        },
        _ => EventSeverity::Info,
    }
}

/// Severity of the log entry for an event of kind `k`; `random_kind` is the
/// kind of a random event and is ignored for other events.
pub fn log_severity(k: SimulationEventKind, random_kind: EventKind) -> (s: EventSeverity)
    ensures
        s == spec_log_severity(k, random_kind),
{
    match k {
        SimulationEventKind::WarDeclared | SimulationEventKind::Surrender => EventSeverity::Critical,
        SimulationEventKind::PopulationReport | SimulationEventKind::Ceasefire
        | SimulationEventKind::CombatReport => EventSeverity::Warning,
        SimulationEventKind::RandomEvent => random_event_severity(random_kind),
        _ => EventSeverity::Info,
    }
}

/// A key as the terminal reports it.
#[derive(Debug, Clone, Copy, PartialEq, Eq, Structural)]
pub enum KeyPress {
    Char(char),
    Enter,
    Esc,
    Backspace,
    Up,
    Down,
    Other,
}

/// The command bound to a key press (`ctrl` tells whether Control was held).
pub open spec fn spec_key_command(key: KeyPress, ctrl: bool) -> TuiKey {
    match key {
        KeyPress::Char(c) => if c == 'q' || c == 'Q' {
            TuiKey::Quit
        } else if c == 'c' && ctrl {
            TuiKey::Interrupt
        } else if c == ' ' || c == 's' || c == 'S' {
            TuiKey::TogglePause
        } else if c == 'n' || c == 'N' {
            TuiKey::Step
        } else if c == '+' || c == '=' {
            TuiKey::Faster
        } else if c == '-' {
            TuiKey::Slower
        } else if c == 'i' || c == 'I' {
            TuiKey::OpenDetail
        } else if c == 'j' || c == 'J' {
            TuiKey::ScrollDown
        } else if c == 'k' || c == 'K' {
            TuiKey::ScrollUp
        } else {
            TuiKey::Other
        },
        KeyPress::Enter => TuiKey::OpenDetail,
        KeyPress::Esc | KeyPress::Backspace => TuiKey::Back,
        KeyPress::Up => TuiKey::Up,
        KeyPress::Down => TuiKey::Down,
        KeyPress::Other => TuiKey::Other,
    }
}

/// The dashboard's key bindings: `q` quits, Ctrl-C interrupts, space or `s`
/// pauses and resumes, `n` steps, `+`/`=` and `-` change the speed, Enter or
/// `i` opens the planet detail, Escape or Backspace goes back, the arrows move
/// the selection and `j`/`k` scroll the log.
pub fn key_command(key: KeyPress, ctrl: bool) -> (k: TuiKey)
    ensures
        k == spec_key_command(key, ctrl),
{
    match key {
        KeyPress::Char(c) => {
            if c == 'q' || c == 'Q' {
                TuiKey::Quit
            } else if c == 'c' && ctrl {
                TuiKey::Interrupt
            } else if c == ' ' || c == 's' || c == 'S' {
                TuiKey::TogglePause
            } else if c == 'n' || c == 'N' {
                TuiKey::Step
            } else if c == '+' || c == '=' {
                TuiKey::Faster
            } else if c == '-' {
                TuiKey::Slower
            } else if c == 'i' || c == 'I' {
                TuiKey::OpenDetail
            } else if c == 'j' || c == 'J' {
                TuiKey::ScrollDown
            } else if c == 'k' || c == 'K' {
                TuiKey::ScrollUp
            } else {
                TuiKey::Other
            }
        },
        KeyPress::Enter => TuiKey::OpenDetail,
        KeyPress::Esc | KeyPress::Backspace => TuiKey::Back,
        KeyPress::Up => TuiKey::Up,
        KeyPress::Down => TuiKey::Down,
        KeyPress::Other => TuiKey::Other,
    }
}

} // verus!

verus! {

/// Quitting: after any key, quitting is requested exactly when it already was
/// or the key is `q` (Quit) or Ctrl-C (Interrupt); those two keys change
/// nothing else, neither the execution control nor the dashboard.
pub proof fn lemma_quit_keys(control: SimControl, state: TuiAppState, key: TuiKey, planet_count: nat)
    ensures
        ({
            let (c, s) = key_effect(control, state, key, planet_count);
            &&& c.quit_requested == (control.quit_requested || key == TuiKey::Quit || key == TuiKey::Interrupt)
            &&& (key == TuiKey::Quit || key == TuiKey::Interrupt) ==> {
                &&& s == state
                &&& c.paused == control.paused
                &&& c.stopped == control.stopped
                &&& c.step_once == control.step_once
                &&& c.speed == control.speed
            }
        }),
        key_effect(control, state, TuiKey::Quit, planet_count) == key_effect(control, state, TuiKey::Interrupt, planet_count),
{
}

/// The pause key resumes a paused or stopped simulation and otherwise pauses
/// and stops it, leaving the dashboard, the speed and any quit request alone.
pub proof fn lemma_pause_key_toggles(control: SimControl, state: TuiAppState, planet_count: nat)
    ensures
        ({
            let (c, s) = key_effect(control, state, TuiKey::TogglePause, planet_count);
            &&& c.paused == !(control.paused || control.stopped)
            &&& c.stopped == !(control.paused || control.stopped)
            &&& c.quit_requested == control.quit_requested
            &&& c.speed == control.speed
            &&& s == state
        }),
{
}

/// Speed keys: a faster key followed by a slower one returns to the same
/// speed except at the fastest setting, and the other way round except at the
/// slowest; the speed keys change nothing but the speed.
pub proof fn lemma_speed_keys(control: SimControl, state: TuiAppState, planet_count: nat)
    ensures
        control.speed != SimSpeed::X10 ==> spec_slower(spec_faster(control.speed)) == control.speed,
        control.speed != SimSpeed::X1 ==> spec_faster(spec_slower(control.speed)) == control.speed,
        spec_faster(SimSpeed::X10) == SimSpeed::X10,
        spec_slower(SimSpeed::X1) == SimSpeed::X1,
        spec_faster(SimSpeed::X1) == SimSpeed::X5,
        key_effect(control, state, TuiKey::Faster, planet_count)
            == (SimControl { speed: spec_faster(control.speed), ..control }, state),
        key_effect(control, state, TuiKey::Slower, planet_count)
            == (SimControl { speed: spec_slower(control.speed), ..control }, state),
{
}

/// Dashboard navigation: the arrow, detail, back and scroll keys never touch
/// the execution control; the selected planet moves by at most one and stays
/// below the planet count when it started there; the detail view opens only
/// from the main view with at least one planet, and back returns to the main
/// view; the step key only asks for one step, and only while paused or
/// stopped with ticks left. (The planet count is a `usize`, as in `handle_key`.)
pub proof fn lemma_navigation_keys(control: SimControl, state: TuiAppState, key: TuiKey, planet_count: nat)
    requires
        planet_count <= usize::MAX,
    ensures
        ({
            let (c, s) = key_effect(control, state, key, planet_count);
            &&& (key == TuiKey::Up || key == TuiKey::Down || key == TuiKey::OpenDetail || key == TuiKey::Back
                || key == TuiKey::ScrollUp || key == TuiKey::ScrollDown || key == TuiKey::Other) ==> c == control
            &&& key == TuiKey::Up ==> s.selected_planet == if state.selected_planet > 0 {
                state.selected_planet - 1
            } else {
                0
            }
            &&& key == TuiKey::Down ==> (s.selected_planet == state.selected_planet
                || s.selected_planet == state.selected_planet + 1)
            &&& key == TuiKey::Down && state.selected_planet < planet_count ==> s.selected_planet < planet_count
            &&& key == TuiKey::Down && state.selected_planet + 1 < planet_count ==> s.selected_planet
                == state.selected_planet + 1
            &&& key == TuiKey::OpenDetail ==> (s.view == TuiView::PlanetDetail <==> (state.view == TuiView::PlanetDetail
                || state.view == TuiView::Main && planet_count > 0))
            &&& key == TuiKey::Back && state.view == TuiView::PlanetDetail ==> s.view == TuiView::Main
            &&& key == TuiKey::Other ==> s == state
            &&& key == TuiKey::Step ==> s == state && c == SimControl {
                step_once: control.step_once || (control.paused || control.stopped)
                    && state.current_tick < state.max_ticks,
                ..control
            }
        }),
{
}

} // verus!
