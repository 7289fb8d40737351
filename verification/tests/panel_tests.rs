use deep_juno::diplomacy::trade_links;
use deep_juno::environment::{atmosphere_color, atmosphere_type_name, AtmosphereType};
use deep_juno::events::EventKind;
use deep_juno::simulation_event::{console_report_due, SimulationEventKind};
use deep_juno::tui_state::{
    dashboard_log_due, dashboard_status, key_command, log_severity, log_window, pause_key_label, DashboardStatus,
    EventSeverity, KeyPress, SimControl, TuiKey,
};

#[test]
fn header_status_follows_control() {
    let mut c = SimControl::default();
    assert_eq!(dashboard_status(&c, 3, 50), DashboardStatus::Running);
    assert_eq!(dashboard_status(&c, 3, 50).label(), "RUNNING");
    c.paused = true;
    assert_eq!(dashboard_status(&c, 3, 50), DashboardStatus::Paused);
    c.stopped = true;
    assert_eq!(dashboard_status(&c, 3, 50), DashboardStatus::Stopped);
    assert_eq!(dashboard_status(&c, 50, 50), DashboardStatus::Finished);
    assert_eq!(dashboard_status(&c, 50, 50).label(), "FINISHED");
    c.quit_requested = true;
    assert_eq!(dashboard_status(&c, 50, 50).label(), "QUIT");
}

#[test]
fn pause_key_label_reflects_state() {
    let mut c = SimControl::default();
    assert_eq!(pause_key_label(&c), "Pause");
    c.stopped = true;
    assert_eq!(pause_key_label(&c), "Resume");
}

#[test]
fn log_window_shows_latest_by_default() {
    assert_eq!(log_window(0, 10, 0), (0, 0));
    assert_eq!(log_window(5, 10, 0), (0, 5));
    assert_eq!(log_window(25, 10, 0), (15, 10));
    assert_eq!(log_window(25, 10, 3), (12, 10));
    assert_eq!(log_window(25, 10, 40), (0, 10));
    assert_eq!(log_window(5, 10, 2), (0, 5));
    assert_eq!(log_window(25, 0, 0), (25, 0));
}

#[test]
fn atmosphere_colors_and_names() {
    assert_eq!(atmosphere_color(AtmosphereType::EarthLike), "#2288CC");
    assert_eq!(atmosphere_color(AtmosphereType::CarbonDioxide), "#DDAA55");
    assert_eq!(atmosphere_color(AtmosphereType::Thin), "#CC5544");
    assert_eq!(atmosphere_color(AtmosphereType::Toxic), "#88CC44");
    assert_eq!(atmosphere_color(AtmosphereType::NoAtmosphere), "#888888");
    assert_eq!(atmosphere_type_name(AtmosphereType::NoAtmosphere), "None");
    assert_eq!(atmosphere_type_name(AtmosphereType::CarbonDioxide), "CarbonDioxide");
}

#[test]
fn trade_links_count_both_directions() {
    let routes = vec![(1u64, 2u64), (2, 1), (1, 1), (1, 3), (2, 1)];
    assert_eq!(trade_links(&routes, 1, 2), 3);
    assert_eq!(trade_links(&routes, 2, 1), 3);
    assert_eq!(trade_links(&routes, 1, 3), 1);
    assert_eq!(trade_links(&routes, 1, 1), 0);
    assert_eq!(trade_links(&routes, 2, 3), 0);
    assert_eq!(trade_links(&Vec::new(), 1, 2), 0);
}

#[test]
fn console_prints_periodic_reports_on_their_cadence() {
    assert!(console_report_due(SimulationEventKind::ResourceReport, 20));
    assert!(!console_report_due(SimulationEventKind::ResourceReport, 25));
    assert!(console_report_due(SimulationEventKind::CombatReport, 25));
    assert!(!console_report_due(SimulationEventKind::CombatReport, 12));
    assert!(console_report_due(SimulationEventKind::ResearchReport, 50));
    assert!(!console_report_due(SimulationEventKind::ResearchReport, 40));
    assert!(console_report_due(SimulationEventKind::WarDeclared, 7));
    assert!(console_report_due(SimulationEventKind::RandomEvent, 13));
    assert!(console_report_due(SimulationEventKind::TerraformingPhaseComplete, 3));
}

#[test]
fn dashboard_log_cadence() {
    assert!(!dashboard_log_due(SimulationEventKind::ResourceReport, 10));
    assert!(!dashboard_log_due(SimulationEventKind::MilitaryReport, 10));
    assert!(dashboard_log_due(SimulationEventKind::DiplomacyReport, 30));
    assert!(!dashboard_log_due(SimulationEventKind::DiplomacyReport, 35));
    assert!(dashboard_log_due(SimulationEventKind::ResearchReport, 35));
    assert!(!dashboard_log_due(SimulationEventKind::CombatReport, 36));
    assert!(dashboard_log_due(SimulationEventKind::PopulationReport, 37));
    assert!(dashboard_log_due(SimulationEventKind::Surrender, 41));
}

#[test]
fn dashboard_log_severities() {
    assert_eq!(log_severity(SimulationEventKind::WarDeclared, EventKind::Plague), EventSeverity::Critical);
    assert_eq!(log_severity(SimulationEventKind::Surrender, EventKind::TradeBoom), EventSeverity::Critical);
    assert_eq!(log_severity(SimulationEventKind::Ceasefire, EventKind::Plague), EventSeverity::Warning);
    assert_eq!(log_severity(SimulationEventKind::PopulationReport, EventKind::Plague), EventSeverity::Warning);
    assert_eq!(log_severity(SimulationEventKind::RandomEvent, EventKind::Rebellion), EventSeverity::Critical);
    assert_eq!(log_severity(SimulationEventKind::RandomEvent, EventKind::BabyBoom), EventSeverity::Warning);
    assert_eq!(log_severity(SimulationEventKind::TechLevelUp, EventKind::Plague), EventSeverity::Info);
    assert_eq!(log_severity(SimulationEventKind::WorldInitialized, EventKind::Plague), EventSeverity::Info);
}

fn shareable<T: Send + Sync + 'static>() -> bool {
    true
}

#[test]
fn library_values_can_cross_threads() {
    assert!(shareable::<deep_juno::events::EventKind>());
    assert!(shareable::<deep_juno::economy::ResourceType>());
    assert!(shareable::<deep_juno::technology::TechId>());
    assert!(shareable::<deep_juno::technology::TechnologyState>());
    assert!(shareable::<deep_juno::nation_index::NationPlanetIndex>());
    assert!(shareable::<deep_juno::tui_state::TuiAppState>());
    assert!(shareable::<deep_juno::tui_state::SimControl>());
    assert!(shareable::<deep_juno::tick::CurrentTick>());
}

#[test]
fn key_bindings() {
    assert_eq!(key_command(KeyPress::Char('q'), false), TuiKey::Quit);
    assert_eq!(key_command(KeyPress::Char('Q'), true), TuiKey::Quit);
    assert_eq!(key_command(KeyPress::Char('c'), true), TuiKey::Interrupt);
    assert_eq!(key_command(KeyPress::Char('c'), false), TuiKey::Other);
    assert_eq!(key_command(KeyPress::Char(' '), false), TuiKey::TogglePause);
    assert_eq!(key_command(KeyPress::Char('S'), false), TuiKey::TogglePause);
    assert_eq!(key_command(KeyPress::Char('n'), false), TuiKey::Step);
    assert_eq!(key_command(KeyPress::Char('='), false), TuiKey::Faster);
    assert_eq!(key_command(KeyPress::Char('-'), false), TuiKey::Slower);
    assert_eq!(key_command(KeyPress::Char('I'), false), TuiKey::OpenDetail);
    assert_eq!(key_command(KeyPress::Enter, false), TuiKey::OpenDetail);
    assert_eq!(key_command(KeyPress::Esc, false), TuiKey::Back);
    assert_eq!(key_command(KeyPress::Backspace, false), TuiKey::Back);
    assert_eq!(key_command(KeyPress::Up, false), TuiKey::Up);
    assert_eq!(key_command(KeyPress::Down, false), TuiKey::Down);
    assert_eq!(key_command(KeyPress::Char('j'), false), TuiKey::ScrollDown);
    assert_eq!(key_command(KeyPress::Char('K'), false), TuiKey::ScrollUp);
    assert_eq!(key_command(KeyPress::Char('x'), false), TuiKey::Other);
    assert_eq!(key_command(KeyPress::Other, true), TuiKey::Other);
}
