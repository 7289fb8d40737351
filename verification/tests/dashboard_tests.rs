use deep_juno::dashboard_labels;
use deep_juno::economy::ResourceType;
use deep_juno::events::EventKind;
use deep_juno::labels;
use deep_juno::technology::TechField;
use deep_juno::tui_state::{
    handle_key, random_event_severity, simulation_running, EventSeverity, SimControl, SimSpeed, TuiAppState, TuiKey,
    TuiView,
};

#[test]
fn speed_steps() {
    assert_eq!(SimSpeed::X1.faster(), SimSpeed::X5);
    assert_eq!(SimSpeed::X5.faster(), SimSpeed::X10);
    assert_eq!(SimSpeed::X10.faster(), SimSpeed::X10);
    assert_eq!(SimSpeed::X10.slower(), SimSpeed::X5);
    assert_eq!(SimSpeed::X1.slower(), SimSpeed::X1);
    assert_eq!(SimSpeed::X5.faster().slower(), SimSpeed::X5);
    assert_eq!(SimSpeed::X10.label(), "x10");
    assert_eq!(SimSpeed::X1.label(), "x1");
}

#[test]
fn run_condition() {
    assert!(simulation_running(None));
    let mut c = SimControl::default();
    assert!(simulation_running(Some(&c)));
    c.paused = true;
    assert!(!simulation_running(Some(&c)));
    c.step_once = true;
    assert!(simulation_running(Some(&c)));
    c.reset_step();
    assert!(!c.step_once);
    assert!(!simulation_running(Some(&c)));
    let mut d = SimControl::default();
    d.halt();
    assert!(d.paused && d.stopped);
}

#[test]
fn log_keeps_the_latest_two_hundred() {
    let mut s = TuiAppState::default();
    for i in 0..205u64 {
        s.push_log(i, format!("entry {}", i), EventSeverity::Info);
    }
    assert_eq!(s.event_log.len(), 200);
    assert_eq!(s.event_log[0].tick, 5);
    assert_eq!(s.event_log[199].tick, 204);
    assert_eq!(s.event_log[199].message, "entry 204");
}

#[test]
fn history_records_only_while_running() {
    let mut s = TuiAppState::default();
    let mut c = SimControl::default();
    for i in 0..120u64 {
        s.record_history(&c, i, 2 * i);
    }
    assert_eq!(s.population_history.len(), 100);
    assert_eq!(s.population_history[0], 20);
    assert_eq!(s.resource_history[99], 238);
    c.paused = true;
    s.record_history(&c, 999, 999);
    assert_eq!(s.population_history[99], 119);
    c.step_once = true;
    s.record_history(&c, 999, 998);
    assert_eq!(s.population_history[99], 999);
    assert_eq!(s.resource_history[99], 998);
}

#[test]
fn keys_toggle_pause_step_and_quit() {
    let mut c = SimControl::default();
    let mut s = TuiAppState::default();
    s.max_ticks = 10;
    handle_key(&mut c, &mut s, TuiKey::Step, 0);
    assert!(!c.step_once, "stepping needs a pause");
    handle_key(&mut c, &mut s, TuiKey::TogglePause, 0);
    assert!(c.paused && c.stopped);
    handle_key(&mut c, &mut s, TuiKey::Step, 0);
    assert!(c.step_once);
    handle_key(&mut c, &mut s, TuiKey::TogglePause, 0);
    assert!(!c.paused && !c.stopped);
    handle_key(&mut c, &mut s, TuiKey::Faster, 0);
    handle_key(&mut c, &mut s, TuiKey::Faster, 0);
    handle_key(&mut c, &mut s, TuiKey::Faster, 0);
    assert_eq!(c.speed, SimSpeed::X10);
    handle_key(&mut c, &mut s, TuiKey::Slower, 0);
    assert_eq!(c.speed, SimSpeed::X5);
    assert!(!c.quit_requested);
    handle_key(&mut c, &mut s, TuiKey::Interrupt, 0);
    assert!(c.quit_requested);
}

#[test]
fn stepping_stops_at_the_last_tick() {
    let mut c = SimControl::default();
    c.paused = true;
    let mut s = TuiAppState::default();
    s.current_tick = 10;
    s.max_ticks = 10;
    handle_key(&mut c, &mut s, TuiKey::Step, 0);
    assert!(!c.step_once);
}

#[test]
fn keys_move_selection_view_and_scroll() {
    let mut c = SimControl::default();
    let mut s = TuiAppState::default();
    handle_key(&mut c, &mut s, TuiKey::OpenDetail, 0);
    assert_eq!(s.view, TuiView::Main, "no planet to show");
    handle_key(&mut c, &mut s, TuiKey::Down, 3);
    handle_key(&mut c, &mut s, TuiKey::Down, 3);
    handle_key(&mut c, &mut s, TuiKey::Down, 3);
    assert_eq!(s.selected_planet, 2);
    handle_key(&mut c, &mut s, TuiKey::Up, 3);
    assert_eq!(s.selected_planet, 1);
    handle_key(&mut c, &mut s, TuiKey::OpenDetail, 3);
    assert_eq!(s.view, TuiView::PlanetDetail);
    handle_key(&mut c, &mut s, TuiKey::Back, 3);
    assert_eq!(s.view, TuiView::Main);
    handle_key(&mut c, &mut s, TuiKey::ScrollDown, 3);
    assert_eq!(s.log_scroll_offset, 0, "empty log");
    s.push_log(1, "a".to_string(), EventSeverity::Info);
    s.push_log(2, "b".to_string(), EventSeverity::Info);
    handle_key(&mut c, &mut s, TuiKey::ScrollDown, 3);
    handle_key(&mut c, &mut s, TuiKey::ScrollDown, 3);
    assert_eq!(s.log_scroll_offset, 1);
    handle_key(&mut c, &mut s, TuiKey::ScrollUp, 3);
    handle_key(&mut c, &mut s, TuiKey::ScrollUp, 3);
    assert_eq!(s.log_scroll_offset, 0);
    handle_key(&mut c, &mut s, TuiKey::Other, 3);
    assert_eq!(s.selected_planet, 1);
}

#[test]
fn random_event_severities() {
    assert_eq!(random_event_severity(EventKind::Plague), EventSeverity::Critical);
    assert_eq!(random_event_severity(EventKind::EnergyCrisis), EventSeverity::Critical);
    assert_eq!(random_event_severity(EventKind::TradeBoom), EventSeverity::Warning);
}

#[test]
fn display_names() {
    assert_eq!(labels::event_kind_name(&EventKind::Plague), "疫病の流行");
    assert_eq!(labels::event_kind_emoji(&EventKind::BountifulHarvest), "🌾");
    assert_eq!(labels::resource_type_name(&ResourceType::Energy), "ｴﾈﾙｷﾞｰ");
    assert_eq!(labels::tech_field_name(&TechField::NuclearFusion), "核融合");
    assert_eq!(dashboard_labels::event_kind_name(&EventKind::Plague), "Epidemic");
    assert_eq!(dashboard_labels::event_kind_emoji(&EventKind::BountifulHarvest), "🍎");
    assert_eq!(dashboard_labels::resource_type_short_name(&ResourceType::ManufacturedGoods), "工");
    assert_eq!(dashboard_labels::tech_field_name(&TechField::SpaceNavigation), "Navigation");
}
