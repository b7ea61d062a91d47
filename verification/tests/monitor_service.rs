use poweralert::application::monitor_service::{
    BatteryMonitorService, MonitorAction, MonitorState, REPORT_INTERVAL_TICKS,
};
use poweralert::domain::battery_alert::{AlertType, LevelReading};

fn reading(percentage: f32, is_charging: bool) -> LevelReading {
    LevelReading {
        percent: percentage as i32,
        is_charging,
        at_or_below_low: percentage <= 50.0,
        at_or_above_high: percentage >= 100.0,
    }
}

#[test]
fn should_process_successful_check() {
    let (last, alert) = BatteryMonitorService::process_check(Ok(reading(75.0, false)), None);
    assert_eq!(last, None);
    assert!(alert.is_none());
}

#[test]
fn should_handle_check_error() {
    let (last, alert) =
        BatteryMonitorService::process_check(Err("Erreur capteur".to_string()), None);
    assert_eq!(last, None);
    assert!(alert.is_none());
}

#[test]
fn should_detect_alert_during_check() {
    let (last, alert) = BatteryMonitorService::process_check(Ok(reading(10.0, false)), None);
    assert_eq!(last, Some(AlertType::ConnectCharger));
    let alert = alert.unwrap();
    assert_eq!(alert.alert_type, AlertType::ConnectCharger);
    assert_eq!(alert.message, "Batterie faible (10%). Branchez votre chargeur.");
}

#[test]
fn check_error_keeps_the_remembered_alert() {
    let (last, alert) = BatteryMonitorService::process_check(
        Err("Erreur capteur".to_string()),
        Some(AlertType::DisconnectCharger),
    );
    assert_eq!(last, Some(AlertType::DisconnectCharger));
    assert!(alert.is_none());
}

#[test]
fn same_alert_is_not_shown_twice() {
    let (last, first) = BatteryMonitorService::process_check_with_info(&reading(30.0, false), None);
    assert!(first.is_some());
    let (last, second) = BatteryMonitorService::process_check_with_info(&reading(29.0, false), last);
    assert!(second.is_none());
    assert_eq!(last, Some(AlertType::ConnectCharger));
}

#[test]
fn alert_is_shown_again_after_a_calm_reading() {
    let (last, _) = BatteryMonitorService::process_check_with_info(&reading(30.0, false), None);
    let (last, calm) = BatteryMonitorService::process_check_with_info(&reading(30.0, true), last);
    assert!(calm.is_none());
    assert_eq!(last, None);
    let (_, again) = BatteryMonitorService::process_check_with_info(&reading(30.0, false), last);
    assert_eq!(again.unwrap().alert_type, AlertType::ConnectCharger);
}

#[test]
fn other_alert_is_shown_at_once() {
    let (last, _) = BatteryMonitorService::process_check_with_info(&reading(30.0, false), None);
    let (last, other) = BatteryMonitorService::process_check_with_info(&reading(100.0, true), last);
    assert_eq!(other.unwrap().alert_type, AlertType::DisconnectCharger);
    assert_eq!(last, Some(AlertType::DisconnectCharger));
}

#[test]
fn first_reading_refreshes() {
    let mut state = MonitorState::new();
    assert_eq!(state.ticks_since_last_report, REPORT_INTERVAL_TICKS);
    assert_eq!(state.on_status(false, false), MonitorAction::Refresh);
    assert_eq!(state.ticks_since_last_report, 0);
    assert_eq!(state.last_plugged_state, Some(false));
}

#[test]
fn quiet_ticks_report_once_a_minute() {
    let mut state = MonitorState::new();
    state.on_status(false, false);
    for _ in 0..239 {
        assert_eq!(state.on_status(false, false), MonitorAction::Wait);
    }
    assert_eq!(state.ticks_since_last_report, 239);
    assert_eq!(state.on_status(false, false), MonitorAction::Report);
    assert_eq!(state.ticks_since_last_report, 0);
}

#[test]
fn plugging_in_is_a_change() {
    let mut state = MonitorState::new();
    state.on_status(false, false);
    assert_eq!(state.on_status(true, false), MonitorAction::Refresh);
    assert_eq!(state.last_plugged_state, Some(true));
}

#[test]
fn measured_change_is_a_change() {
    let mut state = MonitorState::new();
    state.on_status(false, false);
    assert_eq!(state.on_status(false, true), MonitorAction::Refresh);
}

#[test]
fn ticks_keep_the_remembered_alert() {
    let mut state = MonitorState::new();
    state.on_check(&reading(20.0, false));
    state.on_status(false, true);
    state.on_status(false, false);
    assert_eq!(state.on_status_error(), MonitorAction::Wait);
    assert_eq!(state.last_alert_type, Some(AlertType::ConnectCharger));
}

#[test]
fn check_shows_due_alert_once() {
    let mut state = MonitorState::new();
    assert_eq!(state.on_status(false, false), MonitorAction::Refresh);
    let alert = state.on_check(&reading(20.0, false));
    assert_eq!(alert.unwrap().alert_type, AlertType::ConnectCharger);
    assert_eq!(state.last_alert_type, Some(AlertType::ConnectCharger));
    assert_eq!(state.on_status(false, true), MonitorAction::Refresh);
    assert!(state.on_check(&reading(19.0, false)).is_none());
}

#[test]
fn failures_recheck_once_a_minute() {
    let mut state = MonitorState::new();
    assert_eq!(state.on_status_error(), MonitorAction::Recheck);
    for _ in 0..239 {
        assert_eq!(state.on_status_error(), MonitorAction::Wait);
    }
    assert_eq!(state.on_status_error(), MonitorAction::Recheck);
    let alert = state.on_recheck(Ok(reading(100.0, true)));
    assert_eq!(alert.unwrap().alert_type, AlertType::DisconnectCharger);
    assert_eq!(state.last_alert_type, Some(AlertType::DisconnectCharger));
    assert_eq!(state.last_plugged_state, None);
}

#[test]
fn failed_recheck_keeps_state() {
    let mut state = MonitorState::new();
    state.on_status(false, false);
    state.on_check(&reading(20.0, false));
    let before = state;
    let alert = state.on_recheck(Err("Erreur capteur".to_string()));
    assert!(alert.is_none());
    assert_eq!(state, before);
}
