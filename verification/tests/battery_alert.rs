use poweralert::domain::battery_alert::{AlertService, AlertType, LevelReading, ThresholdSide};

/// What the alert rules read of a reading with the given level and thresholds.
fn reading(percentage: f32, is_charging: bool, low_threshold: f32, high_threshold: f32) -> LevelReading {
    LevelReading {
        percent: percentage as i32,
        is_charging,
        at_or_below_low: percentage <= low_threshold,
        at_or_above_high: percentage >= high_threshold,
    }
}

#[test]
fn should_alert_to_connect_at_low_threshold() {
    let alert = AlertService::check_for_alerts(&reading(50.0, false, 50.0, 100.0));
    assert!(alert.is_some());
    assert_eq!(alert.unwrap().alert_type, AlertType::ConnectCharger);
}

#[test]
fn should_not_alert_if_already_charging_at_low_level() {
    let alert = AlertService::check_for_alerts(&reading(40.0, true, 50.0, 100.0));
    assert!(alert.is_none());
}

#[test]
fn should_alert_to_disconnect_at_high_threshold() {
    let alert = AlertService::check_for_alerts(&reading(100.0, true, 50.0, 100.0));
    assert!(alert.is_some());
    assert_eq!(alert.unwrap().alert_type, AlertType::DisconnectCharger);
}

#[test]
fn connect_message_names_the_whole_level() {
    let alert = AlertService::check_for_alerts(&reading(12.9, false, 20.0, 80.0)).unwrap();
    assert_eq!(alert.message, "Batterie faible (12%). Branchez votre chargeur.");
}

#[test]
fn disconnect_message_names_the_whole_level() {
    let alert = AlertService::check_for_alerts(&reading(97.5, true, 20.0, 95.0)).unwrap();
    assert_eq!(alert.alert_type, AlertType::DisconnectCharger);
    assert_eq!(alert.message, "Batterie pleine (97%). Débranchez votre chargeur.");
}

#[test]
fn no_alert_between_thresholds() {
    assert!(AlertService::check_for_alerts(&reading(70.0, false, 50.0, 100.0)).is_none());
    assert!(AlertService::check_for_alerts(&reading(70.0, true, 50.0, 100.0)).is_none());
}

#[test]
fn no_disconnect_alert_on_battery_when_full() {
    assert!(AlertService::check_for_alerts(&reading(100.0, false, 50.0, 100.0)).is_none());
}

#[test]
fn just_above_low_threshold_is_no_alert() {
    assert!(AlertService::check_for_alerts(&reading(50.04, false, 50.0, 100.0)).is_none());
}

#[test]
fn notification_param_names_the_window() {
    assert_eq!(AlertType::DisconnectCharger.notification_param(), "full");
    assert_eq!(AlertType::ConnectCharger.notification_param(), "low");
}

#[test]
fn alert_reports_its_threshold() {
    assert_eq!(AlertType::DisconnectCharger.threshold_side(), ThresholdSide::High);
    assert_eq!(AlertType::ConnectCharger.threshold_side(), ThresholdSide::Low);
}
