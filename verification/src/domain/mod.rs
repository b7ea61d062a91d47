pub mod battery_alert;
pub mod battery_analytics;
pub mod battery_status;
pub mod decimal;
