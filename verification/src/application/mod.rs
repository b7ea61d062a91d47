pub mod monitor_service;
