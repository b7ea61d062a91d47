pub mod battery_adapter;
