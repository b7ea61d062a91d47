//! Battery monitoring rules: when to ask the user to plug in or unplug the
//! charger, how often the monitor reports, and how the reading history is kept.
pub mod domain;
pub mod application;
pub mod infrastructure;
