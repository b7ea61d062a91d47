use vstd::prelude::*;

verus! {

/// The charging states that the monitor distinguishes.
#[derive(Debug, Clone, Copy, PartialEq, Eq, Structural)]
pub enum ChargingState {
    /// The battery is charging.
    Charging,
    /// The battery is discharging (running on battery).
    Discharging,
    /// The battery is full.
    Full,
    /// The state cannot be determined.
    Unknown,
}

impl ChargingState {
    /// Whether the machine draws on an external source in this state: it
    /// does while charging and when the battery is full.
    pub fn is_plugged_in(&self) -> (plugged: bool)
        ensures
            plugged == (*self == ChargingState::Charging || *self == ChargingState::Full),
    {
        match self {
            ChargingState::Charging => true,
            ChargingState::Full => true,
            ChargingState::Discharging => false,
            ChargingState::Unknown => false,
        }
    }
}

} // verus!
