use vstd::prelude::*;

use crate::domain::battery_status::ChargingState;

verus! {

/// The states that the system reports for a battery cell.
#[derive(Debug, Clone, Copy, PartialEq, Eq, Structural)]
pub enum CellState {
    Unknown,
    Charging,
    Discharging,
    Empty,
    Full,
}

/// Access to the system's battery.
#[derive(Debug, Clone, Copy, PartialEq, Eq, Structural)]
pub struct BatteryAdapter;

impl BatteryAdapter {
    /// A new adapter.
    pub fn new() -> (adapter: Self)
        ensures
            adapter == BatteryAdapter,
    {
        BatteryAdapter
    }

    /// The charging state that the monitor sees for a cell state: charging,
    /// discharging and full are kept; an empty cell, like an unknown one,
    /// counts as unknown.
    pub fn charging_state(cell: CellState) -> (state: ChargingState)
        ensures
            cell == CellState::Charging ==> state == ChargingState::Charging,
            cell == CellState::Discharging ==> state == ChargingState::Discharging,
            cell == CellState::Full ==> state == ChargingState::Full,
            (cell == CellState::Empty || cell == CellState::Unknown) ==> state
                == ChargingState::Unknown,
    {
        match cell {
            CellState::Charging => ChargingState::Charging,
            CellState::Discharging => ChargingState::Discharging,
            CellState::Full => ChargingState::Full,
            CellState::Empty => ChargingState::Unknown,
            CellState::Unknown => ChargingState::Unknown,
        }
    }
}

} // verus!
