//! GPS telemetry of the ArDrone3 family.
use vstd::prelude::*;

verus! {

/// GPS state reports from the vehicle.
#[derive(Debug, Clone, Copy, PartialEq, Eq, Structural)]
pub enum GPSState {
    /// How many satellites the vehicle currently sees.
    NumberOfSatelliteChanged(u8),
    HomeTypeAvailabilityChanged,
    HomeTypeChosenChanged,
}

} // verus!
