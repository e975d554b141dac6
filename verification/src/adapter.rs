//! The boundary that turns decoded DBC messages into the canonical state.

use vstd::prelude::*;
use crate::decoded::DecodedCanMessage;
use crate::vehicle_state::VehicleState;

verus! {

/// A read-only state translator for one manufacturer and platform.
pub trait ManufacturerAdapter {
    type Error;

    /// Applies one decoded DBC message to the state.
    fn apply(&mut self, message: &DecodedCanMessage) -> Result<(), Self::Error>;

    /// The current canonical vehicle state.
    fn vehicle_state(&self) -> &VehicleState;
}

} // verus!
