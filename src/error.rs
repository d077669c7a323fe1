//! Failures of the fan control logic.

use vstd::prelude::*;

verus! {

/// Why a step of the fan control failed.
#[derive(Debug, Clone, Copy, PartialEq, Eq, Structural)]
pub enum MonitorError {
    /// The sensor's text is not a number of the expected shape.
    Parse,
    /// The hardware's one-time initialisation failed, or the pin or mode was
    /// refused.
    Config,
    /// The hardware refused a new duty.
    Actuation,
}

} // verus!
