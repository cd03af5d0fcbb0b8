//! The ways a spawn can fail.

use vstd::prelude::*;

verus! {

/// Why a spawn produced no driver.
#[derive(Clone, Copy, Debug, PartialEq, Eq, Structural)]
pub enum Error {
    /// No port could be had for the driver: the port that was asked for is
    /// already bound, or the operating system had none to assign.
    PortUnavailable,
    /// The operating system could not create the driver process.
    SpawnError,
}

} // verus!
