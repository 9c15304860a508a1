//! Errors reported when a timer is registered.

use vstd::prelude::*;

verus! {

/// Why a timer could not be registered.
#[derive(Clone, Copy, Debug, PartialEq, Eq, Structural)]
pub enum ClockError {
    /// The timer name is empty, not ASCII, or all white space.
    InvalidName,
    /// The interval of a repeating timer is zero.
    InvalidInterval,
    /// Neither a handler for the timer nor a default handler is present.
    NoHandlerAvailable,
    /// The timer cannot be built from its parameters (no positive interval,
    /// or a first fire time past the largest timestamp).
    InvalidTimerConfig,
}

} // verus!
