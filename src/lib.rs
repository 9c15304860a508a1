//! Deterministic and live clocks with a registry of named timers.

pub mod correctness;
pub mod error;
pub mod time;
pub mod timer;
pub mod handlers;
pub mod registry;
pub mod test_clock;
pub mod live_clock;
