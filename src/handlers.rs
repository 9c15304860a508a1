//! Event handlers and the pairing of an event with its handler.

use vstd::prelude::*;

use crate::timer::TimeEvent;

verus! {

/// An opaque reference to a callback of the surrounding application.
#[derive(Clone, Copy, Debug, PartialEq, Eq, Structural)]
pub struct EventHandler {
    /// Identifies the callback among those the application registered.
    pub id: u64,
}

/// A fired event together with the handler that should process it.
#[derive(Debug)]
pub struct TimeEventHandler {
    pub event: TimeEvent,
    pub handler: EventHandler,
}

/// Pairs `event` with `handler`.
pub fn create_time_event_handler(event: TimeEvent, handler: &EventHandler) -> (r: TimeEventHandler)
    ensures
        r.event == event,
        r.handler == *handler,
{
    TimeEventHandler { event, handler: *handler }
}

} // verus!
