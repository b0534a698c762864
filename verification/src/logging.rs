//! The sink that turns log events into calls to the logging backend.

use vstd::prelude::*;
use crate::emission::{Emission, EmissionView};
use crate::events::LoggingEvents;

verus! {

/// A sink which maps the events of this crate into calls to a pluggable
/// logging backend. It holds no state: any two of them are interchangeable.
#[derive(Clone, Copy, Debug)]
pub struct Logging {}

impl Logging {
    /// Builds an empty sink; the backend is configured elsewhere.
    pub fn new() -> (l: Self)
        ensures
            l == (Logging {}),
    {
        Logging {}
    }

    /// The call that the backend is to receive for `input`: one for each
    /// event, whatever the sink has been sent before. Every event can be
    /// sent, with or without a location: nothing is asked of it, and no
    /// outcome stands for a failure.
    pub fn send<'a>(&self, input: &'a LoggingEvents) -> (e: Emission<'a>)
        ensures
            e@ == input@,
            e@.wf(),
    {
        input.log()
    }
}

/// The emissions that a producer causes by sending `events` one after another.
pub open spec fn emissions(events: Seq<LoggingEvents>) -> Seq<EmissionView>
    decreases events.len(),
{
    if events.len() == 0 {
        Seq::empty()
    } else {
        emissions(events.drop_last()).push(events.last()@)
    }
}

/// Sending keeps the order: the backend is to receive as many calls as there
/// were events, and the call at each place is that of the event at that place.
pub proof fn emissions_keep_order(events: Seq<LoggingEvents>)
    ensures
        emissions(events).len() == events.len(),
        forall|i: int| 0 <= i < events.len() ==> (#[trigger] emissions(events)[i]) == events[i]@,
    decreases events.len(),
{
    if events.len() > 0 {
        emissions_keep_order(events.drop_last());
    }
}

} // verus!
