use vstd::prelude::*;

verus! {

/// An event delivered to a view along an id path.
#[derive(Clone, Copy, Debug, PartialEq, Eq, Hash, Structural)]
pub enum Event {
    Appear,
    Disappear,
    ToggleChange,
    ButtonAction,
}

/// What a dispatch hands back; the default response means that nothing
/// more is asked of the caller.
#[derive(Clone, Copy, Debug, PartialEq, Eq, Hash, Structural)]
pub struct EventResponse {}

impl EventResponse {
    pub fn none() -> (r: EventResponse)
        ensures
            r == (EventResponse {}),
    {
        EventResponse {}
    }

    /// Joins the responses of two children.
    pub fn combine(self, other: EventResponse) -> (r: EventResponse)
        ensures
            r == (EventResponse {}),
    {
        EventResponse {}
    }
}

impl Default for EventResponse {
    fn default() -> (r: EventResponse)
        ensures
            r == (EventResponse {}),
    {
        EventResponse {}
    }
}

} // verus!
