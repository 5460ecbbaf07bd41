//! Classification of host-delivered events into internal messages.
//!
//! The host layer subscribes to the windowing/session-lock event stream,
//! reduces each event to a [`HostEvent`], and hands it to [`route`]. Two
//! projections are combined: a filter that recognises "surface opened"
//! notifications, and a pass-through that wraps every other event as
//! [`Message::RawHostEvent`]. Dispatch is synchronous: the caller applies
//! each routed message fully before classifying the next event.

use vstd::prelude::*;
use crate::surface::SurfaceId;
use crate::message::Message;

verus! {

/// What the core needs to know about one host event: either a new surface
/// was opened, or the event is opaque and carries no meaning for the core
/// (its payload stays with the host layer, uninterpreted).
#[derive(Debug, Clone)]
pub enum HostEvent {
    /// The host opened a new lock-screen surface with the given id.
    Opened(SurfaceId),
    /// Any other host event; the core never reads its contents.
    Other,
}

/// The message a host event is classified into.
pub open spec fn spec_route(ev: HostEvent) -> Message {
    match ev {
        HostEvent::Opened(id) => Message::SurfaceOpened(id),
        HostEvent::Other => Message::RawHostEvent,
    }
}

/// Projects one host event onto the internal message set: an open
/// notification becomes [`Message::SurfaceOpened`], everything else is
/// wrapped as [`Message::RawHostEvent`].
pub fn route(ev: HostEvent) -> (m: Message)
    ensures
        m == spec_route(ev),
{
    match ev {
        HostEvent::Opened(id) => Message::SurfaceOpened(id),
        HostEvent::Other => Message::RawHostEvent,
    }
}

} // verus!
