//! The internal message protocol and its effect on the registry model.

use vstd::prelude::*;
use crate::surface::{SurfaceId, SurfaceModel};
use crate::registry::{spec_open, spec_increment, spec_decrement, spec_set_text};

verus! {

/// The closed set of messages the core dispatches. Messages are ephemeral:
/// constructed, applied once, discarded — never stored.
#[derive(Debug, Clone)]
pub enum Message {
    /// A user asked to raise the counter of one surface.
    IncrementRequested(SurfaceId),
    /// A user asked to lower the counter of one surface.
    DecrementRequested(SurfaceId),
    /// A user replaced the text of one surface with the given string.
    TextChanged(SurfaceId, String),
    /// Any host event the core does not interpret. Its payload stays with
    /// the host layer; the core forwards it untouched and unchanged state.
    RawHostEvent,
    /// The host reported that a new lock-screen surface exists.
    SurfaceOpened(SurfaceId),
    /// A user asked to end the session lock (from any surface).
    UnlockRequested,
}

/// The surface a message mutates or opens; `None` for the messages that
/// touch no surface state.
pub open spec fn msg_target(msg: Message) -> Option<SurfaceId> {
    match msg {
        Message::IncrementRequested(id) => Some(id),
        Message::DecrementRequested(id) => Some(id),
        Message::TextChanged(id, _) => Some(id),
        Message::SurfaceOpened(id) => Some(id),
        Message::RawHostEvent => None,
        Message::UnlockRequested => None,
    }
}

/// Whether a message mutates surface state (as opposed to opening a
/// surface, carrying an opaque host event, or requesting unlock).
pub open spec fn is_mutation(msg: Message) -> bool {
    match msg {
        Message::IncrementRequested(_) => true,
        Message::DecrementRequested(_) => true,
        Message::TextChanged(_, _) => true,
        _ => false,
    }
}

/// Effect of one message on the registry model. Raw host events and the
/// unlock request leave every record untouched; mutations follow the
/// create-on-mutate policy uniformly.
pub open spec fn step(m: Map<SurfaceId, SurfaceModel>, msg: Message) -> Map<SurfaceId, SurfaceModel> {
    match msg {
        Message::IncrementRequested(id) => spec_increment(m, id),
        Message::DecrementRequested(id) => spec_decrement(m, id),
        Message::TextChanged(id, t) => spec_set_text(m, id, t@),
        Message::SurfaceOpened(id) => spec_open(m, id),
        Message::RawHostEvent => m,
        Message::UnlockRequested => m,
    }
}

} // verus!
