//! The event-loop object: one registry, one session phase, one dispatch
//! entry point.
//!
//! The per-process lifecycle is `Uninitialized → Running → Unlocking →
//! Terminated`. `Uninitialized` precedes construction and `Terminated`
//! follows the host tearing every surface down, so the manager itself only
//! ever inhabits [`SessionPhase::Running`] and [`SessionPhase::Unlocking`].
//! The first unlock request moves the phase to `Unlocking` and is the only
//! one answered with [`Action::RequestUnlock`]; the core keeps processing
//! registry messages afterwards but never asks the host to unlock again.

use vstd::prelude::*;
use crate::surface::{SurfaceId, SurfaceModel, SurfaceState};
use crate::registry::SurfaceRegistry;
use crate::message::{Message, step};
use crate::router::{HostEvent, route, spec_route};

verus! {

/// Where the session stands from the core's point of view.
#[derive(Debug, Clone, Copy, PartialEq, Eq, Structural)]
pub enum SessionPhase {
    /// The registry exists (possibly with zero surfaces) and messages are
    /// applied normally.
    Running,
    /// An unlock request has been forwarded to the host; terminal for the
    /// core, which makes no further promise beyond keeping state intact.
    Unlocking,
}

/// What the caller must do with the host after one dispatch.
#[derive(Debug, Clone, Copy, PartialEq, Eq, Structural)]
pub enum Action {
    /// Nothing to forward; keep delivering events.
    Continue,
    /// Call the host session controller's single unlock request, once.
    RequestUnlock,
}

/// Mathematical value of the whole manager: the session phase and the
/// model of every surface's state.
pub ghost struct ManagerModel {
    pub phase: SessionPhase,
    pub surfaces: Map<SurfaceId, SurfaceModel>,
}

/// Effect of dispatching one message: the manager's next model and the
/// action handed back to the host layer. Only the first unlock request
/// (seen in the `Running` phase) is answered with `RequestUnlock`.
pub open spec fn spec_dispatch(m: ManagerModel, msg: Message) -> (ManagerModel, Action) {
    match msg {
        Message::UnlockRequested => (
            ManagerModel { phase: SessionPhase::Unlocking, surfaces: m.surfaces },
            if m.phase == SessionPhase::Running {
                Action::RequestUnlock
            } else {
                Action::Continue
            },
        ),
        _ => (
            ManagerModel { phase: m.phase, surfaces: step(m.surfaces, msg) },
            Action::Continue,
        ),
    }
}

/// Owns the registry exclusively and drives it from the single-threaded
/// event loop: every message is fully applied before the next one.
pub struct SessionManager {
    registry: SurfaceRegistry,
    phase: SessionPhase,
}

impl View for SessionManager {
    type V = ManagerModel;

    closed spec fn view(&self) -> ManagerModel {
        ManagerModel { phase: self.phase, surfaces: self.registry@ }
    }
}

impl SessionManager {
    /// A fresh manager: running, with no surface reported yet.
    pub fn new() -> (mgr: Self)
        ensures
            mgr@.phase == SessionPhase::Running,
            mgr@.surfaces == Map::<SurfaceId, SurfaceModel>::empty(),
    {
        SessionManager { registry: SurfaceRegistry::new(), phase: SessionPhase::Running }
    }

    /// Applies one message: mutations and open notifications go to the
    /// registry, raw host events are ignored, and an unlock request is
    /// answered with [`Action::RequestUnlock`] exactly when it is the
    /// first one.
    pub fn dispatch(&mut self, msg: Message) -> (a: Action)
        ensures
            final(self)@ == spec_dispatch(old(self)@, msg).0,
            a == spec_dispatch(old(self)@, msg).1,
    {
        match msg {
            Message::IncrementRequested(id) => {
                self.registry.increment(id);
                Action::Continue
            },
            Message::DecrementRequested(id) => {
                self.registry.decrement(id);
                Action::Continue
            },
            Message::TextChanged(id, text) => {
                self.registry.set_text(id, text);
                Action::Continue
            },
            Message::SurfaceOpened(id) => {
                self.registry.open_surface(id);
                Action::Continue
            },
            Message::RawHostEvent => Action::Continue,
            Message::UnlockRequested => {
                let first = self.phase == SessionPhase::Running;
                self.phase = SessionPhase::Unlocking;
                if first {
                    Action::RequestUnlock
                } else {
                    Action::Continue
                }
            },
        }
    }

    /// Classifies one host event and dispatches the resulting message.
    pub fn handle_host_event(&mut self, ev: HostEvent) -> (a: Action)
        ensures
            final(self)@ == spec_dispatch(old(self)@, spec_route(ev)).0,
            a == spec_dispatch(old(self)@, spec_route(ev)).1,
    {
        let msg = route(ev);
        self.dispatch(msg)
    }

    /// Read-only snapshot of one surface's state, for a render pass;
    /// `None` for an id the registry has never seen. Never fails.
    pub fn render(&self, id: SurfaceId) -> (r: Option<&SurfaceState>)
        ensures
            match r {
                Some(s) => self@.surfaces.contains_key(id) && s@ == self@.surfaces[id],
                None => !self@.surfaces.contains_key(id),
            },
    {
        self.registry.get(id)
    }

    /// The session phase the core currently stands in.
    pub fn phase(&self) -> (p: SessionPhase)
        ensures
            p == self@.phase,
    {
        self.phase
    }
}

} // verus!
