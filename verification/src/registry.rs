//! The surface registry: the one owner of every surface's state.
//!
//! The registry maps a [`SurfaceId`] to its [`SurfaceState`]. A record is
//! created when the host reports the surface opened, and — by the
//! create-on-mutate policy, applied uniformly to every mutating message —
//! also when a mutation arrives for an id that was never opened, so that
//! input arriving before the open notification is not lost. No operation
//! fails or panics; records live until the whole registry is dropped at
//! session end.

use vstd::prelude::*;
use std::collections::HashMap;
use crate::surface::{SurfaceId, SurfaceModel, SurfaceState, default_model, inc_counter, dec_counter};

verus! {

/// The record the registry holds for `id`, or the default record when the
/// id is absent (what the create-on-mutate policy starts from).
pub open spec fn entry_or_default(m: Map<SurfaceId, SurfaceModel>, id: SurfaceId) -> SurfaceModel {
    if m.contains_key(id) {
        m[id]
    } else {
        default_model()
    }
}

/// Effect of opening `id`: a default record appears if the id is absent;
/// an already-open id is left exactly as it is.
pub open spec fn spec_open(m: Map<SurfaceId, SurfaceModel>, id: SurfaceId) -> Map<SurfaceId, SurfaceModel> {
    if m.contains_key(id) {
        m
    } else {
        m.insert(id, default_model())
    }
}

/// Effect of an increment request on `id` (creating the record if absent).
pub open spec fn spec_increment(m: Map<SurfaceId, SurfaceModel>, id: SurfaceId) -> Map<SurfaceId, SurfaceModel> {
    m.insert(id, SurfaceModel {
        counter: inc_counter(entry_or_default(m, id).counter),
        text: entry_or_default(m, id).text,
    })
}

/// Effect of a decrement request on `id` (creating the record if absent).
pub open spec fn spec_decrement(m: Map<SurfaceId, SurfaceModel>, id: SurfaceId) -> Map<SurfaceId, SurfaceModel> {
    m.insert(id, SurfaceModel {
        counter: dec_counter(entry_or_default(m, id).counter),
        text: entry_or_default(m, id).text,
    })
}

/// Effect of a text change on `id`: the new text replaces the old one
/// outright (creating the record if absent).
pub open spec fn spec_set_text(m: Map<SurfaceId, SurfaceModel>, id: SurfaceId, t: Seq<char>) -> Map<SurfaceId, SurfaceModel> {
    m.insert(id, SurfaceModel {
        counter: entry_or_default(m, id).counter,
        text: t,
    })
}

/// Owns the mapping from surface id to surface state. No other component
/// holds a reference into it; readers get snapshots through [`Self::get`].
pub struct SurfaceRegistry {
    map: HashMap<SurfaceId, SurfaceState>,
}

impl View for SurfaceRegistry {
    type V = Map<SurfaceId, SurfaceModel>;

    closed spec fn view(&self) -> Map<SurfaceId, SurfaceModel> {
        Map::new(
            |id: SurfaceId| self.map@.contains_key(id),
            |id: SurfaceId| self.map@[id]@,
        )
    }
}

impl SurfaceRegistry {
    /// An empty registry: no surface has been reported yet.
    pub fn new() -> (r: Self)
        ensures
            r@ == Map::<SurfaceId, SurfaceModel>::empty(),
    {
        let r = SurfaceRegistry { map: HashMap::new() };
        proof {
            assert(r@ =~= Map::<SurfaceId, SurfaceModel>::empty());
        }
        r
    }

    /// Creates a default record for `id` if none exists. Idempotent: an
    /// already-open id keeps its state untouched.
    pub fn open_surface(&mut self, id: SurfaceId)
        ensures
            final(self)@ == spec_open(old(self)@, id),
    {
        if !self.map.contains_key(&id) {
            self.map.insert(id, SurfaceState::new());
            proof {
                assert(self@ =~= spec_open(old(self)@, id));
            }
        }
    }

    /// Read-only snapshot of the state for `id`; `None` for an id the
    /// registry has never seen. Never fails.
    pub fn get(&self, id: SurfaceId) -> (r: Option<&SurfaceState>)
        ensures
            match r {
                Some(s) => self@.contains_key(id) && s@ == self@[id],
                None => !self@.contains_key(id),
            },
    {
        self.map.get(&id)
    }

    /// Applies an increment request to `id`, creating the record first if
    /// the id was never opened.
    pub fn increment(&mut self, id: SurfaceId)
        ensures
            final(self)@ == spec_increment(old(self)@, id),
    {
        let mut s = match self.map.remove(&id) {
            Some(s) => s,
            None => SurfaceState::new(),
        };
        s.increment();
        self.map.insert(id, s);
        proof {
            assert(self@ =~= spec_increment(old(self)@, id));
        }
    }

    /// Applies a decrement request to `id`, creating the record first if
    /// the id was never opened.
    pub fn decrement(&mut self, id: SurfaceId)
        ensures
            final(self)@ == spec_decrement(old(self)@, id),
    {
        let mut s = match self.map.remove(&id) {
            Some(s) => s,
            None => SurfaceState::new(),
        };
        s.decrement();
        self.map.insert(id, s);
        proof {
            assert(self@ =~= spec_decrement(old(self)@, id));
        }
    }

    /// Replaces the text for `id`, creating the record first if the id was
    /// never opened. The last write wins.
    pub fn set_text(&mut self, id: SurfaceId, text: String)
        ensures
            final(self)@ == spec_set_text(old(self)@, id, text@),
    {
        let mut s = match self.map.remove(&id) {
            Some(s) => s,
            None => SurfaceState::new(),
        };
        s.set_text(text);
        self.map.insert(id, s);
        proof {
            assert(self@ =~= spec_set_text(old(self)@, id, text@));
        }
    }
}

} // verus!
