//! The per-surface data record and its mathematical model.

use vstd::prelude::*;

verus! {

/// Host-assigned identifier of one lock-screen surface. The host creates
/// these and guarantees uniqueness for the surface's lifetime; the core
/// never constructs or interprets one, it is a lookup key only.
pub type SurfaceId = u64;

/// Mathematical value of one surface's interaction state.
pub ghost struct SurfaceModel {
    pub counter: int,
    pub text: Seq<char>,
}

/// The state every surface starts from: counter zero, empty text.
pub open spec fn default_model() -> SurfaceModel {
    SurfaceModel { counter: 0, text: Seq::<char>::empty() }
}

/// Counter increment, saturating at the top of the `i64` range so that no
/// input sequence can make the core panic.
pub open spec fn inc_counter(c: int) -> int {
    if c == i64::MAX { c } else { c + 1 }
}

/// Counter decrement, saturating at the bottom of the `i64` range.
pub open spec fn dec_counter(c: int) -> int {
    if c == i64::MIN { c } else { c - 1 }
}

/// Interaction state of one surface: a signed counter driven by
/// increment/decrement requests and the surface's current text field.
pub struct SurfaceState {
    pub counter: i64,
    pub text: String,
}

impl View for SurfaceState {
    type V = SurfaceModel;

    open spec fn view(&self) -> SurfaceModel {
        SurfaceModel { counter: self.counter as int, text: self.text@ }
    }
}

impl SurfaceState {
    /// The default record a surface holds when it is first created.
    pub fn new() -> (s: Self)
        ensures
            s@ == default_model(),
    {
        SurfaceState { counter: 0, text: String::new() }
    }

    /// Raises the counter by one, saturating instead of overflowing.
    pub fn increment(&mut self)
        ensures
            final(self)@.counter == inc_counter(old(self)@.counter),
            final(self)@.text == old(self)@.text,
    {
        if self.counter < i64::MAX {
            self.counter = self.counter + 1;
        }
    }

    /// Lowers the counter by one, saturating instead of overflowing.
    pub fn decrement(&mut self)
        ensures
            final(self)@.counter == dec_counter(old(self)@.counter),
            final(self)@.text == old(self)@.text,
    {
        if self.counter > i64::MIN {
            self.counter = self.counter - 1;
        }
    }

    /// Replaces the text field; the last write wins.
    pub fn set_text(&mut self, text: String)
        ensures
            final(self)@.counter == old(self)@.counter,
            final(self)@.text == text@,
    {
        self.text = text;
    }
}

} // verus!
