//! The registry: an ordered, fixed-length table of buttons, built once
//! when the server binds and read-only from then on. A button's identity
//! is its position in this table.

use crate::button::{Button, ButtonView};
use vstd::prelude::*;

verus! {

/// An index-addressed, immutable table of [`Button`]s. It enforces no
/// validity beyond structure: duplicate names and duplicate contents are
/// permitted, and the only way an out-of-range id surfaces is as a `None`
/// from [`Registry::lookup`].
pub struct Registry {
    pub(crate) buttons: Vec<Button>,
}

impl View for Registry {
    type V = Seq<ButtonView>;

    open(crate) spec fn view(&self) -> Seq<ButtonView> {
        self.buttons.deep_view()
    }
}

impl Registry {
    /// Consumes the caller-supplied button list, giving each button its
    /// position as identity. Nothing is rejected.
    pub fn build(buttons: Vec<Button>) -> (r: Registry)
        ensures
            r@ == buttons.deep_view(),
    {
        Registry { buttons }
    }

    /// The number of registered buttons.
    pub fn len(&self) -> (n: usize)
        ensures
            n == self@.len(),
    {
        self.buttons.len()
    }

    /// Position-based lookup: `Some` exactly for ids inside
    /// `[0, registry length)`.
    pub fn lookup(&self, id: usize) -> (r: Option<&Button>)
        ensures
            id < self@.len() ==> (r matches Some(b) && b@ == self@[id as int]),
            id >= self@.len() ==> r is None,
    {
        if id < self.buttons.len() {
            Some(&self.buttons[id])
        } else {
            None
        }
    }
}

} // verus!
