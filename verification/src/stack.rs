//! A tabbed stack of windows sharing one decoration header; exactly one tab
//! is active (shown and focused).

use vstd::prelude::*;

use crate::toplevel::Toplevel;
use crate::window::HeaderBar;

verus! {

/// An ordered, non-empty sequence of tabs, one of them active, plus one
/// shared decoration header (the tab strip).
#[derive(Debug)]
pub struct CosmicStack {
    pub windows: Vec<Toplevel>,
    pub active: usize,
    pub header: Option<HeaderBar>,
}

impl CosmicStack {
    /// Height of the shared decoration header, 0 when none is attached.
    pub open spec fn header_height(self) -> int {
        match self.header {
            Some(h) => h.height as int,
            None => 0,
        }
    }

    /// The stack is well-formed: it is never empty, the active index points
    /// at a tab, every tab is well-formed, and the header height is
    /// non-negative.
    pub open spec fn wf(self) -> bool {
        &&& self.windows@.len() > 0
        &&& self.active < self.windows@.len()
        &&& forall|i: int| 0 <= i < self.windows@.len() ==> self.windows@[i].wf()
        &&& self.header_height() >= 0
    }

    /// Builds a stack from its tabs; the caller must hand over at least one
    /// tab and a valid active index, as the stack invariant demands.
    pub fn new(windows: Vec<Toplevel>, active: usize, header: Option<HeaderBar>) -> (r: CosmicStack)
        requires
            windows@.len() > 0,
            active < windows@.len(),
        ensures
            r.windows == windows,
            r.active == active,
            r.header == header,
    {
        CosmicStack { windows, active, header }
    }
}

} // verus!
