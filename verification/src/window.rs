//! A single application window together with its optional decoration header.

use vstd::prelude::*;

use crate::toplevel::Toplevel;

verus! {

/// A compositor-drawn decoration bar placed above window content.
#[derive(Clone, Copy, Debug, PartialEq, Eq, Structural)]
pub struct HeaderBar {
    /// Identity of the drawable the bar is rendered from.
    pub id: u64,
    /// Height of the bar in logical coordinates.
    pub height: i32,
}

/// A single window: exactly one [`Toplevel`] plus an optional decoration
/// header whose height offsets the content downwards.
#[derive(Debug)]
pub struct CosmicWindow {
    pub window: Toplevel,
    pub header: Option<HeaderBar>,
}

impl CosmicWindow {
    /// Height of the decoration header, 0 when none is attached.
    pub open spec fn header_height(self) -> int {
        match self.header {
            Some(h) => h.height as int,
            None => 0,
        }
    }

    /// The window is well-formed: its sizes are non-negative and so is the
    /// header height.
    pub open spec fn wf(self) -> bool {
        &&& self.window.wf()
        &&& self.header_height() >= 0
    }

    /// Wraps a bare window without decoration.
    pub fn new(window: Toplevel) -> (r: CosmicWindow)
        ensures
            r.window == window,
            r.header is None,
    {
        CosmicWindow { window, header: None }
    }
}

} // verus!
