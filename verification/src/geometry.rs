//! Plain logical/physical geometry values used throughout the shell.

use vstd::prelude::*;

verus! {

/// A two-dimensional coordinate.
#[derive(Clone, Copy, Debug, PartialEq, Eq, Structural)]
pub struct Point {
    pub x: i32,
    pub y: i32,
}

/// A two-dimensional extent.
#[derive(Clone, Copy, Debug, PartialEq, Eq, Structural)]
pub struct Size {
    pub w: i32,
    pub h: i32,
}

/// An axis-aligned rectangle, as a location plus an extent.
#[derive(Clone, Copy, Debug, PartialEq, Eq, Structural)]
pub struct Rectangle {
    pub loc: Point,
    pub size: Size,
}

/// Per-axis scale factor applied when logical coordinates are mapped to
/// physical pixels.
#[derive(Clone, Copy, Debug, PartialEq, Eq, Structural)]
pub struct Scale {
    pub x: i32,
    pub y: i32,
}

impl Size {
    /// Both extents are non-negative.
    pub open spec fn non_negative(self) -> bool {
        self.w >= 0 && self.h >= 0
    }
}

/// Component-wise maximum of two extents.
pub open spec fn size_max_spec(a: Size, b: Size) -> Size {
    Size {
        w: if a.w >= b.w {
            a.w
        } else {
            b.w
        },
        h: if a.h >= b.h {
            a.h
        } else {
            b.h
        },
    }
}

/// Computes the component-wise maximum of two extents.
pub fn size_max(a: Size, b: Size) -> (r: Size)
    ensures
        r == size_max_spec(a, b),
{
    Size { w: if a.w >= b.w { a.w } else { b.w }, h: if a.h >= b.h { a.h } else { b.h } }
}

} // verus!
