//! The rectangle that the embedded surface occupies, in whole physical
//! pixels: either the whole viewport of the host, or the rectangle of the
//! host control that stands for the surface.

use vstd::prelude::*;

verus! {

/// A position on screen.
#[derive(Clone, Copy, Debug, PartialEq, Eq, Structural)]
pub struct Point {
    pub x: i32,
    pub y: i32,
}

/// An extent.
#[derive(Clone, Copy, Debug, PartialEq, Eq, Structural)]
pub struct Size {
    pub width: u32,
    pub height: u32,
}

/// A rectangle: the position of its top left corner, and its extent.
#[derive(Clone, Copy, Debug, PartialEq, Eq, Structural)]
pub struct Bounds {
    pub position: Point,
    pub size: Size,
}

/// What the host reports of its layout: the size of its viewport and the
/// rectangle of the control on screen.
#[derive(Clone, Copy, Debug, PartialEq, Eq, Structural)]
pub struct Layout {
    pub viewport: Size,
    pub control: Bounds,
}

/// The rectangle of the surface: in full-window mode the viewport from its
/// origin, else the rectangle of the control.
pub open spec fn bounds_of(full_window: bool, layout: Layout) -> Bounds {
    if full_window {
        Bounds { position: Point { x: 0, y: 0 }, size: layout.viewport }
    } else {
        layout.control
    }
}

/// Computes the rectangle of the surface.
pub fn compute_bounds(full_window: bool, layout: &Layout) -> (bounds: Bounds)
    ensures
        bounds == bounds_of(full_window, *layout),
{
    if full_window {
        Bounds { position: Point { x: 0, y: 0 }, size: layout.viewport }
    } else {
        layout.control
    }
}

} // verus!
