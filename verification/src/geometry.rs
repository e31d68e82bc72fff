//! Rectangles in device pixels and bounds in logical units.

use vstd::prelude::*;

verus! {

/// The DPI at which one device pixel is one logical unit.
pub const BASE_DPI: u32 = 96;

/// A rectangle in device pixels, given by its edges.
#[derive(Clone, Copy, Debug, PartialEq, Eq, Structural)]
pub struct Rect {
    pub left: i32,
    pub top: i32,
    pub right: i32,
    pub bottom: i32,
}

impl Rect {
    /// The rectangle with all four edges at the origin.
    pub open spec fn origin() -> Rect {
        Rect { left: 0, top: 0, right: 0, bottom: 0 }
    }

    /// The left edge is not right of the right edge, nor the top below the bottom.
    pub open spec fn is_ordered(self) -> bool {
        self.left <= self.right && self.top <= self.bottom
    }
}

impl Default for Rect {
    /// The rectangle with all four edges at the origin.
    fn default() -> (rect: Rect)
        ensures
            rect == Rect::origin(),
    {
        Rect { left: 0, top: 0, right: 0, bottom: 0 }
    }
}

/// A position and size in logical units, kept exactly.
///
/// The four measures are counts of device pixels taken at `dpi`; the logical
/// value of each is the count times [`BASE_DPI`] over `dpi`. Keeping the pair
/// instead of the quotient loses nothing to rounding: the one who draws
/// divides.
#[derive(Clone, Copy, Debug, PartialEq, Eq, Structural)]
pub struct Bounds {
    pub x: i64,
    pub y: i64,
    pub width: i64,
    pub height: i64,
    pub dpi: u32,
}

/// The DPI that a reported value stands for: a report of zero means that the
/// system cannot tell, and stands for [`BASE_DPI`].
pub open spec fn effective_dpi(reported: u32) -> u32 {
    if reported == 0 {
        BASE_DPI
    } else {
        reported
    }
}

impl Bounds {
    /// The bounds that stand for "no such rectangle".
    pub open spec fn zero() -> Bounds {
        Bounds { x: 0, y: 0, width: 0, height: 0, dpi: BASE_DPI }
    }

    /// All four measures are zero.
    pub open spec fn is_zero(self) -> bool {
        self.x == 0 && self.y == 0 && self.width == 0 && self.height == 0
    }

    /// The divisor is usable.
    pub open spec fn well_formed(self) -> bool {
        self.dpi > 0
    }

    /// The bounds of a monitor: its rectangle as it is, at the base DPI.
    pub open spec fn of_monitor(rect: Rect) -> Bounds {
        Bounds {
            x: rect.left as i64,
            y: rect.top as i64,
            width: (rect.right - rect.left) as i64,
            height: (rect.bottom - rect.top) as i64,
            dpi: BASE_DPI,
        }
    }

    /// The bounds of a window: its rectangle at the window's DPI, with a
    /// position left of or above the origin moved onto it.
    pub open spec fn of_window(rect: Rect, reported_dpi: u32) -> Bounds {
        Bounds {
            x: if rect.left < 0 { 0 } else { rect.left as i64 },
            y: if rect.top < 0 { 0 } else { rect.top as i64 },
            width: (rect.right - rect.left) as i64,
            height: (rect.bottom - rect.top) as i64,
            dpi: effective_dpi(reported_dpi),
        }
    }

    /// Whether position and size are all zero, as they are in the bounds that
    /// stand for "no such rectangle".
    pub fn is_none(&self) -> (none: bool)
        ensures
            none == self.is_zero(),
    {
        self.x == 0 && self.y == 0 && self.width == 0 && self.height == 0
    }

    /// The bounds of a monitor with the rectangle `rect`.
    pub fn monitor(rect: Rect) -> (bounds: Bounds)
        ensures
            bounds == Bounds::of_monitor(rect),
            bounds.well_formed(),
            rect.is_ordered() ==> bounds.width >= 0 && bounds.height >= 0,
    {
        let left: i64 = rect.left as i64;
        let top: i64 = rect.top as i64;
        let right: i64 = rect.right as i64;
        let bottom: i64 = rect.bottom as i64;
        Bounds { x: left, y: top, width: right - left, height: bottom - top, dpi: BASE_DPI }
    }

    /// The bounds of a window with the rectangle `rect`, on a display whose
    /// DPI the system reports as `reported_dpi`.
    pub fn window(rect: Rect, reported_dpi: u32) -> (bounds: Bounds)
        ensures
            bounds == Bounds::of_window(rect, reported_dpi),
            bounds.well_formed(),
            bounds.x >= 0 && bounds.y >= 0,
            rect.is_ordered() ==> bounds.width >= 0 && bounds.height >= 0,
    {
        let left: i64 = rect.left as i64;
        let top: i64 = rect.top as i64;
        let right: i64 = rect.right as i64;
        let bottom: i64 = rect.bottom as i64;
        Bounds {
            x: if left < 0 { 0 } else { left },
            y: if top < 0 { 0 } else { top },
            width: right - left,
            height: bottom - top,
            dpi: if reported_dpi == 0 { BASE_DPI } else { reported_dpi },
        }
    }
}

impl Default for Bounds {
    /// The bounds that stand for "no such rectangle".
    fn default() -> (bounds: Bounds)
        ensures
            bounds == Bounds::zero(),
    {
        Bounds { x: 0, y: 0, width: 0, height: 0, dpi: BASE_DPI }
    }
}

} // verus!
