//! Terminal rectangles and the placement arithmetic the popups need.

use vstd::prelude::*;

verus! {

/// A rectangle on the terminal grid, in cells.
#[derive(Clone, Copy, Debug, PartialEq, Eq, Structural)]
pub struct Rect {
    pub x: u16,
    pub y: u16,
    pub width: u16,
    pub height: u16,
}

/// A rectangle that lies on the terminal grid: its far edges still fit the
/// cell coordinates.
pub open spec fn spec_rect_wf(r: Rect) -> bool {
    &&& r.x + r.width <= u16::MAX
    &&& r.y + r.height <= u16::MAX
}

/// A rectangle of the requested size, shrunk to the area where the area is
/// smaller, centered over the area.
pub open spec fn spec_centered_rect(area: Rect, width: u16, height: u16) -> Rect {
    let w = if width <= area.width {
        width
    } else {
        area.width
    };
    let h = if height <= area.height {
        height
    } else {
        area.height
    };
    Rect {
        x: (area.x + (area.width - w) / 2) as u16,
        y: (area.y + (area.height - h) / 2) as u16,
        width: w,
        height: h,
    }
}

/// Center a rectangle of the given size over an area, shrinking it to the
/// area where the area is smaller. The result always lies within the area.
pub fn centered_rect_fixed(area: Rect, width: u16, height: u16) -> (r: Rect)
    requires
        spec_rect_wf(area),
    ensures
        r == spec_centered_rect(area, width, height),
        spec_rect_wf(r),
        area.x <= r.x && r.x + r.width <= area.x + area.width,
        area.y <= r.y && r.y + r.height <= area.y + area.height,
{
    let w = if width <= area.width {
        width
    } else {
        area.width
    };
    let h = if height <= area.height {
        height
    } else {
        area.height
    };
    let x = area.x + (area.width - w) / 2;
    let y = area.y + (area.height - h) / 2;
    Rect { x, y, width: w, height: h }
}

/// The rectangle inside a one-cell border: empty when the border itself does
/// not fit.
pub open spec fn spec_inner_rect(r: Rect) -> Rect {
    if r.width >= 2 && r.height >= 2 {
        Rect { x: (r.x + 1) as u16, y: (r.y + 1) as u16, width: (r.width - 2) as u16, height: (r.height - 2) as u16 }
    } else {
        Rect { x: r.x, y: r.y, width: 0, height: 0 }
    }
}

/// The area left inside a one-cell border around the rectangle.
pub fn inner_rect(r: &Rect) -> (i: Rect)
    requires
        spec_rect_wf(*r),
    ensures
        i == spec_inner_rect(*r),
        spec_rect_wf(i),
{
    if r.width >= 2 && r.height >= 2 {
        Rect { x: r.x + 1, y: r.y + 1, width: r.width - 2, height: r.height - 2 }
    } else {
        Rect { x: r.x, y: r.y, width: 0, height: 0 }
    }
}

} // verus!
