//! Placement of overlays on the screen.

use vstd::prelude::*;

verus! {

/// A rectangle of terminal cells.
#[derive(Debug, Clone, Copy, PartialEq, Eq, Structural)]
pub struct Area {
    pub x: u16,
    pub y: u16,
    pub width: u16,
    pub height: u16,
}

pub open spec fn min_int(a: int, b: int) -> int {
    if a <= b {
        a
    } else {
        b
    }
}

pub open spec fn sat_sub(a: int, b: int) -> int {
    if a >= b {
        a - b
    } else {
        0
    }
}

/// An overlay of at most `width` × `height` cells, centred in `area` and
/// leaving a margin of two cells on each side where the area is small.
pub open spec fn spec_centered(area: Area, width: u16, height: u16) -> Area {
    let w = min_int(width as int, sat_sub(area.width as int, 4));
    let h = min_int(height as int, sat_sub(area.height as int, 4));
    Area {
        x: (area.x + (area.width - w) / 2) as u16,
        y: (area.y + (area.height - h) / 2) as u16,
        width: w as u16,
        height: h as u16,
    }
}

/// Places an overlay of at most `width` × `height` cells in the middle of `area`.
pub fn centered(area: Area, width: u16, height: u16) -> (r: Area)
    requires
        area.x + area.width <= u16::MAX,
        area.y + area.height <= u16::MAX,
    ensures
        r == spec_centered(area, width, height),
        r.x + r.width <= area.x + area.width,
        r.y + r.height <= area.y + area.height,
{
    let max_w = area.width.saturating_sub(4);
    let max_h = area.height.saturating_sub(4);
    let w = if width <= max_w {
        width
    } else {
        max_w
    };
    let h = if height <= max_h {
        height
    } else {
        max_h
    };
    let x = area.x + (area.width - w) / 2;
    let y = area.y + (area.height - h) / 2;
    Area { x, y, width: w, height: h }
}

} // verus!
