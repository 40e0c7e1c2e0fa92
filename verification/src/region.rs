//! Region selection: the overlay's rectangle geometry and the conversion
//! of a finished drag into a virtual-screen region. The modal overlay
//! window itself is platform work; its geometry decisions live here.

use vstd::prelude::*;

use crate::models::Region;

verus! {

/// A drag below this many pixels on either edge is ignored.
pub const MIN_SELECTION_EDGE_PX: i32 = 5;

/// The bounds a selection is taken against, in virtual-screen
/// coordinates.
#[derive(Debug, Clone, Copy, PartialEq, Eq, Structural)]
pub struct SelectionBounds {
    pub origin_x: i32,
    pub origin_y: i32,
    pub width: u32,
    pub height: u32,
}

/// An overlay rectangle, as the window tracks it.
#[derive(Debug, Clone, Copy, PartialEq, Eq, Structural)]
pub struct OverlayRect {
    pub left: i32,
    pub top: i32,
    pub right: i32,
    pub bottom: i32,
}

/// The rectangle spanned by the drag's start and current points.
pub fn update_rect(start_x: i32, start_y: i32, current_x: i32, current_y: i32) -> (r: OverlayRect)
    ensures
        r.left == if start_x < current_x {
            start_x
        } else {
            current_x
        },
        r.top == if start_y < current_y {
            start_y
        } else {
            current_y
        },
        r.right == if start_x < current_x {
            current_x
        } else {
            start_x
        },
        r.bottom == if start_y < current_y {
            current_y
        } else {
            start_y
        },
{
    OverlayRect {
        left: if start_x < current_x {
            start_x
        } else {
            current_x
        },
        top: if start_y < current_y {
            start_y
        } else {
            current_y
        },
        right: if start_x < current_x {
            current_x
        } else {
            start_x
        },
        bottom: if start_y < current_y {
            current_y
        } else {
            start_y
        },
    }
}

/// Whether a rectangle covers any pixels.
pub open spec fn rect_has_area(r: OverlayRect) -> bool {
    r.right > r.left && r.bottom > r.top
}

pub fn has_area(rect: &OverlayRect) -> (r: bool)
    ensures
        r == rect_has_area(*rect),
{
    rect.right > rect.left && rect.bottom > rect.top
}

/// The intersection of two rectangles, when it has area.
pub fn rect_intersection(a: &OverlayRect, b: &OverlayRect) -> (r: Option<OverlayRect>)
    ensures
        ({
            let left = if a.left > b.left {
                a.left
            } else {
                b.left
            };
            let top = if a.top > b.top {
                a.top
            } else {
                b.top
            };
            let right = if a.right < b.right {
                a.right
            } else {
                b.right
            };
            let bottom = if a.bottom < b.bottom {
                a.bottom
            } else {
                b.bottom
            };
            if right > left && bottom > top {
                r == Some(OverlayRect { left, top, right, bottom })
            } else {
                r is None
            }
        }),
{
    let left = if a.left > b.left {
        a.left
    } else {
        b.left
    };
    let top = if a.top > b.top {
        a.top
    } else {
        b.top
    };
    let right = if a.right < b.right {
        a.right
    } else {
        b.right
    };
    let bottom = if a.bottom < b.bottom {
        a.bottom
    } else {
        b.bottom
    };
    let candidate = OverlayRect { left, top, right, bottom };
    if has_area(&candidate) {
        Some(candidate)
    } else {
        None
    }
}

/// A rectangle grown by `padding` on every side, saturating at the
/// coordinate range.
pub fn expand_rect(rect: &OverlayRect, padding: i32) -> (r: OverlayRect)
    requires
        padding >= 0,
    ensures
        r.left == if rect.left - padding >= i32::MIN {
            rect.left - padding
        } else {
            i32::MIN as int
        },
        r.top == if rect.top - padding >= i32::MIN {
            rect.top - padding
        } else {
            i32::MIN as int
        },
        r.right == if rect.right + padding <= i32::MAX {
            rect.right + padding
        } else {
            i32::MAX as int
        },
        r.bottom == if rect.bottom + padding <= i32::MAX {
            rect.bottom + padding
        } else {
            i32::MAX as int
        },
{
    OverlayRect {
        left: sat_sub_i32(rect.left, padding),
        top: sat_sub_i32(rect.top, padding),
        right: sat_add_i32(rect.right, padding),
        bottom: sat_add_i32(rect.bottom, padding),
    }
}

fn sat_sub_i32(a: i32, b: i32) -> (r: i32)
    requires
        b >= 0,
    ensures
        r == if a - b >= i32::MIN {
            a - b
        } else {
            i32::MIN as int
        },
{
    let wide: i64 = a as i64 - b as i64;
    if wide < i32::MIN as i64 {
        i32::MIN
    } else {
        wide as i32
    }
}

fn sat_add_i32(a: i32, b: i32) -> (r: i32)
    requires
        b >= 0,
    ensures
        r == if a + b <= i32::MAX {
            a + b
        } else {
            i32::MAX as int
        },
{
    let wide: i64 = a as i64 + b as i64;
    if wide > i32::MAX as i64 {
        i32::MAX
    } else {
        wide as i32
    }
}

/// Whether a released drag counts as a selection: both edges at least the
/// minimum.
pub fn selection_large_enough(rect: &OverlayRect) -> (r: bool)
    ensures
        r == (rect.right - rect.left >= MIN_SELECTION_EDGE_PX && rect.bottom - rect.top
            >= MIN_SELECTION_EDGE_PX || rect.left - rect.right >= MIN_SELECTION_EDGE_PX
            && rect.top - rect.bottom >= MIN_SELECTION_EDGE_PX || rect.right - rect.left
            >= MIN_SELECTION_EDGE_PX && rect.top - rect.bottom >= MIN_SELECTION_EDGE_PX
            || rect.left - rect.right >= MIN_SELECTION_EDGE_PX && rect.bottom - rect.top
            >= MIN_SELECTION_EDGE_PX),
{
    let dw: i64 = rect.right as i64 - rect.left as i64;
    let dh: i64 = rect.bottom as i64 - rect.top as i64;
    let aw: i64 = if dw >= 0 {
        dw
    } else {
        -dw
    };
    let ah: i64 = if dh >= 0 {
        dh
    } else {
        -dh
    };
    aw >= MIN_SELECTION_EDGE_PX as i64 && ah >= MIN_SELECTION_EDGE_PX as i64
}

/// The virtual-screen region a finished selection denotes: the rectangle
/// is offset by the virtual-screen origin, clamped at zero, with each
/// edge at least one pixel.
pub fn selection_to_region(virtual_x: i32, virtual_y: i32, rect: &OverlayRect) -> (r: Region)
    requires
        rect.right - rect.left <= u32::MAX,
        rect.bottom - rect.top <= u32::MAX,
    ensures
        r.width == if rect.right - rect.left >= 1 {
            rect.right - rect.left
        } else {
            1int
        },
        r.height == if rect.bottom - rect.top >= 1 {
            rect.bottom - rect.top
        } else {
            1int
        },
        r.x == if virtual_x + rect.left >= 0 {
            virtual_x + rect.left
        } else {
            0int
        },
        r.y == if virtual_y + rect.top >= 0 {
            virtual_y + rect.top
        } else {
            0int
        },
{
    let dw: i64 = rect.right as i64 - rect.left as i64;
    let dh: i64 = rect.bottom as i64 - rect.top as i64;
    let width: u32 = if dw >= 1 {
        dw as u32
    } else {
        1
    };
    let height: u32 = if dh >= 1 {
        dh as u32
    } else {
        1
    };
    let x64: i64 = virtual_x as i64 + rect.left as i64;
    let y64: i64 = virtual_y as i64 + rect.top as i64;
    let x: u32 = if x64 <= 0 {
        0
    } else if x64 > u32::MAX as i64 {
        0
    } else {
        x64 as u32
    };
    let y: u32 = if y64 <= 0 {
        0
    } else if y64 > u32::MAX as i64 {
        0
    } else {
        y64 as u32
    };
    Region { x, y, width, height }
}

pub open spec fn msg_overlay_windows_only() -> Seq<char> {
    "Overlay solo disponible en Windows"@
}

/// Opens the modal selection overlay. The overlay window is a platform
/// surface this portable build does not have.
pub fn select_region() -> (r: Result<Option<Region>, String>)
    ensures
        r matches Err(e) && e@ == msg_overlay_windows_only(),
{
    Err(String::from_str("Overlay solo disponible en Windows"))
}

/// Opens the overlay constrained to the given bounds; unavailable for the
/// same reason.
pub fn select_region_with_bounds(bounds: SelectionBounds) -> (r: Result<Option<Region>, String>)
    ensures
        r matches Err(e) && e@ == msg_overlay_windows_only(),
{
    Err(String::from_str("Overlay solo disponible en Windows"))
}

} // verus!
