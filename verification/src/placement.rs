//! Where the windows go at startup: three windows of one size, spread over
//! the primary display.

use vstd::prelude::*;

verus! {

/// Number of windows opened at startup.
pub const WINDOW_COUNT: usize = 3;

/// Outer position and inner size of a window, in pixels.
#[derive(Clone, Copy, Debug, PartialEq, Eq, Structural)]
pub struct Placement {
    pub x: u32,
    pub y: u32,
    pub width: u32,
    pub height: u32,
}

impl Placement {
    /// Whether the pixel `(px, py)` of the display lies inside the window.
    pub open spec fn contains(self, px: int, py: int) -> bool {
        &&& self.x <= px < self.x + self.width
        &&& self.y <= py < self.y + self.height
    }
}

/// Whether a display of this size is large enough for the windows.
pub open spec fn display_fits(display_width: u32, display_height: u32) -> bool {
    display_width / 2 >= 20 && display_height / 2 >= 50
}

/// The placement of window `index` on a display that is large enough.
/// Every window is 20 pixels narrower than half the display and 50 pixels
/// lower than half of it. The first sits in the upper-left corner, the
/// second beside it, the third below the first.
pub open spec fn placement_of(display_width: u32, display_height: u32, index: int) -> Placement {
    let width = (display_width / 2 - 20) as u32;
    let height = (display_height / 2 - 50) as u32;
    Placement {
        x: if index == 1 { (width + 10) as u32 } else { 2 },
        y: if index == 2 { (height + 50) as u32 } else { 2 },
        width,
        height,
    }
}

/// Computes the placement of window `index`. There is none if the display
/// is too small or if `index` is not below `WINDOW_COUNT`.
pub fn placement(display_width: u32, display_height: u32, index: usize) -> (placed: Option<
    Placement,
>)
    ensures
        placed == (if display_fits(display_width, display_height) && index < WINDOW_COUNT {
            Some(placement_of(display_width, display_height, index as int))
        } else {
            None
        }),
{
    let half_width: u32 = display_width / 2;
    let half_height: u32 = display_height / 2;
    if half_width < 20 || half_height < 50 || index >= WINDOW_COUNT {
        return None;
    }
    let width: u32 = half_width - 20;
    let height: u32 = half_height - 50;
    let x: u32 = if index == 1 { width + 10 } else { 2 };
    let y: u32 = if index == 2 { height + 50 } else { 2 };
    Some(Placement { x, y, width, height })
}

/// On a display that is large enough, every window lies inside the display
/// and no two windows share a pixel.
pub proof fn lemma_placements_apart(
    display_width: u32,
    display_height: u32,
    a: int,
    b: int,
    px: int,
    py: int,
)
    requires
        display_fits(display_width, display_height),
        0 <= a < WINDOW_COUNT,
        0 <= b < WINDOW_COUNT,
        a != b,
    ensures
        placement_of(display_width, display_height, a).x + placement_of(
            display_width,
            display_height,
            a,
        ).width <= display_width,
        placement_of(display_width, display_height, a).y + placement_of(
            display_width,
            display_height,
            a,
        ).height <= display_height,
        !(placement_of(display_width, display_height, a).contains(px, py) && placement_of(
            display_width,
            display_height,
            b,
        ).contains(px, py)),
{
}

} // verus!
