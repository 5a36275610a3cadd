//! Partition of a drawable surface into a fixed grid of viewports.

use vstd::prelude::*;

verus! {

/// Number of viewport slots a surface is divided into.
pub const VIEWPORT_COUNT: usize = 4;

/// An axis-aligned rectangle of pixels, anchored at its lower-left corner.
#[derive(Clone, Copy, Debug, PartialEq, Eq, Structural)]
pub struct Viewport {
    pub x: u32,
    pub y: u32,
    pub width: u32,
    pub height: u32,
}

impl Viewport {
    /// Whether the pixel `(px, py)` lies inside this rectangle.
    pub open spec fn contains(self, px: int, py: int) -> bool {
        &&& self.x <= px < self.x + self.width
        &&& self.y <= py < self.y + self.height
    }

    /// Number of pixels the rectangle covers.
    pub open spec fn area(self) -> int {
        self.width * self.height
    }
}

/// The rectangle assigned to viewport slot `slot` on a surface of
/// `width` by `height` pixels: the surface is quartered, slot 0 is the
/// upper-left quarter, slot 1 the upper-right, slot 2 the lower-left and
/// slot 3 the lower-right, with the origin in the lower-left corner.
pub open spec fn layout_rect(width: u32, height: u32, slot: int) -> Viewport {
    let half_w = (width / 2) as u32;
    let half_h = (height / 2) as u32;
    Viewport {
        x: if slot == 1 || slot == 3 { half_w } else { 0 },
        y: if slot == 0 || slot == 1 { half_h } else { 0 },
        width: half_w,
        height: half_h,
    }
}

/// The full layout of a surface: one rectangle per viewport slot.
pub open spec fn layout_of(width: u32, height: u32) -> Seq<Viewport> {
    Seq::new(VIEWPORT_COUNT as nat, |slot: int| layout_rect(width, height, slot))
}

/// Computes the rectangle of one viewport slot.
pub fn viewport_rect(width: u32, height: u32, slot: usize) -> (rect: Viewport)
    requires
        slot < VIEWPORT_COUNT,
    ensures
        rect == layout_rect(width, height, slot as int),
        rect.x + rect.width <= width,
        rect.y + rect.height <= height,
        rect.x <= i32::MAX && rect.y <= i32::MAX,
        rect.width <= i32::MAX && rect.height <= i32::MAX,
{
    let half_w: u32 = width / 2;
    let half_h: u32 = height / 2;
    let x: u32 = if slot == 1 || slot == 3 { half_w } else { 0 };
    let y: u32 = if slot == 0 || slot == 1 { half_h } else { 0 };
    Viewport { x, y, width: half_w, height: half_h }
}

/// Computes the layout of a whole surface.
pub fn layout(width: u32, height: u32) -> (rects: Vec<Viewport>)
    ensures
        rects@ == layout_of(width, height),
{
    let mut rects: Vec<Viewport> = Vec::new();
    let mut slot: usize = 0;
    while slot < VIEWPORT_COUNT
        invariant
            slot <= VIEWPORT_COUNT,
            rects@.len() == slot,
            forall|i: int| 0 <= i < slot ==> rects@[i] == layout_rect(width, height, i),
        decreases VIEWPORT_COUNT - slot,
    {
        rects.push(viewport_rect(width, height, slot));
        slot = slot + 1;
    }
    rects
}

/// The slot whose rectangle holds the pixel `(px, py)`, for a pixel inside
/// the area that the layout covers.
pub open spec fn covering_slot(width: u32, height: u32, px: int, py: int) -> int {
    if py >= height / 2 {
        if px < width / 2 { 0 } else { 1 }
    } else {
        if px < width / 2 { 2 } else { 3 }
    }
}

/// Every rectangle of the layout lies inside the surface and measures half
/// the surface in each direction, rounded down.
pub proof fn lemma_layout_within_surface(width: u32, height: u32, slot: int)
    requires
        0 <= slot < VIEWPORT_COUNT,
    ensures
        layout_rect(width, height, slot).width == width / 2,
        layout_rect(width, height, slot).height == height / 2,
        layout_rect(width, height, slot).x + layout_rect(width, height, slot).width <= width,
        layout_rect(width, height, slot).y + layout_rect(width, height, slot).height <= height,
{
}

/// No two rectangles of the layout share a pixel, whatever the surface size.
pub proof fn lemma_layout_disjoint(width: u32, height: u32, a: int, b: int, px: int, py: int)
    requires
        0 <= a < VIEWPORT_COUNT,
        0 <= b < VIEWPORT_COUNT,
        a != b,
    ensures
        !(layout_rect(width, height, a).contains(px, py) && layout_rect(width, height, b).contains(
            px,
            py,
        )),
{
}

/// The layout covers exactly the pixels below twice the half-width and
/// twice the half-height: each of them lies in the rectangle of
/// `covering_slot` and in no other, and no rectangle holds any other pixel.
pub proof fn lemma_layout_covers(width: u32, height: u32, px: int, py: int)
    ensures
        (0 <= px < 2 * (width / 2) && 0 <= py < 2 * (height / 2)) ==> {
            let slot = covering_slot(width, height, px, py);
            &&& 0 <= slot < VIEWPORT_COUNT
            &&& layout_rect(width, height, slot).contains(px, py)
            &&& forall|other: int|
                0 <= other < VIEWPORT_COUNT && other != slot ==> !(#[trigger] layout_rect(
                    width,
                    height,
                    other,
                )).contains(px, py)
        },
        forall|slot: int|
            0 <= slot < VIEWPORT_COUNT && (#[trigger] layout_rect(width, height, slot)).contains(
                px,
                py,
            ) ==> 0 <= px < 2 * (width / 2) && 0 <= py < 2 * (height / 2),
{
}

/// On a surface of even width and even height the layout tiles the whole
/// surface: every pixel of the surface lies in exactly one rectangle, and
/// the four areas add up to the area of the surface.
pub proof fn lemma_layout_tiles_even_surface(width: u32, height: u32, px: int, py: int)
    requires
        width % 2 == 0,
        height % 2 == 0,
        0 <= px < width,
        0 <= py < height,
    ensures
        0 <= covering_slot(width, height, px, py) < VIEWPORT_COUNT,
        layout_rect(width, height, covering_slot(width, height, px, py)).contains(px, py),
        forall|other: int|
            0 <= other < VIEWPORT_COUNT && other != covering_slot(width, height, px, py) ==> !(
            #[trigger] layout_rect(width, height, other)).contains(px, py),
        layout_rect(width, height, 0).area() + layout_rect(width, height, 1).area() + layout_rect(
            width,
            height,
            2,
        ).area() + layout_rect(width, height, 3).area() == width * height,
{
    lemma_layout_covers(width, height, px, py);
    assert(4 * ((width / 2) * (height / 2)) == width * height) by (nonlinear_arith)
        requires
            width % 2 == 0,
            height % 2 == 0,
    ;
}

} // verus!
