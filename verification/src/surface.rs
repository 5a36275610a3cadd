//! A window surface: one window's renderer, application state and redraw
//! bookkeeping.

use crate::frame::{frame_clear, Frame};
use crate::renderer::{PocRenderer, PocUpdate};
use crate::viewport::{
    covering_slot, layout_rect, lemma_layout_covers, lemma_layout_tiles_even_surface,
    VIEWPORT_COUNT,
};
use vstd::prelude::*;

verus! {

/// Identity of a live window, as assigned by the windowing layer.
#[derive(Clone, Copy, Debug, PartialEq, Eq, Hash, Structural)]
pub struct WindowId {
    pub raw: u64,
}

/// What can go wrong with a window.
#[derive(Clone, Copy, Debug, PartialEq, Eq, Structural)]
pub enum WindowError {
    /// The windowing layer could not provide the window that was asked for.
    WindowCreation,
    /// The identity belongs to no window that is currently tracked.
    UnknownWindow,
    /// The graphics context of the window could not be made current.
    ContextActivation,
}

/// When a surface wants to be redrawn at the end of an event batch.
#[derive(Clone, Copy, Debug, PartialEq, Eq, Structural)]
pub enum RedrawPolicy {
    /// At the end of every batch.
    EveryTick,
    /// Only when it was marked dirty since the last check.
    OnDemand,
}

/// What the windowing layer reports of a window it has just created.
#[derive(Clone, Copy, Debug, PartialEq, Eq, Structural)]
pub struct NativeWindow {
    pub id: WindowId,
    /// Inner width of the window, in pixels.
    pub width: u32,
    /// Inner height of the window, in pixels.
    pub height: u32,
}

/// The drawable side of one window.
#[derive(Clone, Copy, Debug, PartialEq, Eq)]
pub struct Surface {
    pub id: WindowId,
    pub renderer: PocRenderer,
    pub state: PocUpdate,
    pub policy: RedrawPolicy,
    /// Whether the surface was marked dirty since the last redraw check.
    pub dirty: bool,
}

impl Surface {
    /// The surface of a freshly created window: the renderer takes the
    /// window's size and is finalized, a redraw is due at every tick, and
    /// nothing is dirty yet.
    pub open spec fn created(window: NativeWindow, renderer: PocRenderer, state: PocUpdate) -> Surface {
        Surface {
            id: window.id,
            renderer: (PocRenderer {
                phase: renderer.phase,
                size: (window.width, window.height),
            }).finalized(),
            state,
            policy: RedrawPolicy::EveryTick,
            dirty: false,
        }
    }

    /// The surface after its window took a new size.
    pub open spec fn resized(self, width: u32, height: u32) -> Surface {
        Surface {
            renderer: PocRenderer { phase: self.renderer.phase, size: (width, height) },
            ..self
        }
    }

    /// Whether the surface asks for a redraw at the end of the batch.
    pub open spec fn redraw_due(self) -> bool {
        self.policy is EveryTick || self.dirty
    }

    /// The surface once its redraw check was made: no longer dirty.
    pub open spec fn redraw_checked(self) -> Surface {
        Surface { dirty: false, ..self }
    }

    /// Builds the surface of a window that the windowing layer has just
    /// created and whose graphics context is current.
    pub fn new(window: NativeWindow, renderer: PocRenderer, state: PocUpdate) -> (surface: Self)
        ensures
            surface == Surface::created(window, renderer, state),
    {
        let mut renderer = renderer;
        renderer.set_size((window.width, window.height));
        renderer.finalize();
        Surface { id: window.id, renderer, state, policy: RedrawPolicy::EveryTick, dirty: false }
    }

    /// Records the new pixel size of the window. Asks for no redraw.
    pub fn resize(&mut self, width: u32, height: u32)
        ensures
            *final(self) == old(self).resized(width, height),
    {
        self.renderer.set_size((width, height));
    }

    /// Marks the surface as in need of a redraw.
    pub fn mark_dirty(&mut self)
        ensures
            *final(self) == (Surface { dirty: true, ..*old(self) }),
    {
        self.dirty = true;
    }

    /// Chooses when the surface asks for redraws.
    pub fn set_redraw_policy(&mut self, policy: RedrawPolicy)
        ensures
            *final(self) == (Surface { policy, ..*old(self) }),
    {
        self.policy = policy;
    }

    /// Hands a message to the application state and marks the surface dirty.
    pub fn update(&mut self, message: ())
        ensures
            *final(self) == (Surface { dirty: true, ..*old(self) }),
    {
        self.state.update(message);
        self.dirty = true;
    }

    /// Tells whether a redraw is due, and clears the dirty mark.
    pub fn check_and_clear_redraw(&mut self) -> (due: bool)
        ensures
            due == old(self).redraw_due(),
            *final(self) == old(self).redraw_checked(),
    {
        let due = match self.policy {
            RedrawPolicy::EveryTick => true,
            RedrawPolicy::OnDemand => self.dirty,
        };
        self.dirty = false;
        due
    }

    /// Draws the surface. `activated` tells whether the graphics context of
    /// the window could be made current; without it nothing is drawn. The
    /// frame that comes back is to be executed and then presented.
    pub fn draw(&mut self, activated: bool) -> (result: Result<Frame, WindowError>)
        ensures
            *final(self) == *old(self),
            activated ==> (result matches Ok(frame) && frame.clear == frame_clear()
                && frame.passes@ == old(self).renderer.passes()),
            !activated ==> result == Err::<Frame, WindowError>(WindowError::ContextActivation),
    {
        if activated {
            Ok(self.renderer.draw_frame(&self.state))
        } else {
            Err(WindowError::ContextActivation)
        }
    }
}

/// After a resize, whatever drawing contexts the surface has, each viewport
/// it draws is the rectangle that the layout of the new size gives to its
/// slot: half the new width by half the new height, inside the surface.
/// The resize changes neither how many viewports are drawn nor whether a
/// redraw is due.
pub proof fn lemma_resize_then_draw_follows_layout(surface: Surface, width: u32, height: u32)
    ensures
        ({
            let passes = surface.resized(width, height).renderer.passes();
            &&& passes.len() == surface.renderer.pass_count()
            &&& passes.len() <= VIEWPORT_COUNT
            &&& surface.resized(width, height).redraw_due() == surface.redraw_due()
            &&& forall|slot: int|
                0 <= slot < passes.len() ==> {
                    &&& (#[trigger] passes[slot]).viewport == layout_rect(width, height, slot)
                    &&& passes[slot].slot == slot
                    &&& passes[slot].viewport.width == width / 2
                    &&& passes[slot].viewport.height == height / 2
                    &&& passes[slot].viewport.x + passes[slot].viewport.width <= width
                    &&& passes[slot].viewport.y + passes[slot].viewport.height <= height
                }
        }),
{
}

/// After a resize, a surface with a drawing context for every viewport slot
/// draws one viewport per slot, each half the new width by half the new
/// height, and the viewports lie inside the surface without overlapping:
/// every pixel below twice the half-width and twice the half-height lies in
/// exactly one of them, and no other pixel lies in any.
pub proof fn lemma_resize_then_draw_partitions(
    surface: Surface,
    width: u32,
    height: u32,
    px: int,
    py: int,
)
    requires
        surface.renderer.contexts() >= VIEWPORT_COUNT,
    ensures
        ({
            let passes = surface.resized(width, height).renderer.passes();
            &&& passes.len() == VIEWPORT_COUNT
            &&& forall|slot: int|
                0 <= slot < VIEWPORT_COUNT ==> {
                    &&& (#[trigger] passes[slot]).viewport == layout_rect(width, height, slot)
                    &&& passes[slot].viewport.width == width / 2
                    &&& passes[slot].viewport.height == height / 2
                    &&& passes[slot].viewport.x + passes[slot].viewport.width <= width
                    &&& passes[slot].viewport.y + passes[slot].viewport.height <= height
                }
            &&& (0 <= px < 2 * (width / 2) && 0 <= py < 2 * (height / 2)) ==> {
                &&& 0 <= covering_slot(width, height, px, py) < VIEWPORT_COUNT
                &&& passes[covering_slot(width, height, px, py)].viewport.contains(px, py)
                &&& forall|other: int|
                    0 <= other < VIEWPORT_COUNT && other != covering_slot(width, height, px, py)
                        ==> !(#[trigger] passes[other]).viewport.contains(px, py)
            }
            &&& !(0 <= px < 2 * (width / 2) && 0 <= py < 2 * (height / 2)) ==> forall|slot: int|
                0 <= slot < VIEWPORT_COUNT ==> !(#[trigger] passes[slot]).viewport.contains(px, py)
        }),
{
    lemma_layout_covers(width, height, px, py);
}

/// After a resize to an even width and an even height, the viewports that
/// a surface with a drawing context for every slot draws tile the surface:
/// every pixel of the surface lies in exactly one viewport, and the areas
/// of the viewports add up to the area of the surface.
pub proof fn lemma_resize_then_draw_tiles(
    surface: Surface,
    width: u32,
    height: u32,
    px: int,
    py: int,
)
    requires
        surface.renderer.contexts() >= VIEWPORT_COUNT,
        width % 2 == 0,
        height % 2 == 0,
        0 <= px < width,
        0 <= py < height,
    ensures
        ({
            let passes = surface.resized(width, height).renderer.passes();
            let slot = covering_slot(width, height, px, py);
            &&& passes.len() == VIEWPORT_COUNT
            &&& 0 <= slot < VIEWPORT_COUNT
            &&& passes[slot].viewport.contains(px, py)
            &&& forall|other: int|
                0 <= other < VIEWPORT_COUNT && other != slot ==> !(#[trigger] passes[other]).viewport.contains(
                    px,
                    py,
                )
            &&& passes[0].viewport.area() + passes[1].viewport.area() + passes[2].viewport.area()
                + passes[3].viewport.area() == width * height
        }),
{
    lemma_layout_tiles_even_surface(width, height, px, py);
}

} // verus!
