//! The frame renderer of a surface.
//!
//! The renderer holds no GPU resource itself. It records how many drawing
//! contexts the surface owns and the last known size of the surface, and
//! from these it lays out each frame as plain data.

use crate::frame::{
    common_shape, frame_clear, marker_shape, pass_of, Clear, Frame, ViewportPass,
};
use crate::viewport::VIEWPORT_COUNT;
use vstd::prelude::*;

verus! {

/// Application state shown by the renderer. It carries no data.
#[derive(Clone, Copy, Debug, PartialEq, Eq, Structural)]
pub struct PocUpdate {}

impl PocUpdate {
    /// The application state a window starts with.
    pub fn new() -> (state: Self)
        ensures
            state == (PocUpdate {  }),
    {
        PocUpdate {  }
    }

    /// Applies a message to the state. No message changes it.
    pub fn update(&mut self, message: ())
        ensures
            *final(self) == *old(self),
    {
    }
}

/// Life cycle of a renderer's GPU resources.
#[derive(Clone, Copy, Debug, PartialEq, Eq)]
pub enum RendererPhase {
    /// No drawing context exists yet.
    Uninitialized,
    /// The drawing contexts were created; `contexts` of them exist.
    Finalized { contexts: usize },
}

/// Renderer of one surface.
#[derive(Clone, Copy, Debug, PartialEq, Eq)]
pub struct PocRenderer {
    pub phase: RendererPhase,
    /// Width and height of the surface, in pixels.
    pub size: (u32, u32),
}

impl PocRenderer {
    /// Number of drawing contexts the renderer owns.
    pub open spec fn contexts(self) -> nat {
        match self.phase {
            RendererPhase::Uninitialized => 0,
            RendererPhase::Finalized { contexts } => contexts as nat,
        }
    }

    /// Number of viewports a frame renders: one per drawing context, up to
    /// the number of viewport slots.
    pub open spec fn pass_count(self) -> nat {
        if self.contexts() < VIEWPORT_COUNT {
            self.contexts()
        } else {
            VIEWPORT_COUNT as nat
        }
    }

    /// The passes of a frame drawn in the renderer's current state.
    pub open spec fn passes(self) -> Seq<ViewportPass> {
        Seq::new(self.pass_count(), |slot: int| pass_of(self.size.0, self.size.1, slot))
    }

    /// The renderer once its drawing contexts exist: a renderer that has
    /// none yet gets one per viewport slot, any other stays as it is.
    pub open spec fn finalized(self) -> PocRenderer {
        match self.phase {
            RendererPhase::Uninitialized => PocRenderer {
                phase: RendererPhase::Finalized { contexts: VIEWPORT_COUNT },
                size: self.size,
            },
            RendererPhase::Finalized { .. } => self,
        }
    }

    /// An inert renderer: no drawing context, size zero.
    pub fn init() -> (renderer: Self)
        ensures
            renderer == (PocRenderer { phase: RendererPhase::Uninitialized, size: (0, 0) }),
    {
        PocRenderer { phase: RendererPhase::Uninitialized, size: (0, 0) }
    }

    /// Records that the drawing contexts now exist. Only the first call
    /// has an effect.
    pub fn finalize(&mut self)
        ensures
            *final(self) == old(self).finalized(),
    {
        match self.phase {
            RendererPhase::Uninitialized => {
                self.phase = RendererPhase::Finalized { contexts: VIEWPORT_COUNT };
            },
            RendererPhase::Finalized { .. } => {},
        }
    }

    /// Records the new size of the surface.
    pub fn set_size(&mut self, size: (u32, u32))
        ensures
            *final(self) == (PocRenderer { phase: old(self).phase, size }),
    {
        self.size = size;
    }

    /// Whether the drawing contexts were created.
    pub fn is_finalized(&self) -> (finalized: bool)
        ensures
            finalized == (self.phase is Finalized),
    {
        match self.phase {
            RendererPhase::Uninitialized => false,
            RendererPhase::Finalized { .. } => true,
        }
    }

    /// Number of drawing contexts the renderer owns.
    pub fn context_count(&self) -> (count: usize)
        ensures
            count == self.contexts(),
    {
        match self.phase {
            RendererPhase::Uninitialized => 0,
            RendererPhase::Finalized { contexts } => contexts,
        }
    }

    /// Lays out one frame for the current size: the surface is cleared,
    /// then each viewport that has a drawing context is drawn in turn. The
    /// renderer itself stays as it is.
    pub fn draw_frame(&mut self, _state: &PocUpdate) -> (frame: Frame)
        ensures
            *final(self) == *old(self),
            frame.clear == frame_clear(),
            frame.passes@ == old(self).passes(),
            frame.passes@.len() == old(self).pass_count(),
    {
        let (width, height) = self.size;
        let contexts = self.context_count();
        let count: usize = if contexts < VIEWPORT_COUNT { contexts } else { VIEWPORT_COUNT };
        let mut passes: Vec<ViewportPass> = Vec::new();
        let mut slot: usize = 0;
        while slot < count
            invariant
                slot <= count <= VIEWPORT_COUNT,
                passes@.len() == slot,
                forall|i: int| 0 <= i < slot ==> passes@[i] == pass_of(width, height, i),
            decreases count - slot,
        {
            passes.push(ViewportPass::of(width, height, slot));
            slot = slot + 1;
        }
        Frame { clear: Clear::of_frame(), passes }
    }
}

/// A frame drawn with at least one drawing context shows the first
/// viewport unlike any other: the pass of the first viewport fills the
/// marker shape and then its common shape, the pass of every other slot
/// fills its common shape alone, and the common shapes differ in colour.
pub proof fn lemma_first_viewport_distinguished(renderer: PocRenderer, other: int)
    requires
        renderer.contexts() >= 1,
        1 <= other < VIEWPORT_COUNT,
    ensures
        renderer.passes().len() >= 1,
        renderer.passes()[0] == pass_of(renderer.size.0, renderer.size.1, 0),
        other < renderer.passes().len() ==> renderer.passes()[other] == pass_of(
            renderer.size.0,
            renderer.size.1,
            other,
        ),
        pass_of(renderer.size.0, renderer.size.1, 0).fills() == seq![marker_shape(), common_shape(0)],
        pass_of(renderer.size.0, renderer.size.1, other).fills() == seq![common_shape(other)],
        pass_of(renderer.size.0, renderer.size.1, 0).fills() != pass_of(
            renderer.size.0,
            renderer.size.1,
            other,
        ).fills(),
        pass_of(renderer.size.0, renderer.size.1, 0).commands() != pass_of(
            renderer.size.0,
            renderer.size.1,
            other,
        ).commands(),
        common_shape(0) != common_shape(other),
{
    let first = pass_of(renderer.size.0, renderer.size.1, 0);
    let second = pass_of(renderer.size.0, renderer.size.1, other);
    assert(first.fills().len() == 2);
    assert(second.fills().len() == 1);
    assert(first.commands().len() == 5);
    assert(second.commands().len() == 4);
}

} // verus!
