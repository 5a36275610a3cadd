//! A frame as data, and its execution command by command.
//!
//! A frame says how the surface is cleared and holds one pass per
//! viewport. Whoever owns the GPU clears the surface, starts a
//! [`FrameRun`], and then executes what `next` hands out, reporting to
//! `advance` whether the graphics layer accepted each command. A refused
//! command ends the pass of its viewport only: the run goes on with the
//! next viewport.

use crate::viewport::{layout_rect, viewport_rect, Viewport, VIEWPORT_COUNT};
use vstd::prelude::*;

verus! {

/// Pixel density every drawing frame is begun with.
pub const PIXEL_DENSITY: u32 = 1;

/// An opaque colour, one byte per channel.
#[derive(Clone, Copy, Debug, PartialEq, Eq, Structural)]
pub struct Color {
    pub r: u8,
    pub g: u8,
    pub b: u8,
}

/// A filled rectangle, in the coordinates of the drawing frame it is
/// drawn in.
#[derive(Clone, Copy, Debug, PartialEq, Eq, Structural)]
pub struct Shape {
    pub x: u32,
    pub y: u32,
    pub width: u32,
    pub height: u32,
    pub color: Color,
}

/// How the surface is cleared before any viewport is drawn.
#[derive(Clone, Copy, Debug, PartialEq, Eq, Structural)]
pub struct Clear {
    /// Colour that the colour buffer is filled with.
    pub color: Color,
    /// Whether the depth buffer is cleared too.
    pub depth: bool,
    /// Whether the stencil buffer is cleared too.
    pub stencil: bool,
}

/// The clearing that opens every frame: the whole surface turns black, and
/// depth and stencil are cleared along with the colour.
pub open spec fn frame_clear() -> Clear {
    Clear { color: Color { r: 0, g: 0, b: 0 }, depth: true, stencil: true }
}

/// The shape that only the first viewport draws, ahead of its common shape.
pub open spec fn marker_shape() -> Shape {
    Shape { x: 0, y: 0, width: 10, height: 10, color: Color { r: 0, g: 255, b: 0 } }
}

/// The fill colour of the common shape in viewport `slot`.
pub open spec fn slot_color(slot: int) -> Color {
    if slot == 0 {
        Color { r: 0, g: 100, b: 255 }
    } else if slot == 1 {
        Color { r: 0, g: 255, b: 100 }
    } else if slot == 2 {
        Color { r: 100, g: 100, b: 0 }
    } else {
        Color { r: 255, g: 100, b: 0 }
    }
}

/// The shape every viewport draws, coloured by its slot.
pub open spec fn common_shape(slot: int) -> Shape {
    Shape { x: 10, y: 10, width: 50, height: 50, color: slot_color(slot) }
}

/// The pass of viewport `slot` on a surface of `width` by `height` pixels.
pub open spec fn pass_of(width: u32, height: u32, slot: int) -> ViewportPass {
    ViewportPass {
        slot: slot as usize,
        viewport: layout_rect(width, height, slot),
        marker: if slot == 0 {
            Some(marker_shape())
        } else {
            None
        },
        shape: common_shape(slot),
    }
}

impl Clear {
    /// The clearing that opens every frame.
    pub fn of_frame() -> (clear: Clear)
        ensures
            clear == frame_clear(),
    {
        Clear { color: Color { r: 0, g: 0, b: 0 }, depth: true, stencil: true }
    }
}

impl Color {
    /// The fill colour of the common shape in viewport `slot`.
    pub fn of_slot(slot: usize) -> (color: Color)
        ensures
            color == slot_color(slot as int),
    {
        if slot == 0 {
            Color { r: 0, g: 100, b: 255 }
        } else if slot == 1 {
            Color { r: 0, g: 255, b: 100 }
        } else if slot == 2 {
            Color { r: 100, g: 100, b: 0 }
        } else {
            Color { r: 255, g: 100, b: 0 }
        }
    }
}

impl Shape {
    /// The shape that tells the first viewport from the others.
    pub fn marker() -> (shape: Shape)
        ensures
            shape == marker_shape(),
    {
        Shape { x: 0, y: 0, width: 10, height: 10, color: Color { r: 0, g: 255, b: 0 } }
    }

    /// The shape that viewport `slot` has in common with the others.
    pub fn common(slot: usize) -> (shape: Shape)
        ensures
            shape == common_shape(slot as int),
    {
        Shape { x: 10, y: 10, width: 50, height: 50, color: Color::of_slot(slot) }
    }
}

/// One call into the graphics layer.
#[derive(Clone, Copy, Debug, PartialEq, Eq)]
pub enum DrawCommand {
    /// Confine rendering to `rect`.
    BindViewport { rect: Viewport },
    /// Begin a drawing frame of `width` by `height` on drawing context
    /// `slot`, with its transform reset.
    BeginFrame { slot: usize, width: u32, height: u32, density: u32 },
    /// Fill `shape` on drawing context `slot`.
    Fill { slot: usize, shape: Shape },
    /// End the drawing frame of drawing context `slot`.
    EndFrame { slot: usize },
}

/// Everything drawn into one viewport during a frame.
#[derive(Clone, Copy, Debug, PartialEq, Eq)]
pub struct ViewportPass {
    /// Index of the viewport, and of the drawing context that renders it.
    pub slot: usize,
    /// The part of the surface the pass is confined to.
    pub viewport: Viewport,
    /// The extra shape drawn first, if this viewport has one.
    pub marker: Option<Shape>,
    /// The shape drawn in every viewport.
    pub shape: Shape,
}

impl ViewportPass {
    /// The shapes the pass fills, in drawing order.
    pub open spec fn fills(self) -> Seq<Shape> {
        match self.marker {
            Some(marker) => seq![marker, self.shape],
            None => seq![self.shape],
        }
    }

    /// The commands that carry out the pass, in order: the viewport is
    /// bound, a drawing frame of the size of the viewport is begun, the
    /// shapes are filled, and the drawing frame is ended.
    pub open spec fn commands(self) -> Seq<DrawCommand> {
        let bind = DrawCommand::BindViewport { rect: self.viewport };
        let begin = DrawCommand::BeginFrame {
            slot: self.slot,
            width: self.viewport.width,
            height: self.viewport.height,
            density: PIXEL_DENSITY,
        };
        let fill = DrawCommand::Fill { slot: self.slot, shape: self.shape };
        let end = DrawCommand::EndFrame { slot: self.slot };
        match self.marker {
            Some(marker) => seq![
                bind,
                begin,
                DrawCommand::Fill { slot: self.slot, shape: marker },
                fill,
                end,
            ],
            None => seq![bind, begin, fill, end],
        }
    }

    /// Lays out the pass of viewport `slot` on a surface of `width` by
    /// `height` pixels.
    pub fn of(width: u32, height: u32, slot: usize) -> (pass: ViewportPass)
        requires
            slot < VIEWPORT_COUNT,
        ensures
            pass == pass_of(width, height, slot as int),
    {
        ViewportPass {
            slot,
            viewport: viewport_rect(width, height, slot),
            marker: if slot == 0 {
                Some(Shape::marker())
            } else {
                None
            },
            shape: Shape::common(slot),
        }
    }

    /// The command at position `step` of the pass, if the pass is that long.
    pub fn command_at(&self, step: usize) -> (command: Option<DrawCommand>)
        ensures
            step < self.commands().len() ==> command == Some(self.commands()[step as int]),
            step >= self.commands().len() ==> command.is_none(),
    {
        let fill = DrawCommand::Fill { slot: self.slot, shape: self.shape };
        let end = DrawCommand::EndFrame { slot: self.slot };
        if step == 0 {
            Some(DrawCommand::BindViewport { rect: self.viewport })
        } else if step == 1 {
            Some(
                DrawCommand::BeginFrame {
                    slot: self.slot,
                    width: self.viewport.width,
                    height: self.viewport.height,
                    density: PIXEL_DENSITY,
                },
            )
        } else {
            match self.marker {
                Some(marker) => {
                    if step == 2 {
                        Some(DrawCommand::Fill { slot: self.slot, shape: marker })
                    } else if step == 3 {
                        Some(fill)
                    } else if step == 4 {
                        Some(end)
                    } else {
                        None
                    }
                },
                None => {
                    if step == 2 {
                        Some(fill)
                    } else if step == 3 {
                        Some(end)
                    } else {
                        None
                    }
                },
            }
        }
    }
}

/// A frame laid out as data: the clearing of the surface and the viewport
/// passes that follow it.
#[derive(Debug, PartialEq, Eq)]
pub struct Frame {
    /// How the whole surface is cleared first.
    pub clear: Clear,
    /// The viewport passes, by slot.
    pub passes: Vec<ViewportPass>,
}

/// A draw command that the graphics layer refused, and the viewport whose
/// pass it ended.
#[derive(Clone, Copy, Debug, PartialEq, Eq)]
pub struct RenderError {
    pub viewport: usize,
    pub command: DrawCommand,
}

/// How far the execution of a frame has come.
pub struct RunState {
    /// The passes of the frame.
    pub passes: Seq<ViewportPass>,
    /// Index of the pass being executed; the number of passes once all are over.
    pub pass: nat,
    /// Index of the next command within that pass.
    pub step: nat,
    /// The failures so far, oldest first.
    pub errors: Seq<RenderError>,
}

impl RunState {
    /// The state in which the execution of `passes` begins.
    pub open spec fn initial(passes: Seq<ViewportPass>) -> RunState {
        RunState { passes, pass: 0, step: 0, errors: Seq::empty() }
    }

    /// Whether every pass has been executed or given up.
    pub open spec fn finished(self) -> bool {
        self.pass >= self.passes.len()
    }

    /// Whether the position points at a command of the frame or just past
    /// its last pass, and no more failures are recorded than passes were
    /// left behind.
    pub open spec fn well_formed(self) -> bool {
        &&& self.errors.len() <= self.pass
        &&& if self.pass < self.passes.len() {
            self.step < self.passes[self.pass as int].commands().len()
        } else {
            self.pass == self.passes.len() && self.step == 0
        }
    }

    /// The command to execute next, if any is left.
    pub open spec fn next_command(self) -> Option<DrawCommand> {
        if self.pass < self.passes.len() && self.step < self.passes[self.pass as int].commands().len() {
            Some(self.passes[self.pass as int].commands()[self.step as int])
        } else {
            None
        }
    }

    /// The state after the next command was executed, `ok` telling whether
    /// the graphics layer accepted it. An accepted command leads to the
    /// following one. A refused command is recorded, the rest of its pass is
    /// dropped, and execution goes on with the next viewport. With no
    /// command left the state stays as it is.
    pub open spec fn advanced(self, ok: bool) -> RunState {
        match self.next_command() {
            None => self,
            Some(command) => {
                let current = self.passes[self.pass as int];
                if ok && self.step + 1 < current.commands().len() {
                    RunState { step: self.step + 1, ..self }
                } else {
                    RunState {
                        pass: self.pass + 1,
                        step: 0,
                        errors: if ok {
                            self.errors
                        } else {
                            self.errors.push(RenderError { viewport: current.slot, command })
                        },
                        ..self
                    }
                }
            },
        }
    }

    /// An upper bound on the number of commands still to execute.
    pub open spec fn budget(self) -> int {
        (self.passes.len() - self.pass) * 5 - self.step
    }

    /// The state after as many steps as `outcomes` is long, the outcome of
    /// each step taken from `outcomes` in order.
    pub open spec fn after(self, outcomes: Seq<bool>) -> RunState
        decreases outcomes.len(),
    {
        if outcomes.len() == 0 {
            self
        } else {
            self.after(outcomes.drop_last()).advanced(outcomes.last())
        }
    }
}

/// The execution of one frame, command by command.
pub struct FrameRun {
    passes: Vec<ViewportPass>,
    pass: usize,
    step: usize,
    errors: Vec<RenderError>,
}

impl View for FrameRun {
    type V = RunState;

    closed spec fn view(&self) -> RunState {
        RunState {
            passes: self.passes@,
            pass: self.pass as nat,
            step: self.step as nat,
            errors: self.errors@,
        }
    }
}

impl Frame {
    /// Starts executing the frame at the first command of its first pass.
    pub fn start(self) -> (run: FrameRun)
        ensures
            run@ == RunState::initial(self.passes@),
    {
        FrameRun { passes: self.passes, pass: 0, step: 0, errors: Vec::new() }
    }
}

impl FrameRun {
    /// The command to execute next, or `None` once the frame is over.
    pub fn next(&self) -> (command: Option<DrawCommand>)
        ensures
            command == self@.next_command(),
    {
        if self.pass < self.passes.len() {
            self.passes[self.pass].command_at(self.step)
        } else {
            None
        }
    }

    /// Reports the outcome of the command that `next` handed out and moves
    /// on. Does nothing once the frame is over.
    pub fn advance(&mut self, ok: bool)
        ensures
            final(self)@ == old(self)@.advanced(ok),
    {
        if self.pass < self.passes.len() {
            let current = self.passes[self.pass];
            match current.command_at(self.step) {
                None => {},
                Some(command) => {
                    let following = current.command_at(self.step + 1);
                    if ok && following.is_some() {
                        self.step = self.step + 1;
                    } else {
                        if !ok {
                            self.errors.push(RenderError { viewport: current.slot, command });
                        }
                        self.pass = self.pass + 1;
                        self.step = 0;
                    }
                },
            }
        }
    }

    /// Whether the frame is over.
    pub fn is_finished(&self) -> (finished: bool)
        ensures
            finished == self@.finished(),
    {
        self.pass >= self.passes.len()
    }

    /// The failures recorded so far, oldest first.
    pub fn errors(&self) -> (errors: &Vec<RenderError>)
        ensures
            errors@ == self@.errors,
    {
        &self.errors
    }
}

/// The execution of a frame begins in a well-formed state, and it is over
/// at once exactly if the frame has no pass.
pub proof fn lemma_run_begins_well_formed(passes: Seq<ViewportPass>)
    ensures
        RunState::initial(passes).well_formed(),
        RunState::initial(passes).finished() <==> passes.len() == 0,
{
}

/// Every step of a well-formed execution leads to a well-formed state.
/// While the frame is not over there is a command to execute, and
/// executing it uses up budget, so that the execution ends. A step records
/// a failure exactly when the command was refused, and a frame never
/// records more failures than it has passes.
pub proof fn lemma_run_step(state: RunState, ok: bool)
    requires
        state.well_formed(),
    ensures
        state.advanced(ok).well_formed(),
        state.advanced(ok).passes == state.passes,
        state.finished() <==> state.next_command().is_none(),
        state.finished() ==> state.advanced(ok) == state,
        !state.finished() ==> 0 <= state.advanced(ok).budget() < state.budget(),
        !state.finished() && ok ==> state.advanced(ok).errors == state.errors,
        !state.finished() && !ok ==> state.advanced(ok).pass == state.pass + 1
            && state.advanced(ok).step == 0 && state.advanced(ok).errors == state.errors.push(
            RenderError {
                viewport: state.passes[state.pass as int].slot,
                command: state.next_command().unwrap(),
            },
        ),
        state.advanced(ok).errors.len() <= state.passes.len(),
{
    if !state.finished() {
        let current = state.passes[state.pass as int];
        assert(current.commands().len() == 4 || current.commands().len() == 5);
        let rest = state.passes.len() - state.pass;
        assert(rest >= 1);
        assert((rest - 1) * 5 == rest * 5 - 5) by (nonlinear_arith);
    }
}

/// Whatever the outcomes of its commands, the execution of a frame is
/// over once as many steps were made as its budget allowed: five for each
/// pass at most. It then records no more failures than the frame has passes.
pub proof fn lemma_run_ends(state: RunState, outcomes: Seq<bool>)
    requires
        state.well_formed(),
    ensures
        state.after(outcomes).well_formed(),
        state.after(outcomes).passes == state.passes,
        state.after(outcomes).finished() || state.after(outcomes).budget() <= state.budget()
            - outcomes.len(),
        outcomes.len() >= state.budget() ==> state.after(outcomes).finished(),
        state.after(outcomes).errors.len() <= state.passes.len(),
    decreases outcomes.len(),
{
    if outcomes.len() == 0 {
        lemma_run_step(state, true);
    } else {
        let before = state.after(outcomes.drop_last());
        lemma_run_ends(state, outcomes.drop_last());
        lemma_run_step(before, outcomes.last());
    }
    let reached = state.after(outcomes);
    if !reached.finished() {
        let rest = reached.passes.len() - reached.pass;
        assert(rest * 5 >= 5) by (nonlinear_arith)
            requires
                rest >= 1,
        ;
    }
}

} // verus!
