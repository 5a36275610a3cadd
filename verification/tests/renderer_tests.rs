use multiview::frame::{
    Clear, Color, DrawCommand, Frame, RenderError, Shape, ViewportPass, PIXEL_DENSITY,
};
use multiview::renderer::{PocRenderer, PocUpdate, RendererPhase};
use multiview::viewport::Viewport;

const CLEAR: Clear = Clear { color: Color { r: 0, g: 0, b: 0 }, depth: true, stencil: true };

const MARKER: Shape =
    Shape { x: 0, y: 0, width: 10, height: 10, color: Color { r: 0, g: 255, b: 0 } };

fn common(color: Color) -> Shape {
    Shape { x: 10, y: 10, width: 50, height: 50, color }
}

fn renderer_with(contexts: usize, size: (u32, u32)) -> PocRenderer {
    PocRenderer { phase: RendererPhase::Finalized { contexts }, size }
}

fn run_all(frame: Frame, refuse: &[DrawCommand]) -> (Vec<DrawCommand>, Vec<RenderError>) {
    let mut run = frame.start();
    let mut issued = Vec::new();
    while let Some(command) = run.next() {
        issued.push(command);
        run.advance(!refuse.contains(&command));
    }
    assert!(run.is_finished());
    (issued, run.errors().clone())
}

#[test]
fn update_state_is_constructed() {
    let mut state = PocUpdate::new();
    state.update(());
    assert_eq!(state, PocUpdate::new());
}

#[test]
fn init_is_inert() {
    let renderer = PocRenderer::init();
    assert_eq!(renderer.phase, RendererPhase::Uninitialized);
    assert_eq!(renderer.size, (0, 0));
    assert!(!renderer.is_finalized());
    assert_eq!(renderer.context_count(), 0);
}

#[test]
fn finalize_creates_one_context_per_slot() {
    let mut renderer = PocRenderer::init();
    renderer.finalize();
    assert!(renderer.is_finalized());
    assert_eq!(renderer.context_count(), 4);
    assert_eq!(renderer.size, (0, 0));
}

#[test]
fn finalize_twice_changes_nothing() {
    let mut renderer = PocRenderer::init();
    renderer.set_size((30, 20));
    renderer.finalize();
    let once = renderer;
    renderer.finalize();
    assert_eq!(renderer, once);
    let mut single = renderer_with(1, (30, 20));
    single.finalize();
    assert_eq!(single, renderer_with(1, (30, 20)));
}

#[test]
fn set_size_keeps_the_phase() {
    let mut renderer = PocRenderer::init();
    renderer.set_size((101, 51));
    assert_eq!(renderer, PocRenderer { phase: RendererPhase::Uninitialized, size: (101, 51) });
    renderer.finalize();
    renderer.set_size((8, 6));
    assert_eq!(renderer, renderer_with(4, (8, 6)));
}

#[test]
fn draw_frame_without_contexts_only_clears() {
    let mut renderer = PocRenderer::init();
    renderer.set_size((800, 600));
    let frame = renderer.draw_frame(&PocUpdate::new());
    assert_eq!(frame.clear, CLEAR);
    assert!(frame.passes.is_empty());
    let frame = renderer_with(0, (800, 600)).draw_frame(&PocUpdate::new());
    assert!(frame.passes.is_empty());
}

#[test]
fn draw_frame_with_one_context_renders_one_viewport() {
    let frame = renderer_with(1, (800, 600)).draw_frame(&PocUpdate::new());
    assert_eq!(
        frame.passes,
        vec![ViewportPass {
            slot: 0,
            viewport: Viewport { x: 0, y: 300, width: 400, height: 300 },
            marker: Some(MARKER),
            shape: common(Color { r: 0, g: 100, b: 255 }),
        }]
    );
}

#[test]
fn draw_frame_with_four_contexts_renders_four_viewports() {
    let mut renderer = PocRenderer::init();
    renderer.finalize();
    renderer.set_size((101, 51));
    let frame = renderer.draw_frame(&PocUpdate::new());
    assert_eq!(
        frame,
        Frame {
            clear: CLEAR,
            passes: vec![
                ViewportPass {
                    slot: 0,
                    viewport: Viewport { x: 0, y: 25, width: 50, height: 25 },
                    marker: Some(MARKER),
                    shape: common(Color { r: 0, g: 100, b: 255 }),
                },
                ViewportPass {
                    slot: 1,
                    viewport: Viewport { x: 50, y: 25, width: 50, height: 25 },
                    marker: None,
                    shape: common(Color { r: 0, g: 255, b: 100 }),
                },
                ViewportPass {
                    slot: 2,
                    viewport: Viewport { x: 0, y: 0, width: 50, height: 25 },
                    marker: None,
                    shape: common(Color { r: 100, g: 100, b: 0 }),
                },
                ViewportPass {
                    slot: 3,
                    viewport: Viewport { x: 50, y: 0, width: 50, height: 25 },
                    marker: None,
                    shape: common(Color { r: 255, g: 100, b: 0 }),
                },
            ],
        }
    );
}

#[test]
fn draw_frame_renders_at_most_four_viewports() {
    for (contexts, expected) in [(0usize, 0usize), (1, 1), (2, 2), (3, 3), (4, 4), (5, 4), (8, 4)] {
        let frame = renderer_with(contexts, (64, 64)).draw_frame(&PocUpdate::new());
        assert_eq!(frame.passes.len(), expected);
    }
    let frame = renderer_with(usize::MAX, (64, 64)).draw_frame(&PocUpdate::new());
    assert_eq!(frame.passes.len(), 4);
}

#[test]
fn first_viewport_differs_from_the_others() {
    let frame = renderer_with(4, (640, 480)).draw_frame(&PocUpdate::new());
    let first = frame.passes[0];
    assert_eq!(first.marker, Some(MARKER));
    for other in &frame.passes[1..] {
        assert_eq!(other.marker, None);
        assert_ne!(other.shape, first.shape);
        let first_commands: Vec<_> = (0..6).filter_map(|s| first.command_at(s)).collect();
        let other_commands: Vec<_> = (0..6).filter_map(|s| other.command_at(s)).collect();
        assert_eq!(first_commands.len(), 5);
        assert_eq!(other_commands.len(), 4);
        assert_ne!(first_commands, other_commands);
    }
}

#[test]
fn shapes_and_colours_by_slot() {
    assert_eq!(Clear::of_frame(), CLEAR);
    assert_eq!(Shape::marker(), MARKER);
    assert_eq!(Color::of_slot(0), Color { r: 0, g: 100, b: 255 });
    assert_eq!(Color::of_slot(1), Color { r: 0, g: 255, b: 100 });
    assert_eq!(Color::of_slot(2), Color { r: 100, g: 100, b: 0 });
    assert_eq!(Color::of_slot(3), Color { r: 255, g: 100, b: 0 });
    for slot in 0..4 {
        assert_eq!(Shape::common(slot), common(Color::of_slot(slot)));
    }
}

#[test]
fn pass_of_each_slot() {
    let frame = renderer_with(4, (101, 51)).draw_frame(&PocUpdate::new());
    for slot in 0..4 {
        assert_eq!(ViewportPass::of(101, 51, slot), frame.passes[slot]);
    }
    assert_eq!(
        ViewportPass::of(8, 6, 3),
        ViewportPass {
            slot: 3,
            viewport: Viewport { x: 4, y: 0, width: 4, height: 3 },
            marker: None,
            shape: common(Color { r: 255, g: 100, b: 0 }),
        }
    );
}

#[test]
fn commands_of_a_pass_with_marker() {
    let frame = renderer_with(1, (800, 600)).draw_frame(&PocUpdate::new());
    let pass = frame.passes[0];
    let rect = Viewport { x: 0, y: 300, width: 400, height: 300 };
    assert_eq!(pass.command_at(0), Some(DrawCommand::BindViewport { rect }));
    assert_eq!(
        pass.command_at(1),
        Some(DrawCommand::BeginFrame { slot: 0, width: 400, height: 300, density: 1 })
    );
    assert_eq!(pass.command_at(2), Some(DrawCommand::Fill { slot: 0, shape: MARKER }));
    assert_eq!(
        pass.command_at(3),
        Some(DrawCommand::Fill { slot: 0, shape: common(Color { r: 0, g: 100, b: 255 }) })
    );
    assert_eq!(pass.command_at(4), Some(DrawCommand::EndFrame { slot: 0 }));
    assert_eq!(pass.command_at(5), None);
    assert_eq!(pass.command_at(usize::MAX), None);
    assert_eq!(PIXEL_DENSITY, 1);
}

#[test]
fn commands_of_a_pass_without_marker() {
    let frame = renderer_with(2, (800, 600)).draw_frame(&PocUpdate::new());
    let pass = frame.passes[1];
    let rect = Viewport { x: 400, y: 300, width: 400, height: 300 };
    assert_eq!(pass.command_at(0), Some(DrawCommand::BindViewport { rect }));
    assert_eq!(
        pass.command_at(1),
        Some(DrawCommand::BeginFrame { slot: 1, width: 400, height: 300, density: 1 })
    );
    assert_eq!(
        pass.command_at(2),
        Some(DrawCommand::Fill { slot: 1, shape: common(Color { r: 0, g: 255, b: 100 }) })
    );
    assert_eq!(pass.command_at(3), Some(DrawCommand::EndFrame { slot: 1 }));
    assert_eq!(pass.command_at(4), None);
}

#[test]
fn run_without_failure_issues_every_command() {
    let frame = renderer_with(4, (800, 600)).draw_frame(&PocUpdate::new());
    let passes = frame.passes.clone();
    let (issued, errors) = run_all(frame, &[]);
    let mut expected = Vec::new();
    for pass in &passes {
        for step in 0..5 {
            if let Some(command) = pass.command_at(step) {
                expected.push(command);
            }
        }
    }
    assert_eq!(issued.len(), 17);
    assert_eq!(issued, expected);
    assert!(errors.is_empty());
}

#[test]
fn run_of_empty_frame_is_over_at_once() {
    let frame = PocRenderer::init().draw_frame(&PocUpdate::new());
    let mut run = frame.start();
    assert!(run.is_finished());
    assert_eq!(run.next(), None);
    run.advance(false);
    assert!(run.is_finished());
    assert!(run.errors().is_empty());
}

#[test]
fn refused_begin_frame_skips_to_next_viewport() {
    let frame = renderer_with(4, (800, 600)).draw_frame(&PocUpdate::new());
    let passes = frame.passes.clone();
    let refused = DrawCommand::BeginFrame { slot: 1, width: 400, height: 300, density: 1 };
    let (issued, errors) = run_all(frame, &[refused]);
    assert_eq!(errors, vec![RenderError { viewport: 1, command: refused }]);
    let mut expected = Vec::new();
    for pass in &passes {
        let last = if pass.slot == 1 { 2 } else { 5 };
        for step in 0..last {
            if let Some(command) = pass.command_at(step) {
                expected.push(command);
            }
        }
    }
    assert_eq!(issued.len(), 5 + 2 + 4 + 4);
    assert_eq!(issued, expected);
}

#[test]
fn refused_fill_is_recorded_per_viewport() {
    let frame = renderer_with(4, (800, 600)).draw_frame(&PocUpdate::new());
    let marker = DrawCommand::Fill { slot: 0, shape: MARKER };
    let last = DrawCommand::Fill { slot: 3, shape: common(Color { r: 255, g: 100, b: 0 }) };
    let (issued, errors) = run_all(frame, &[marker, last]);
    assert_eq!(
        errors,
        vec![
            RenderError { viewport: 0, command: marker },
            RenderError { viewport: 3, command: last },
        ]
    );
    assert_eq!(issued.len(), 3 + 4 + 4 + 3);
    assert!(!issued.contains(&DrawCommand::EndFrame { slot: 0 }));
    assert!(issued.contains(&DrawCommand::EndFrame { slot: 1 }));
    assert!(issued.contains(&DrawCommand::EndFrame { slot: 2 }));
    assert!(!issued.contains(&DrawCommand::EndFrame { slot: 3 }));
}

#[test]
fn refused_end_frame_is_recorded() {
    let frame = renderer_with(1, (20, 20)).draw_frame(&PocUpdate::new());
    let end = DrawCommand::EndFrame { slot: 0 };
    let (issued, errors) = run_all(frame, &[end]);
    assert_eq!(issued.len(), 5);
    assert_eq!(errors, vec![RenderError { viewport: 0, command: end }]);
}

#[test]
fn advance_after_the_end_changes_nothing() {
    let frame = renderer_with(1, (20, 20)).draw_frame(&PocUpdate::new());
    let mut run = frame.start();
    for _ in 0..5 {
        assert!(!run.is_finished());
        run.advance(true);
    }
    assert!(run.is_finished());
    run.advance(false);
    run.advance(true);
    assert!(run.is_finished());
    assert_eq!(run.next(), None);
    assert!(run.errors().is_empty());
}
