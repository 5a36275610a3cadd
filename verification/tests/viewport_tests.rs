use multiview::viewport::{layout, viewport_rect, Viewport, VIEWPORT_COUNT};

fn covering(rects: &[Viewport], px: u32, py: u32) -> usize {
    rects
        .iter()
        .filter(|r| r.x <= px && px < r.x + r.width && r.y <= py && py < r.y + r.height)
        .count()
}

#[test]
fn viewport_count_is_four() {
    assert_eq!(VIEWPORT_COUNT, 4);
}

#[test]
fn layout_of_even_surface() {
    let rects = layout(800, 600);
    assert_eq!(
        rects,
        vec![
            Viewport { x: 0, y: 300, width: 400, height: 300 },
            Viewport { x: 400, y: 300, width: 400, height: 300 },
            Viewport { x: 0, y: 0, width: 400, height: 300 },
            Viewport { x: 400, y: 0, width: 400, height: 300 },
        ]
    );
}

#[test]
fn layout_of_odd_surface_rounds_down() {
    let rects = layout(101, 51);
    assert_eq!(
        rects,
        vec![
            Viewport { x: 0, y: 25, width: 50, height: 25 },
            Viewport { x: 50, y: 25, width: 50, height: 25 },
            Viewport { x: 0, y: 0, width: 50, height: 25 },
            Viewport { x: 50, y: 0, width: 50, height: 25 },
        ]
    );
}

#[test]
fn viewport_rect_matches_layout() {
    let rects = layout(101, 51);
    for slot in 0..VIEWPORT_COUNT {
        assert_eq!(viewport_rect(101, 51, slot), rects[slot]);
    }
}

#[test]
fn layout_of_empty_surface_is_empty_rectangles() {
    let rects = layout(0, 0);
    assert_eq!(rects.len(), 4);
    for rect in rects {
        assert_eq!(rect, Viewport { x: 0, y: 0, width: 0, height: 0 });
    }
}

#[test]
fn layout_of_one_pixel_surface_covers_nothing() {
    let rects = layout(1, 1);
    assert_eq!(covering(&rects, 0, 0), 0);
}

#[test]
fn layout_of_largest_surface_fits() {
    let rects = layout(u32::MAX, u32::MAX);
    let half = u32::MAX / 2;
    assert_eq!(rects[1], Viewport { x: half, y: half, width: half, height: half });
    assert_eq!(half, i32::MAX as u32);
}

#[test]
fn even_surface_is_tiled_exactly() {
    let (w, h) = (6u32, 4u32);
    let rects = layout(w, h);
    for px in 0..w {
        for py in 0..h {
            assert_eq!(covering(&rects, px, py), 1);
        }
    }
    let area: u32 = rects.iter().map(|r| r.width * r.height).sum();
    assert_eq!(area, w * h);
}

#[test]
fn odd_surface_leaves_last_row_and_column_uncovered() {
    let (w, h) = (7u32, 5u32);
    let rects = layout(w, h);
    for px in 0..w {
        for py in 0..h {
            let expected = if px < 6 && py < 4 { 1 } else { 0 };
            assert_eq!(covering(&rects, px, py), expected);
        }
    }
}

#[test]
fn viewports_never_reach_outside_the_surface() {
    for &(w, h) in &[(0u32, 0u32), (1, 1), (2, 3), (101, 51), (640, 480)] {
        for rect in layout(w, h) {
            assert!(rect.x + rect.width <= w);
            assert!(rect.y + rect.height <= h);
            assert_eq!(rect.width, w / 2);
            assert_eq!(rect.height, h / 2);
        }
    }
}
