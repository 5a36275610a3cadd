use multiview::placement::{placement, Placement, WINDOW_COUNT};

#[test]
fn three_windows_are_placed() {
    assert_eq!(WINDOW_COUNT, 3);
}

#[test]
fn placement_on_a_full_hd_display() {
    assert_eq!(placement(1920, 1080, 0), Some(Placement { x: 2, y: 2, width: 940, height: 490 }));
    assert_eq!(placement(1920, 1080, 1), Some(Placement { x: 950, y: 2, width: 940, height: 490 }));
    assert_eq!(placement(1920, 1080, 2), Some(Placement { x: 2, y: 540, width: 940, height: 490 }));
    assert_eq!(placement(1920, 1080, 3), None);
    assert_eq!(placement(1920, 1080, usize::MAX), None);
}

#[test]
fn placement_on_an_odd_display() {
    assert_eq!(placement(1367, 769, 1), Some(Placement { x: 673, y: 2, width: 663, height: 334 }));
    assert_eq!(placement(1367, 769, 2), Some(Placement { x: 2, y: 384, width: 663, height: 334 }));
}

#[test]
fn placement_on_the_smallest_display() {
    assert_eq!(placement(40, 100, 0), Some(Placement { x: 2, y: 2, width: 0, height: 0 }));
    assert_eq!(placement(40, 100, 1), Some(Placement { x: 10, y: 2, width: 0, height: 0 }));
    assert_eq!(placement(40, 100, 2), Some(Placement { x: 2, y: 50, width: 0, height: 0 }));
}

#[test]
fn no_placement_on_a_display_too_small() {
    assert_eq!(placement(39, 100, 0), None);
    assert_eq!(placement(40, 99, 0), None);
    assert_eq!(placement(0, 0, 0), None);
}

#[test]
fn placement_on_the_largest_display() {
    let half = u32::MAX / 2;
    assert_eq!(
        placement(u32::MAX, u32::MAX, 1),
        Some(Placement { x: half - 10, y: 2, width: half - 20, height: half - 50 })
    );
    assert_eq!(
        placement(u32::MAX, u32::MAX, 2),
        Some(Placement { x: 2, y: half, width: half - 20, height: half - 50 })
    );
}

#[test]
fn placements_do_not_overlap_and_stay_on_the_display() {
    let (w, h) = (1920u32, 1080u32);
    let placed: Vec<Placement> = (0..WINDOW_COUNT).map(|i| placement(w, h, i).unwrap()).collect();
    for (i, a) in placed.iter().enumerate() {
        assert!(a.x + a.width <= w);
        assert!(a.y + a.height <= h);
        for b in &placed[i + 1..] {
            let apart_x = a.x + a.width <= b.x || b.x + b.width <= a.x;
            let apart_y = a.y + a.height <= b.y || b.y + b.height <= a.y;
            assert!(apart_x || apart_y);
        }
    }
}
