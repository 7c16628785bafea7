use clux::{OutputState, Point, Rect, Size, Space, Window};

fn win(id: u64, x: i32, y: i32, w: i32, h: i32) -> Window {
    Window {
        id,
        geometry: Rect { loc: Point { x, y }, size: Size { w, h } },
        toplevel: true,
        alive: true,
    }
}

fn ids(space: &Space) -> Vec<u64> {
    space.windows.iter().map(|w| w.id).collect()
}

#[test]
fn stack_holds_each_mapped_window_exactly_once() {
    let mut s = Space::new();
    s.map_window(win(1, 0, 0, 10, 10));
    s.map_window(win(2, 0, 0, 10, 10));
    s.map_window(win(1, 5, 5, 10, 10));
    assert_eq!(ids(&s), vec![2, 1]);
    s.unmap_window(2);
    assert_eq!(ids(&s), vec![1]);
    s.unmap_window(2);
    assert_eq!(ids(&s), vec![1]);
}

#[test]
fn raise_moves_to_top_and_keeps_relative_order() {
    let mut s = Space::new();
    s.map_window(win(1, 0, 0, 10, 10));
    s.map_window(win(2, 0, 0, 10, 10));
    s.map_window(win(3, 0, 0, 10, 10));
    s.raise(1);
    assert_eq!(ids(&s), vec![2, 3, 1]);
    s.raise(1);
    assert_eq!(ids(&s), vec![2, 3, 1]);
}

#[test]
fn raise_of_unmapped_window_is_a_no_op() {
    let mut s = Space::new();
    s.map_window(win(1, 0, 0, 10, 10));
    s.raise(9);
    assert_eq!(ids(&s), vec![1]);
}

#[test]
fn hit_test_returns_topmost_window_containing_point() {
    let mut s = Space::new();
    s.map_window(win(1, 0, 0, 100, 100));
    s.map_window(win(2, 50, 50, 100, 100));
    // Both windows cover (60, 60); window 2 is topmost.
    let hit = s.hit_test(Point { x: 60, y: 60 }).unwrap();
    assert_eq!(hit.id, 2);
    assert_eq!(hit.local, Point { x: 10, y: 10 });
    // Only window 1 covers (10, 10).
    let hit = s.hit_test(Point { x: 10, y: 10 }).unwrap();
    assert_eq!(hit.id, 1);
    assert_eq!(hit.local, Point { x: 10, y: 10 });
}

#[test]
fn hit_test_misses_when_no_window_covers_the_point() {
    let mut s = Space::new();
    assert!(s.hit_test(Point { x: 0, y: 0 }).is_none());
    s.map_window(win(1, 0, 0, 100, 100));
    assert!(s.hit_test(Point { x: 100, y: 0 }).is_none());
    assert!(s.hit_test(Point { x: -1, y: 50 }).is_none());
}

#[test]
fn hit_test_respects_raise() {
    let mut s = Space::new();
    s.map_window(win(1, 0, 0, 100, 100));
    s.map_window(win(2, 0, 0, 100, 100));
    assert_eq!(s.hit_test(Point { x: 5, y: 5 }).unwrap().id, 2);
    s.raise(1);
    assert_eq!(s.hit_test(Point { x: 5, y: 5 }).unwrap().id, 1);
}

#[test]
fn window_straddling_two_outputs_is_rendered_on_both() {
    let mut s = Space::new();
    s.map_output(OutputState {
        name: "DP-1".to_owned(),
        geometry: Rect { loc: Point { x: 0, y: 0 }, size: Size { w: 1920, h: 1080 } },
        scale_milli: 1000,
    });
    s.map_output(OutputState {
        name: "DP-2".to_owned(),
        geometry: Rect { loc: Point { x: 1920, y: 0 }, size: Size { w: 1920, h: 1080 } },
        scale_milli: 1000,
    });
    // An 800x600 window placed so it straddles x = 1920.
    s.map_window(win(7, 1600, 100, 800, 600));
    let left = s.render_elements_for(&"DP-1".to_owned()).unwrap();
    let right = s.render_elements_for(&"DP-2".to_owned()).unwrap();
    assert!(left.iter().any(|w| w.id == 7));
    assert!(right.iter().any(|w| w.id == 7));
}

#[test]
fn render_elements_come_in_paint_order_and_skip_non_overlapping() {
    let mut s = Space::new();
    s.map_output(OutputState {
        name: "DP-1".to_owned(),
        geometry: Rect { loc: Point { x: 0, y: 0 }, size: Size { w: 1920, h: 1080 } },
        scale_milli: 1000,
    });
    s.map_window(win(1, 0, 0, 100, 100));
    s.map_window(win(2, 5000, 0, 100, 100));
    s.map_window(win(3, 50, 50, 100, 100));
    let elems = s.render_elements_for(&"DP-1".to_owned()).unwrap();
    let elem_ids: Vec<u64> = elems.iter().map(|w| w.id).collect();
    assert_eq!(elem_ids, vec![1, 3]);
}

#[test]
fn render_elements_for_unknown_output_is_not_found() {
    let s = Space::new();
    assert!(s.render_elements_for(&"DP-9".to_owned()).is_none());
}

#[test]
fn map_output_is_idempotent_by_identity() {
    let mut s = Space::new();
    s.map_output(OutputState {
        name: "DP-1".to_owned(),
        geometry: Rect { loc: Point { x: 0, y: 0 }, size: Size { w: 1920, h: 1080 } },
        scale_milli: 1000,
    });
    s.map_output(OutputState {
        name: "DP-1".to_owned(),
        geometry: Rect { loc: Point { x: 500, y: 0 }, size: Size { w: 1920, h: 1080 } },
        scale_milli: 1000,
    });
    assert_eq!(s.outputs.len(), 1);
    assert_eq!(
        s.output_geometry(&"DP-1".to_owned()).unwrap().loc,
        Point { x: 500, y: 0 }
    );
}

#[test]
fn refresh_prunes_destroyed_windows_in_order() {
    let mut s = Space::new();
    s.map_window(win(1, 0, 0, 10, 10));
    s.map_window(win(2, 0, 0, 10, 10));
    s.map_window(win(3, 0, 0, 10, 10));
    s.surface_destroyed(2);
    assert_eq!(ids(&s), vec![1, 2, 3]);
    s.refresh();
    assert_eq!(ids(&s), vec![1, 3]);
}

#[test]
fn contains_and_translate() {
    let r = Rect { loc: Point { x: 10, y: 20 }, size: Size { w: 5, h: 5 } };
    assert!(r.contains(Point { x: 10, y: 20 }));
    assert!(r.contains(Point { x: 14, y: 24 }));
    assert!(!r.contains(Point { x: 15, y: 20 }));
    assert!(!r.contains(Point { x: 9, y: 20 }));
    let a = Rect { loc: Point { x: 0, y: 0 }, size: Size { w: 10, h: 10 } };
    let b = Rect { loc: Point { x: 9, y: 9 }, size: Size { w: 10, h: 10 } };
    let c = Rect { loc: Point { x: 10, y: 0 }, size: Size { w: 10, h: 10 } };
    assert!(a.overlaps(&b));
    assert!(!a.overlaps(&c));
}
