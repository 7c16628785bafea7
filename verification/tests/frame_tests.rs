use clux::{DamageTracker, FrameCycle, Point, Rect, Size, Window};

fn win(id: u64, x: i32, y: i32, w: i32, h: i32) -> Window {
    Window {
        id,
        geometry: Rect { loc: Point { x, y }, size: Size { w, h } },
        toplevel: true,
        alive: true,
    }
}

#[test]
fn vblank_while_in_flight_is_dropped() {
    let mut fc = FrameCycle::new();
    assert!(!fc.in_flight);
    // Initial unconditional render.
    fc.submit();
    assert!(fc.in_flight);
    // Vblanks arriving while the frame is in flight trigger nothing.
    assert!(!fc.on_vblank());
    assert!(!fc.on_vblank());
    // Completion clears the flag; the next vblank renders again.
    fc.on_frame_complete();
    assert!(!fc.in_flight);
    assert!(fc.on_vblank());
    assert!(fc.in_flight);
}

#[test]
fn submissions_never_exceed_completions_plus_one() {
    // Drive an arbitrary vblank/completion interleaving and count.
    let mut fc = FrameCycle::new();
    let mut submits: u64 = 0;
    let mut completes: u64 = 0;
    let pattern = [true, true, false, true, false, false, true, true, false, true];
    fc.submit();
    submits += 1;
    for vblank in pattern {
        if vblank {
            if fc.on_vblank() {
                submits += 1;
            }
        } else {
            if fc.in_flight {
                completes += 1;
            }
            fc.on_frame_complete();
        }
        assert!(submits <= completes + 1);
    }
}

#[test]
fn completion_for_idle_output_changes_nothing() {
    let mut fc = FrameCycle::new();
    fc.on_frame_complete();
    assert!(!fc.in_flight);
    assert!(fc.on_vblank());
}

#[test]
fn first_redraw_repaints_the_whole_output() {
    let mut dt = DamageTracker::new();
    let out = Rect { loc: Point { x: 0, y: 0 }, size: Size { w: 800, h: 600 } };
    let current = vec![win(1, 10, 10, 100, 100)];
    let damage = dt.plan_redraw(&current, out);
    // Full output (fresh tracker) plus the newly appeared window.
    assert_eq!(damage, vec![out, current[0].geometry]);
}

#[test]
fn unchanged_scene_accumulates_no_damage() {
    let mut dt = DamageTracker::new();
    let out = Rect { loc: Point { x: 0, y: 0 }, size: Size { w: 800, h: 600 } };
    let current = vec![win(1, 10, 10, 100, 100), win(2, 50, 50, 30, 30)];
    dt.plan_redraw(&current, out);
    let damage = dt.plan_redraw(&current, out);
    assert_eq!(damage, Vec::new());
}

#[test]
fn moved_window_damages_its_new_geometry() {
    let mut dt = DamageTracker::new();
    let out = Rect { loc: Point { x: 0, y: 0 }, size: Size { w: 800, h: 600 } };
    dt.plan_redraw(&vec![win(1, 10, 10, 100, 100)], out);
    let moved = win(1, 200, 10, 100, 100);
    let damage = dt.plan_redraw(&vec![moved], out);
    assert_eq!(damage, vec![moved.geometry]);
}

#[test]
fn vanished_window_damages_its_old_geometry() {
    let mut dt = DamageTracker::new();
    let out = Rect { loc: Point { x: 0, y: 0 }, size: Size { w: 800, h: 600 } };
    let gone = win(1, 10, 10, 100, 100);
    dt.plan_redraw(&vec![gone, win(2, 300, 300, 10, 10)], out);
    let damage = dt.plan_redraw(&vec![win(2, 300, 300, 10, 10)], out);
    assert_eq!(damage, vec![gone.geometry]);
}

#[test]
fn mode_change_forces_a_full_repaint() {
    let mut dt = DamageTracker::new();
    let out = Rect { loc: Point { x: 0, y: 0 }, size: Size { w: 800, h: 600 } };
    let current = vec![win(1, 10, 10, 100, 100)];
    dt.plan_redraw(&current, out);
    dt.note_mode_change();
    let bigger = Rect { loc: Point { x: 0, y: 0 }, size: Size { w: 1024, h: 768 } };
    let damage = dt.plan_redraw(&current, bigger);
    assert_eq!(damage, vec![bigger]);
}
