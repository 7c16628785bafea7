use clux::input::{KEYSYM_BACKSPACE, KEYSYM_ESCAPE, KEYSYM_LOWER_Q};
use clux::{Action, Clux, CluxConfig, InputEvent, Modifiers, OutputState, Point, Rect, Size, Window};

fn compositor() -> Clux {
    Clux::new(CluxConfig::default())
}

fn win(id: u64, x: i32, y: i32, w: i32, h: i32) -> Window {
    Window {
        id,
        geometry: Rect { loc: Point { x, y }, size: Size { w, h } },
        toplevel: true,
        alive: true,
    }
}

fn output(name: &str, x: i32, y: i32) -> OutputState {
    OutputState {
        name: name.to_owned(),
        geometry: Rect { loc: Point { x, y }, size: Size { w: 1920, h: 1080 } },
        scale_milli: 1000,
    }
}

fn no_mods() -> Modifiers {
    Modifiers { ctrl: false, alt: false, shift: false, logo: false }
}

fn key(keysym: u32, pressed: bool, m: Modifiers) -> InputEvent {
    InputEvent::Keyboard { key_code: 30, keysym, pressed, modifiers: m, time_msec: 1 }
}

#[test]
fn ctrl_alt_backspace_quits_without_forwarding() {
    let mut c = compositor();
    c.space.map_window(win(1, 0, 0, 10, 10));
    c.keyboard_focus = Some(1);
    let m = Modifiers { ctrl: true, alt: true, shift: false, logo: false };
    let actions = c.process_input_event(key(KEYSYM_BACKSPACE, true, m));
    assert_eq!(actions, vec![Action::Stop]);
    assert!(c.stop_requested);
    assert!(!c.continue_running(true));
}

#[test]
fn logo_q_quits_without_forwarding() {
    let mut c = compositor();
    c.keyboard_focus = Some(1);
    let m = Modifiers { ctrl: false, alt: false, shift: false, logo: true };
    let actions = c.process_input_event(key(KEYSYM_LOWER_Q, true, m));
    assert_eq!(actions, vec![Action::Stop]);
    assert!(c.stop_requested);
}

#[test]
fn escape_quits_without_forwarding() {
    let mut c = compositor();
    let actions = c.process_input_event(key(KEYSYM_ESCAPE, true, no_mods()));
    assert_eq!(actions, vec![Action::Stop]);
    assert!(c.stop_requested);
}

#[test]
fn quit_combo_release_is_forwarded_not_intercepted() {
    let mut c = compositor();
    c.keyboard_focus = Some(1);
    let actions = c.process_input_event(key(KEYSYM_ESCAPE, false, no_mods()));
    assert_eq!(
        actions,
        vec![Action::ForwardKey { target: 1, key_code: 30, pressed: false, serial: 1, time_msec: 1 }]
    );
    assert!(!c.stop_requested);
}

#[test]
fn other_combination_forwards_to_focused_window_unmodified() {
    let mut c = compositor();
    c.keyboard_focus = Some(5);
    let m = Modifiers { ctrl: true, alt: false, shift: false, logo: false };
    let actions = c.process_input_event(key(KEYSYM_LOWER_Q, true, m));
    assert_eq!(
        actions,
        vec![Action::ForwardKey { target: 5, key_code: 30, pressed: true, serial: 1, time_msec: 1 }]
    );
    assert!(!c.stop_requested);
}

#[test]
fn key_event_without_focus_is_delivered_to_no_one() {
    let mut c = compositor();
    let actions = c.process_input_event(key(KEYSYM_LOWER_Q, true, no_mods()));
    assert_eq!(actions, Vec::new());
}

#[test]
fn pointer_motion_transforms_into_global_coordinates_and_hits() {
    let mut c = compositor();
    c.space.map_output(output("DP-1", 100, 0));
    c.space.map_window(win(3, 150, 10, 100, 100));
    let actions = c.process_input_event(InputEvent::PointerMotionAbsolute {
        position: Point { x: 60, y: 20 },
        time_msec: 7,
    });
    assert_eq!(c.pointer_location, Point { x: 160, y: 20 });
    assert_eq!(actions.len(), 2);
    match actions[0] {
        Action::PointerMotion { target, position, serial, time_msec } => {
            let t = target.unwrap();
            assert_eq!(t.id, 3);
            assert_eq!(t.local, Point { x: 10, y: 10 });
            assert_eq!(position, Point { x: 160, y: 20 });
            assert_eq!(serial, 1);
            assert_eq!(time_msec, 7);
        }
        _ => panic!("expected a motion delivery first"),
    }
    assert_eq!(actions[1], Action::PointerFrame);
}

#[test]
fn pointer_motion_over_nothing_is_delivered_to_no_one() {
    let mut c = compositor();
    c.space.map_output(output("DP-1", 0, 0));
    let actions = c.process_input_event(InputEvent::PointerMotionAbsolute {
        position: Point { x: 60, y: 20 },
        time_msec: 7,
    });
    match actions[0] {
        Action::PointerMotion { target, .. } => assert!(target.is_none()),
        _ => panic!("expected a motion delivery first"),
    }
}

#[test]
fn button_press_raises_and_refocuses_before_delivery() {
    let mut c = compositor();
    c.space.map_output(output("DP-1", 0, 0));
    c.space.map_window(win(1, 0, 0, 100, 100));
    c.space.map_window(win(2, 200, 0, 100, 100));
    c.keyboard_focus = Some(2);
    // Move the pointer over window 1, then press.
    c.process_input_event(InputEvent::PointerMotionAbsolute {
        position: Point { x: 10, y: 10 },
        time_msec: 1,
    });
    let actions = c.process_input_event(InputEvent::PointerButton {
        button: 0x110,
        pressed: true,
        time_msec: 2,
    });
    assert_eq!(c.keyboard_focus, Some(1));
    let stack: Vec<u64> = c.space.windows.iter().map(|w| w.id).collect();
    assert_eq!(stack, vec![2, 1]);
    assert_eq!(
        actions,
        vec![
            Action::FocusLost { target: 2, serial: 2 },
            Action::FocusGained { target: 1, serial: 2 },
            Action::PointerButton {
                target: Some(1),
                button: 0x110,
                pressed: true,
                serial: 2,
                time_msec: 2
            },
            Action::PointerFrame,
        ]
    );
}

#[test]
fn button_press_on_focused_window_sends_no_focus_notices() {
    let mut c = compositor();
    c.space.map_output(output("DP-1", 0, 0));
    c.space.map_window(win(1, 0, 0, 100, 100));
    c.keyboard_focus = Some(1);
    c.pointer_location = Point { x: 5, y: 5 };
    let actions = c.process_input_event(InputEvent::PointerButton {
        button: 0x110,
        pressed: true,
        time_msec: 2,
    });
    assert_eq!(
        actions,
        vec![
            Action::PointerButton {
                target: Some(1),
                button: 0x110,
                pressed: true,
                serial: 1,
                time_msec: 2
            },
            Action::PointerFrame,
        ]
    );
}

#[test]
fn button_press_over_nothing_changes_no_focus() {
    let mut c = compositor();
    c.keyboard_focus = Some(4);
    c.pointer_location = Point { x: 500, y: 500 };
    let actions = c.process_input_event(InputEvent::PointerButton {
        button: 0x110,
        pressed: true,
        time_msec: 2,
    });
    assert_eq!(c.keyboard_focus, Some(4));
    assert_eq!(
        actions,
        vec![
            Action::PointerButton {
                target: None,
                button: 0x110,
                pressed: true,
                serial: 1,
                time_msec: 2
            },
            Action::PointerFrame,
        ]
    );
}

#[test]
fn button_release_delivers_without_raise_or_focus_change() {
    let mut c = compositor();
    c.space.map_window(win(1, 0, 0, 100, 100));
    c.space.map_window(win(2, 0, 0, 100, 100));
    c.keyboard_focus = Some(1);
    c.pointer_location = Point { x: 5, y: 5 };
    let actions = c.process_input_event(InputEvent::PointerButton {
        button: 0x110,
        pressed: false,
        time_msec: 2,
    });
    assert_eq!(c.keyboard_focus, Some(1));
    let stack: Vec<u64> = c.space.windows.iter().map(|w| w.id).collect();
    assert_eq!(stack, vec![1, 2]);
    assert_eq!(
        actions,
        vec![
            Action::PointerButton {
                target: Some(2),
                button: 0x110,
                pressed: false,
                serial: 1,
                time_msec: 2
            },
            Action::PointerFrame,
        ]
    );
}

#[test]
fn serials_increase_monotonically_across_event_kinds() {
    let mut c = compositor();
    c.space.map_output(output("DP-1", 0, 0));
    c.keyboard_focus = Some(1);
    c.process_input_event(key(KEYSYM_LOWER_Q, true, no_mods()));
    assert_eq!(c.serial, 1);
    c.process_input_event(InputEvent::PointerMotionAbsolute {
        position: Point { x: 0, y: 0 },
        time_msec: 1,
    });
    assert_eq!(c.serial, 2);
    c.process_input_event(InputEvent::PointerButton { button: 1, pressed: false, time_msec: 1 });
    assert_eq!(c.serial, 3);
    c.process_input_event(InputEvent::Other);
    assert_eq!(c.serial, 3);
}

#[test]
fn refresh_after_disconnect_drops_topmost_focused_window() {
    let mut c = compositor();
    c.space.map_window(win(1, 0, 0, 100, 100));
    c.space.map_window(win(2, 0, 0, 100, 100));
    c.keyboard_focus = Some(2);
    // The client of the topmost, focused window disconnects.
    c.space.surface_destroyed(2);
    let actions = c.refresh();
    let stack: Vec<u64> = c.space.windows.iter().map(|w| w.id).collect();
    assert_eq!(stack, vec![1]);
    assert_eq!(c.keyboard_focus, None);
    assert_eq!(actions, vec![Action::FrameCallback { target: 1 }]);
}

#[test]
fn refresh_keeps_focus_of_surviving_window() {
    let mut c = compositor();
    c.space.map_window(win(1, 0, 0, 100, 100));
    c.space.map_window(win(2, 0, 0, 100, 100));
    c.keyboard_focus = Some(1);
    c.space.surface_destroyed(2);
    c.refresh();
    assert_eq!(c.keyboard_focus, Some(1));
}

#[test]
fn loop_stops_on_dispatch_failure() {
    let c = compositor();
    assert!(c.continue_running(true));
    assert!(!c.continue_running(false));
}
