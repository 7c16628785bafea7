//! Input routing vocabulary: the abstract device events the router
//! consumes (already translated by the keyboard layout into a symbolic
//! key plus modifiers, and into output-local logical coordinates for
//! pointer motion), the fixed global intercepts, and the delivery
//! actions the router hands back for the backend glue to perform.

use vstd::prelude::*;

use crate::geometry::Point;
use crate::space::PointerTarget;

verus! {

/// XKB keysym value for the BackSpace key.
pub const KEYSYM_BACKSPACE: u32 = 0xff08;

/// XKB keysym value for the lower-case letter q.
pub const KEYSYM_LOWER_Q: u32 = 0x71;

/// XKB keysym value for the Escape key.
pub const KEYSYM_ESCAPE: u32 = 0xff1b;

/// The modifier state active while a key event was produced.
#[derive(Clone, Copy, PartialEq, Eq, Structural, Debug)]
pub struct Modifiers {
    pub ctrl: bool,
    pub alt: bool,
    pub shift: bool,
    pub logo: bool,
}

/// An abstract input event, as handed in by the device backend. The
/// keyboard layout lookup (raw key code to symbolic key) and the
/// transformation of normalized device coordinates into output-local
/// logical coordinates have already happened at the device boundary.
#[derive(Clone, Copy, PartialEq, Eq, Structural, Debug)]
pub enum InputEvent {
    Keyboard { key_code: u32, keysym: u32, pressed: bool, modifiers: Modifiers, time_msec: u32 },
    PointerMotionAbsolute { position: Point, time_msec: u32 },
    PointerButton { button: u32, pressed: bool, time_msec: u32 },
    Other,
}

/// A delivery the router asks the protocol glue to perform, in order.
#[derive(Clone, Copy, PartialEq, Eq, Structural, Debug)]
pub enum Action {
    /// Stop the runtime loop: a global intercept consumed the event.
    Stop,
    /// Forward a key event to the keyboard-focused window.
    ForwardKey { target: u64, key_code: u32, pressed: bool, serial: u64, time_msec: u32 },
    /// Deliver pointer motion to the window under the pointer, if any.
    PointerMotion { target: Option<PointerTarget>, position: Point, serial: u64, time_msec: u32 },
    /// Deliver a button event to the window under the pointer, if any.
    PointerButton { target: Option<u64>, button: u32, pressed: bool, serial: u64, time_msec: u32 },
    /// A pointer frame boundary, so the client applies the batch atomically.
    PointerFrame,
    /// Tell the previously focused window it lost keyboard focus.
    FocusLost { target: u64, serial: u64 },
    /// Tell the newly focused window it gained keyboard focus.
    FocusGained { target: u64, serial: u64 },
    /// Tell a surviving window that a frame boundary occurred.
    FrameCallback { target: u64 },
}

/// The fixed set of global intercepts: ctrl+alt+BackSpace, logo+q, or
/// Escape, while pressed, quit the compositor instead of being
/// forwarded.
pub open spec fn is_quit_combo(m: Modifiers, keysym: u32) -> bool {
    ||| (m.ctrl && m.alt && keysym == KEYSYM_BACKSPACE)
    ||| (m.logo && keysym == KEYSYM_LOWER_Q)
    ||| keysym == KEYSYM_ESCAPE
}

/// Executable form of the global-intercept check.
pub fn quit_combo(m: Modifiers, keysym: u32) -> (r: bool)
    ensures
        r == is_quit_combo(m, keysym),
{
    (m.ctrl && m.alt && keysym == KEYSYM_BACKSPACE) || (m.logo && keysym == KEYSYM_LOWER_Q) || (
    keysym == KEYSYM_ESCAPE)
}

/// The actions a button press produces once the window under the
/// pointer (if any) has been raised and focused: the focus notices for
/// the focus change, then the button delivery, then a frame boundary.
pub open spec fn spec_press_actions(
    prior_focus: Option<u64>,
    under: Option<u64>,
    button: u32,
    serial: u64,
    time_msec: u32,
) -> Seq<Action> {
    let tail = seq![
        Action::PointerButton { target: under, button, pressed: true, serial, time_msec },
        Action::PointerFrame,
    ];
    match under {
        Some(id) => match prior_focus {
            Some(p) => if p == id {
                tail
            } else {
                seq![
                    Action::FocusLost { target: p, serial },
                    Action::FocusGained { target: id, serial },
                ] + tail
            },
            None => seq![Action::FocusGained { target: id, serial }] + tail,
        },
        None => tail,
    }
}

/// Law: on a button press the focus reassignment comes first — the
/// actions end with the button delivery and the frame boundary, and
/// everything before them is a focus notice, so the new focus (and the
/// raise the router performed alongside it) is in place before the
/// button event reaches any client.
pub proof fn lemma_press_delivery_order(
    prior_focus: Option<u64>,
    under: Option<u64>,
    button: u32,
    serial: u64,
    time_msec: u32,
)
    ensures
        ({
            let a = spec_press_actions(prior_focus, under, button, serial, time_msec);
            &&& a.len() >= 2
            &&& a[a.len() - 2] == (Action::PointerButton {
                target: under,
                button,
                pressed: true,
                serial,
                time_msec,
            })
            &&& a.last() == Action::PointerFrame
            &&& forall|k: int|
                0 <= k < a.len() - 2 ==> (a[k] is FocusLost || a[k] is FocusGained)
        }),
{
}

} // verus!
