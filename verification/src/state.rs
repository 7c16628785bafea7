//! The compositor state: the one context object the runtime loop
//! threads through every callback. It owns the space, the seat focus
//! state, the global serial counter and the termination flag, and it
//! routes abstract input events into focus changes and delivery
//! actions.

use vstd::prelude::*;

use crate::config::{spec_position_override, CluxConfig};
use crate::geometry::{Point, Rect, Size};
use crate::input::{is_quit_combo, quit_combo, spec_press_actions, Action, InputEvent};
use crate::space::{contains_id, not_id, spec_hit, OutputState, Space, Window};

verus! {

/// The frame-boundary notifications owed to a stack of windows, one per
/// window in stack order.
pub open spec fn frame_callbacks(s: Seq<Window>) -> Seq<Action>
    decreases s.len(),
{
    if s.len() == 0 {
        Seq::empty()
    } else {
        frame_callbacks(s.drop_last()).push(Action::FrameCallback { target: s.last().id })
    }
}

/// The compositor: space, seat focus state, serial counter and
/// termination flag, plus the loaded configuration.
pub struct Clux {
    pub space: Space,
    pub config: CluxConfig,
    /// The keyboard-focused window, sticky until explicitly changed.
    pub keyboard_focus: Option<u64>,
    /// The current pointer position in global logical coordinates. The
    /// window under the pointer is recomputed from it on demand, never
    /// cached.
    pub pointer_location: Point,
    /// The single monotonically increasing serial counter shared by all
    /// event kinds; never reused, never reset.
    pub serial: u64,
    /// Set when a global intercept or the backend asks the runtime loop
    /// to terminate.
    pub stop_requested: bool,
}

impl Clux {
    /// The space registries hold each identity at most once.
    pub open spec fn wf(&self) -> bool {
        self.space.wf()
    }

    /// A fresh compositor around a loaded configuration: empty space,
    /// no focus, pointer at the origin, serials starting at zero.
    pub fn new(config: CluxConfig) -> (r: Clux)
        ensures
            r.wf(),
            r.space.windows@.len() == 0,
            r.space.outputs@.len() == 0,
            r.config == config,
            r.keyboard_focus is None,
            r.pointer_location == (Point { x: 0, y: 0 }),
            r.serial == 0,
            !r.stop_requested,
    {
        Clux {
            space: Space::new(),
            config,
            keyboard_focus: None,
            pointer_location: Point { x: 0, y: 0 },
            serial: 0,
            stop_requested: false,
        }
    }

    /// Registers or relocates an output, preferring the position that
    /// the configuration specifies for this name over the
    /// backend-suggested default.
    pub fn map_output(&mut self, name: String, size: Size, scale_milli: u32, default_pos: Point)
        requires
            old(self).wf(),
        ensures
            final(self).wf(),
            final(self).space.windows@ == old(self).space.windows@,
            final(self).config == old(self).config,
            final(self).keyboard_focus == old(self).keyboard_focus,
            final(self).pointer_location == old(self).pointer_location,
            final(self).serial == old(self).serial,
            final(self).stop_requested == old(self).stop_requested,
            ({
                let pos = match spec_position_override(old(self).config.outputs@, name@) {
                    Some(p) => p,
                    None => default_pos,
                };
                let entry = OutputState { name, geometry: Rect { loc: pos, size }, scale_milli };
                &&& forall|j: int|
                    0 <= j < old(self).space.outputs@.len() && old(self).space.outputs@[j].name@
                        == name@ ==> final(self).space.outputs@ == old(self).space.outputs@.update(
                        j,
                        entry,
                    )
                &&& (forall|j: int|
                    0 <= j < old(self).space.outputs@.len() ==> old(self).space.outputs@[j].name@
                        != name@) ==> final(self).space.outputs@ == old(
                    self,
                ).space.outputs@.push(entry)
            }),
    {
        let pos = match self.config.position_override(&name) {
            Some(p) => p,
            None => default_pos,
        };
        self.space.map_output(OutputState { name, geometry: Rect { loc: pos, size }, scale_milli });
    }

    /// Resolves a global point to the topmost window under it, in that
    /// window's local coordinates.
    pub fn surface_under(&self, pos: Point) -> (r: Option<crate::space::PointerTarget>)
        ensures
            r == spec_hit(self.space.windows@, pos),
    {
        self.space.hit_test(pos)
    }

    /// Routes one abstract input event: checks global intercepts,
    /// updates focus and stacking, allocates the event serial, and
    /// returns the deliveries the protocol glue must perform, in order.
    pub fn process_input_event(&mut self, event: InputEvent) -> (actions: Vec<Action>)
        requires
            old(self).wf(),
            old(self).serial < u64::MAX,
            event matches InputEvent::PointerMotionAbsolute { position, .. } ==> {
                &&& old(self).space.outputs@.len() > 0
                &&& i32::MIN <= position.x + old(self).space.outputs@[0].geometry.loc.x
                    <= i32::MAX
                &&& i32::MIN <= position.y + old(self).space.outputs@[0].geometry.loc.y
                    <= i32::MAX
            },
        ensures
            final(self).wf(),
            final(self).config == old(self).config,
            final(self).space.outputs@ == old(self).space.outputs@,
            event matches InputEvent::Keyboard { key_code, keysym, pressed, modifiers, time_msec }
                ==> {
                &&& final(self).serial == old(self).serial + 1
                &&& final(self).space.windows@ == old(self).space.windows@
                &&& final(self).pointer_location == old(self).pointer_location
                &&& final(self).keyboard_focus == old(self).keyboard_focus
                &&& if pressed && is_quit_combo(modifiers, keysym) {
                    &&& final(self).stop_requested
                    &&& actions@ == seq![Action::Stop]
                } else {
                    &&& final(self).stop_requested == old(self).stop_requested
                    &&& (old(self).keyboard_focus matches Some(f) ==> actions@ == seq![
                        Action::ForwardKey {
                            target: f,
                            key_code,
                            pressed,
                            serial: (old(self).serial + 1) as u64,
                            time_msec,
                        },
                    ])
                    &&& (old(self).keyboard_focus is None ==> actions@.len() == 0)
                }
            },
            event matches InputEvent::PointerMotionAbsolute { position, time_msec } ==> {
                let gpos = Point {
                    x: (position.x + old(self).space.outputs@[0].geometry.loc.x) as i32,
                    y: (position.y + old(self).space.outputs@[0].geometry.loc.y) as i32,
                };
                &&& final(self).serial == old(self).serial + 1
                &&& final(self).space.windows@ == old(self).space.windows@
                &&& final(self).keyboard_focus == old(self).keyboard_focus
                &&& final(self).stop_requested == old(self).stop_requested
                &&& final(self).pointer_location == gpos
                &&& actions@ == seq![
                    Action::PointerMotion {
                        target: spec_hit(old(self).space.windows@, gpos),
                        position: gpos,
                        serial: (old(self).serial + 1) as u64,
                        time_msec,
                    },
                    Action::PointerFrame,
                ]
            },
            event matches InputEvent::PointerButton { button, pressed, time_msec } ==> {
                &&& final(self).serial == old(self).serial + 1
                &&& final(self).pointer_location == old(self).pointer_location
                &&& final(self).stop_requested == old(self).stop_requested
                &&& if pressed {
                    match spec_hit(old(self).space.windows@, old(self).pointer_location) {
                        Some(pt) => {
                            &&& final(self).keyboard_focus == Some(pt.id)
                            &&& forall|j: int|
                                0 <= j < old(self).space.windows@.len() && old(
                                    self,
                                ).space.windows@[j].id == pt.id ==> final(self).space.windows@
                                    == old(self).space.windows@.filter(not_id(pt.id)).push(
                                    old(self).space.windows@[j],
                                )
                            &&& actions@ == spec_press_actions(
                                old(self).keyboard_focus,
                                Some(pt.id),
                                button,
                                (old(self).serial + 1) as u64,
                                time_msec,
                            )
                        },
                        None => {
                            &&& final(self).keyboard_focus == old(self).keyboard_focus
                            &&& final(self).space.windows@ == old(self).space.windows@
                            &&& actions@ == spec_press_actions(
                                old(self).keyboard_focus,
                                None,
                                button,
                                (old(self).serial + 1) as u64,
                                time_msec,
                            )
                        },
                    }
                } else {
                    &&& final(self).keyboard_focus == old(self).keyboard_focus
                    &&& final(self).space.windows@ == old(self).space.windows@
                    &&& actions@ == seq![
                        Action::PointerButton {
                            target: match spec_hit(
                                old(self).space.windows@,
                                old(self).pointer_location,
                            ) {
                                Some(pt) => Some(pt.id),
                                None => None,
                            },
                            button,
                            pressed: false,
                            serial: (old(self).serial + 1) as u64,
                            time_msec,
                        },
                        Action::PointerFrame,
                    ]
                }
            },
            event is Other ==> {
                &&& final(self).serial == old(self).serial
                &&& final(self).space.windows@ == old(self).space.windows@
                &&& final(self).keyboard_focus == old(self).keyboard_focus
                &&& final(self).pointer_location == old(self).pointer_location
                &&& final(self).stop_requested == old(self).stop_requested
                &&& actions@.len() == 0
            },
    {
        match event {
            InputEvent::Keyboard { key_code, keysym, pressed, modifiers, time_msec } => {
                self.serial = self.serial + 1;
                let serial = self.serial;
                let mut actions: Vec<Action> = Vec::new();
                if pressed && quit_combo(modifiers, keysym) {
                    self.stop_requested = true;
                    actions.push(Action::Stop);
                    proof {
                        assert(actions@ =~= seq![Action::Stop]);
                    }
                } else {
                    match self.keyboard_focus {
                        Some(f) => {
                            actions.push(
                                Action::ForwardKey { target: f, key_code, pressed, serial, time_msec },
                            );
                            proof {
                                assert(actions@ =~= seq![
                                    Action::ForwardKey {
                                        target: f,
                                        key_code,
                                        pressed,
                                        serial,
                                        time_msec,
                                    },
                                ]);
                            }
                        },
                        None => {},
                    }
                }
                actions
            },
            InputEvent::PointerMotionAbsolute { position, time_msec } => {
                let origin = self.space.outputs[0].geometry.loc;
                let gpos = Point { x: position.x + origin.x, y: position.y + origin.y };
                self.pointer_location = gpos;
                self.serial = self.serial + 1;
                let serial = self.serial;
                let target = self.space.hit_test(gpos);
                let mut actions: Vec<Action> = Vec::new();
                actions.push(Action::PointerMotion { target, position: gpos, serial, time_msec });
                actions.push(Action::PointerFrame);
                proof {
                    assert(actions@ =~= seq![
                        Action::PointerMotion { target, position: gpos, serial, time_msec },
                        Action::PointerFrame,
                    ]);
                }
                actions
            },
            InputEvent::PointerButton { button, pressed, time_msec } => {
                self.serial = self.serial + 1;
                let serial = self.serial;
                let under = self.space.hit_test(self.pointer_location);
                let mut actions: Vec<Action> = Vec::new();
                if pressed {
                    match under {
                        Some(pt) => {
                            self.space.raise(pt.id);
                            let prior = self.keyboard_focus;
                            self.keyboard_focus = Some(pt.id);
                            match prior {
                                Some(p) => {
                                    if p != pt.id {
                                        actions.push(Action::FocusLost { target: p, serial });
                                        actions.push(
                                            Action::FocusGained { target: pt.id, serial },
                                        );
                                    }
                                },
                                None => {
                                    actions.push(Action::FocusGained { target: pt.id, serial });
                                },
                            }
                            actions.push(
                                Action::PointerButton {
                                    target: Some(pt.id),
                                    button,
                                    pressed,
                                    serial,
                                    time_msec,
                                },
                            );
                            actions.push(Action::PointerFrame);
                            proof {
                                assert(actions@ =~= spec_press_actions(
                                    old(self).keyboard_focus,
                                    Some(pt.id),
                                    button,
                                    serial,
                                    time_msec,
                                ));
                            }
                        },
                        None => {
                            actions.push(
                                Action::PointerButton {
                                    target: None,
                                    button,
                                    pressed,
                                    serial,
                                    time_msec,
                                },
                            );
                            actions.push(Action::PointerFrame);
                            proof {
                                assert(actions@ =~= spec_press_actions(
                                    old(self).keyboard_focus,
                                    None,
                                    button,
                                    serial,
                                    time_msec,
                                ));
                            }
                        },
                    }
                } else {
                    let target = match under {
                        Some(pt) => Some(pt.id),
                        None => None,
                    };
                    actions.push(
                        Action::PointerButton { target, button, pressed, serial, time_msec },
                    );
                    actions.push(Action::PointerFrame);
                    proof {
                        assert(actions@ =~= seq![
                            Action::PointerButton { target, button, pressed, serial, time_msec },
                            Action::PointerFrame,
                        ]);
                    }
                }
                actions
            },
            InputEvent::Other => Vec::new(),
        }
    }

    /// One housekeeping pass per loop iteration: prunes windows whose
    /// backing client surface has been destroyed, drops keyboard focus
    /// if the focused window was pruned (focus stays none until the
    /// next explicit focus-changing event), and notifies every
    /// surviving window that a frame boundary occurred.
    pub fn refresh(&mut self) -> (actions: Vec<Action>)
        requires
            old(self).wf(),
        ensures
            final(self).wf(),
            final(self).config == old(self).config,
            final(self).space.outputs@ == old(self).space.outputs@,
            final(self).pointer_location == old(self).pointer_location,
            final(self).serial == old(self).serial,
            final(self).stop_requested == old(self).stop_requested,
            final(self).space.windows@ == old(self).space.windows@.filter(
                crate::space::alive_pred(),
            ),
            final(self).keyboard_focus == (match old(self).keyboard_focus {
                Some(f) => if contains_id(final(self).space.windows@, f) {
                    Some(f)
                } else {
                    None
                },
                None => None,
            }),
            actions@ == frame_callbacks(final(self).space.windows@),
    {
        self.space.refresh();
        match self.keyboard_focus {
            Some(f) => {
                if !self.space.contains_window(f) {
                    self.keyboard_focus = None;
                }
            },
            None => {},
        }
        let mut actions: Vec<Action> = Vec::new();
        let mut i: usize = 0;
        proof {
            assert(self.space.windows@.take(0) =~= Seq::<Window>::empty());
        }
        while i < self.space.windows.len()
            invariant
                0 <= i <= self.space.windows@.len(),
                actions@ == frame_callbacks(self.space.windows@.take(i as int)),
            decreases self.space.windows@.len() - i,
        {
            proof {
                assert(self.space.windows@.take(i + 1).drop_last() =~= self.space.windows@.take(
                    i as int,
                ));
                assert(self.space.windows@.take(i + 1).last() == self.space.windows@[i as int]);
            }
            actions.push(Action::FrameCallback { target: self.space.windows[i].id });
            i = i + 1;
        }
        proof {
            assert(self.space.windows@.take(i as int) =~= self.space.windows@);
        }
        actions
    }

    /// Raises the runtime-termination signal, as a backend close or
    /// disconnect event does.
    pub fn request_stop(&mut self)
        ensures
            final(self).stop_requested,
            final(self).space == old(self).space,
            final(self).config == old(self).config,
            final(self).keyboard_focus == old(self).keyboard_focus,
            final(self).pointer_location == old(self).pointer_location,
            final(self).serial == old(self).serial,
    {
        self.stop_requested = true;
    }

    /// The runtime loop's continuation decision: keep running exactly
    /// while the event-source wait succeeded and no termination signal
    /// has been raised.
    pub fn continue_running(&self, dispatch_ok: bool) -> (r: bool)
        ensures
            r == (dispatch_ok && !self.stop_requested),
    {
        dispatch_ok && !self.stop_requested
    }
}

} // verus!
