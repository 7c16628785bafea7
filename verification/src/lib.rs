//! Core of a minimal Wayland compositor: the window/output space with
//! stacking order and hit-testing, the seat input router with focus
//! semantics and global keybinding interception, and the frame-pacing
//! state that keeps at most one frame in flight per output.
//!
//! Everything here works on plain logical coordinates and identifiers;
//! the backend glue (protocol transport, GPU submission, device input)
//! lives outside and drives this state through the public operations.

pub mod config;
pub mod frame;
pub mod geometry;
pub mod input;
pub mod space;
pub mod state;

pub use config::{CluxConfig, KeyboardConfig, Keybinding, OutputConfig};
pub use frame::{DamageTracker, FrameCycle};
pub use geometry::{Point, Rect, Size};
pub use input::{Action, InputEvent, Modifiers};
pub use space::{OutputState, PointerTarget, Space, Window};
pub use state::Clux;
