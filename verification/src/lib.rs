//! Coordination core of a modal text-editing mode layered on a host editor.
//!
//! The host owns the editing surfaces and keeps them in an
//! [`arena::EditorArena`]. The core, [`VimState`], holds one mode and one
//! on/off switch for all of them, together with weak handles to the editors
//! it was told about. Whenever the mode or the switch changes it pushes the
//! cursor shape, the clipping at line ends, the forwarding of typed text and
//! the keymap context layer that go with the new state to every registered
//! editor that still exists.

pub mod arena;
pub mod editor;
pub mod laws;
pub mod mode;
pub mod model;
pub mod state;
pub mod walk;

pub use state::SwitchMode;
pub use state::VimState;
