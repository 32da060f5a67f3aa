//! The modal state as mathematical values, and what each operation makes of
//! it.
//!
//! The operations of [`VimState`] are specified here as functions from the
//! state, and the editors that exist, to the state and the editors
//! afterwards.
//!
//! [`VimState`]: crate::state::VimState

use vstd::prelude::*;
use crate::arena::WeakEditorHandle;
use crate::editor::{CursorShape, Editor};
use crate::mode::Mode;

verus! {

/// What a [`VimState`](crate::state::VimState) holds, as mathematical values.
pub struct VimStateView {
    /// The registered editors: the handle of each, under its identifier.
    pub editors: Map<usize, WeakEditorHandle>,
    /// The editor that was focused last, if any.
    pub active_editor: Option<WeakEditorHandle>,
    /// Whether modal editing is switched on.
    pub enabled: bool,
    /// The current mode.
    pub mode: Mode,
}

impl VimStateView {
    /// The state at process start: modal editing off, the mode that goes
    /// with that, no editor known.
    pub open spec fn initial() -> VimStateView {
        VimStateView {
            editors: Map::empty(),
            active_editor: None,
            enabled: false,
            mode: Mode::spec_default(),
        }
    }

    /// The state after an editor is announced under `id`: the registry maps
    /// `id` to `editor`, in place of what it mapped `id` to before.
    pub open spec fn register(self, id: usize, editor: WeakEditorHandle) -> VimStateView {
        VimStateView { editors: self.editors.insert(id, editor), ..self }
    }

    /// The state after the focus moves to `editor`, or to no editor.
    pub open spec fn set_active(self, editor: Option<WeakEditorHandle>) -> VimStateView {
        VimStateView { active_editor: editor, ..self }
    }

    /// Whether an editor has the focus and still exists among `editors`.
    pub open spec fn active_resolves(self, editors: Map<WeakEditorHandle, Editor>) -> bool {
        self.active_editor matches Some(handle) && editors.contains_key(handle)
    }

    /// Whether some identifier is registered with `handle`.
    pub open spec fn registered(self, handle: WeakEditorHandle) -> bool {
        self.editors.contains_value(handle)
    }

    /// Whether `id` is registered and no other identifier is registered with
    /// the same handle.
    pub open spec fn registered_once(self, id: usize) -> bool {
        &&& self.editors.contains_key(id)
        &&& forall|other: usize| #[trigger]
            self.editors.contains_key(other) && other != id ==> self.editors[other]
                != self.editors[id]
    }

    /// The settings that a synchronization gives to an editor.
    ///
    /// Switched on, the mode decides: its cursor, clipped at line ends only
    /// where it is a block, typed text forwarded only in insert mode, and
    /// the mode's keymap context layer. Switched off, the editor is as if
    /// modal editing did not exist: a bar that is not clipped, typed text
    /// forwarded, no layer.
    pub open spec fn editor_options(self) -> Editor {
        if self.enabled {
            Editor {
                cursor_shape: self.mode.cursor_shape(),
                clip_at_line_ends: self.mode.cursor_shape() == CursorShape::Block,
                input_enabled: self.mode == Mode::Insert,
                keymap_context_layer: Some(self.mode.keymap_context_layer()),
            }
        } else {
            Editor {
                cursor_shape: CursorShape::Bar,
                clip_at_line_ends: false,
                input_enabled: true,
                keymap_context_layer: None,
            }
        }
    }

    /// The editors after a synchronization: the same editors exist, each
    /// registered one holds [`Self::editor_options`], every other one is as
    /// it was.
    pub open spec fn sync(self, editors: Map<WeakEditorHandle, Editor>) -> Map<
        WeakEditorHandle,
        Editor,
    > {
        Map::new(
            |handle: WeakEditorHandle| editors.contains_key(handle),
            |handle: WeakEditorHandle|
                if self.registered(handle) {
                    self.editor_options()
                } else {
                    editors[handle]
                },
        )
    }

    /// The state and the editors after a request to enter `mode`: the mode
    /// is `mode`, and the editors are synchronized with it.
    pub open spec fn switch_mode(self, mode: Mode, editors: Map<WeakEditorHandle, Editor>) -> (
        VimStateView,
        Map<WeakEditorHandle, Editor>,
    ) {
        let next = VimStateView { mode, ..self };
        (next, next.sync(editors))
    }

    /// The state and the editors after requests to enter each of `modes`,
    /// one after the other.
    pub open spec fn switch_modes(
        self,
        modes: Seq<Mode>,
        editors: Map<WeakEditorHandle, Editor>,
    ) -> (VimStateView, Map<WeakEditorHandle, Editor>)
        decreases modes.len(),
    {
        if modes.len() == 0 {
            (self, editors)
        } else {
            let (next, synced) = self.switch_mode(modes.first(), editors);
            next.switch_modes(modes.drop_first(), synced)
        }
    }

    /// The state and the editors after modal editing is set to `enabled`.
    ///
    /// Where that is what it was, nothing changes and nothing is
    /// synchronized. Otherwise the mode is reset, to normal mode when
    /// switching on and to the default mode when switching off, whatever it
    /// was before, and the editors are synchronized.
    pub open spec fn set_enabled(self, enabled: bool, editors: Map<WeakEditorHandle, Editor>) -> (
        VimStateView,
        Map<WeakEditorHandle, Editor>,
    ) {
        if self.enabled == enabled {
            (self, editors)
        } else {
            let next = VimStateView {
                enabled,
                mode: if enabled {
                    Mode::spec_normal()
                } else {
                    Mode::spec_default()
                },
                ..self
            };
            (next, next.sync(editors))
        }
    }
}

} // verus!
