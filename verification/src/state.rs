//! The global modal state and the operations that change it.

use std::collections::HashMap;
use vstd::prelude::*;
use vstd::std_specs::iter::IteratorSpec;
use crate::arena::{EditorArena, WeakEditorHandle};
use crate::editor::{CursorShape, Editor};
use crate::mode::Mode;
use crate::model::VimStateView;
use crate::walk::{
    lemma_entries_list_every_id_once, lemma_walk_frame, lemma_walk_prefix, lemma_walk_visits_once,
    visited, walked,
};

verus! {

broadcast use vstd::std_specs::hash::group_hash_axioms;

/// The request to enter a mode.
#[derive(Clone, Copy, Debug, PartialEq, Eq)]
pub struct SwitchMode(pub Mode);

/// The modal state of the process: one mode and one switch for all editors,
/// and the editors that were announced to it.
///
/// The state owns no editor. It holds handles that the host's arena resolves
/// or fails to resolve, and an editor that fails to resolve is passed over.
pub struct VimState {
    editors: HashMap<usize, WeakEditorHandle>,
    active_editor: Option<WeakEditorHandle>,
    enabled: bool,
    mode: Mode,
}

impl View for VimState {
    type V = VimStateView;

    closed spec fn view(&self) -> VimStateView {
        VimStateView {
            editors: self.editors@,
            active_editor: self.active_editor,
            enabled: self.enabled,
            mode: self.mode,
        }
    }
}

impl Default for VimState {
    /// The state at process start.
    fn default() -> (state: VimState)
        ensures
            state@ == VimStateView::initial(),
    {
        VimState::new()
    }
}

impl VimState {
    /// The state at process start.
    pub fn new() -> (state: VimState)
        ensures
            state@ == VimStateView::initial(),
    {
        VimState {
            editors: HashMap::new(),
            active_editor: None,
            enabled: false,
            mode: Mode::default(),
        }
    }

    /// Whether modal editing is switched on.
    pub fn enabled(&self) -> (enabled: bool)
        ensures
            enabled == self@.enabled,
    {
        self.enabled
    }

    /// The current mode.
    pub fn mode(&self) -> (mode: Mode)
        ensures
            mode == self@.mode,
    {
        self.mode
    }

    /// The editor that was focused last, if any. The handle may have stopped
    /// resolving since.
    pub fn active_editor(&self) -> (editor: Option<WeakEditorHandle>)
        ensures
            editor == self@.active_editor,
    {
        self.active_editor
    }

    /// The handle registered under `id`, if any.
    pub fn registered_editor(&self, id: usize) -> (editor: Option<WeakEditorHandle>)
        ensures
            editor == if self@.editors.contains_key(id) {
                Some(self@.editors[id])
            } else {
                None
            },
    {
        match self.editors.get(&id) {
            Some(handle) => Some(*handle),
            None => None,
        }
    }

    /// Announces an editor under its identifier. A handle registered under
    /// the same identifier before is replaced. Nothing is pushed to the
    /// editor: it is configured by the next change of mode or switch.
    pub fn register(&mut self, id: usize, editor: WeakEditorHandle)
        ensures
            final(self)@ == old(self)@.register(id, editor),
    {
        self.editors.insert(id, editor);
    }

    /// Records which editor has the focus, or that none has.
    pub fn set_active(&mut self, editor: Option<WeakEditorHandle>)
        ensures
            final(self)@ == old(self)@.set_active(editor),
    {
        self.active_editor = editor;
    }

    /// Calls `f` on every registered editor that still exists and puts what
    /// it returns in the editor's place, once for each identifier the editor
    /// is registered under, in an order that is left open. A handle that no
    /// longer resolves is passed over: it is neither removed nor an error.
    ///
    /// The clause on [`walked`] states this in full, as a walk from the arena
    /// before the call to the arena after it. The clauses after it spell out
    /// what follows for one editor: none is created or closed, one that is
    /// not registered is not touched, and one that is registered under a
    /// single identifier is what `f` returns for it.
    pub fn for_each_live<F: Fn(Editor) -> Editor>(&self, cx: &mut EditorArena, f: F)
        requires
            forall|editor: Editor| f.requires((editor,)),
        ensures
            final(cx).created() == old(cx).created(),
            exists|ids: Seq<usize>, states: Seq<Map<WeakEditorHandle, Editor>>|
                #[trigger] walked(f, self@.editors, ids, states) && states.first() == old(cx)@
                    && states.last() == final(cx)@,
            final(cx)@.dom() == old(cx)@.dom(),
            forall|handle: WeakEditorHandle|
                #![trigger old(cx)@.contains_key(handle)]
                #![trigger final(cx)@[handle]]
                old(cx)@.contains_key(handle) && !self@.registered(handle) ==> final(cx)@[handle]
                    == old(cx)@[handle],
            forall|id: usize| #[trigger]
                self@.registered_once(id) && old(cx)@.contains_key(self@.editors[id])
                    ==> f.ensures(
                    (old(cx)@[self@.editors[id]],),
                    final(cx)@[self@.editors[id]],
                ),
    {
        let ghost mut ids: Seq<usize> = Seq::empty();
        let ghost mut states: Seq<Map<WeakEditorHandle, Editor>> = seq![cx@];
        for entry in it: self.editors.iter()
            invariant
                forall|editor: Editor| f.requires((editor,)),
                it.seq() == self.editors.iter().remaining(),
                it.seq().no_duplicates(),
                cx.created() == old(cx).created(),
                ids.len() == it.index(),
                states.len() == ids.len() + 1,
                states.first() == old(cx)@,
                states.last() == cx@,
                forall|i: int| 0 <= i < ids.len() ==> ids[i] == *(#[trigger] it.seq()[i]).0,
                forall|i: int|
                    0 <= i < ids.len() ==> visited(
                        f,
                        states[i],
                        self.editors@[#[trigger] ids[i]],
                        states[i + 1],
                    ),
        {
            let (id, handle) = entry;
            let ghost before = cx@;
            match handle.upgrade(cx) {
                Some(editor) => {
                    *editor = f(*editor);
                },
                None => {},
            }
            proof {
                assert(visited(f, before, *handle, cx@));
                ids = ids.push(*id);
                states = states.push(cx@);
            }
        }
        proof {
            lemma_entries_list_every_id_once(
                self@.editors,
                self.editors.iter().remaining(),
                ids,
            );
            assert(walked(f, self@.editors, ids, states));
            lemma_walk_frame(f, self@.editors, ids, states, 0, ids.len() as int);
            assert forall|handle: WeakEditorHandle| #[trigger]
                old(cx)@.contains_key(handle) && !self@.registered(handle) implies cx@[handle]
                == old(cx)@[handle] by {
                assert forall|i: int| 0 <= i < ids.len() implies self@.editors[#[trigger] ids[i]]
                    != handle by {
                    assert(ids.to_set().contains(ids[i]));
                }
            }
            assert forall|id: usize| #[trigger]
                self@.registered_once(id) && old(cx)@.contains_key(
                    self@.editors[id],
                ) implies f.ensures((old(cx)@[self@.editors[id]],), cx@[self@.editors[id]]) by {
                lemma_walk_visits_once(f, self@.editors, ids, states, id);
            }
        }
    }

    /// Calls `update` on the focused editor and returns what it returns.
    /// Where no editor has the focus, or the focused editor no longer exists,
    /// nothing is called and the result is `None`.
    pub fn update_active_editor<S, F: FnOnce(&mut Editor) -> S>(
        &self,
        cx: &mut EditorArena,
        update: F,
    ) -> (result: Option<S>)
        requires
            forall|editor: &mut Editor|
                self@.active_resolves(old(cx)@) && *editor == old(cx)@[self@.active_editor->0]
                    ==> update.requires((editor,)),
        ensures
            final(cx).created() == old(cx).created(),
            result is Some <==> self@.active_resolves(old(cx)@),
            result is Some ==> exists|editor: &mut Editor, returned: S| #[trigger]
                update.ensures((editor,), returned) && result == Some(returned) && *editor == old(
                    cx,
                )@[self@.active_editor->0] && final(cx)@ == old(cx)@.insert(
                    self@.active_editor->0,
                    *final(editor),
                ),
            result is None ==> final(cx)@ == old(cx)@,
    {
        match self.active_editor {
            Some(handle) => match handle.upgrade(cx) {
                Some(editor) => Some(update(editor)),
                None => None,
            },
            None => None,
        }
    }

    /// Pushes the settings that go with the switch and the mode to every
    /// registered editor that still exists, and touches no other editor. A
    /// registered handle that no longer resolves is passed over. See
    /// [`VimStateView::sync`] and [`VimStateView::editor_options`].
    pub fn sync_editor_options(&self, cx: &mut EditorArena)
        ensures
            final(cx).created() == old(cx).created(),
            final(cx)@ == self@.sync(old(cx)@),
    {
        let enabled = self.enabled;
        let mode = self.mode;
        let cursor_shape = mode.cursor_shape();
        let ghost options = self@.editor_options();
        let configure = |editor: Editor| -> (configured: Editor)
            ensures
                configured == options,
            {
                let mut editor = editor;
                if enabled {
                    editor.set_cursor_shape(cursor_shape);
                    editor.set_clip_at_line_ends(cursor_shape == CursorShape::Block);
                    editor.set_input_enabled(mode == Mode::Insert);
                    editor.set_keymap_context_layer(mode.keymap_context_layer());
                } else {
                    editor.set_cursor_shape(CursorShape::Bar);
                    editor.set_clip_at_line_ends(false);
                    editor.set_input_enabled(true);
                    editor.remove_keymap_context_layer();
                }
                editor
            };
        self.for_each_live(cx, configure);
        proof {
            let (ids, states) = choose|
                ids: Seq<usize>,
                states: Seq<Map<WeakEditorHandle, Editor>>,
            |
                #[trigger] walked(configure, self@.editors, ids, states) && states.first() == old(
                    cx,
                )@ && states.last() == cx@;
            lemma_walk_prefix(configure, self@.editors, ids, states, options, ids.len() as int);
            assert forall|handle: WeakEditorHandle| #[trigger]
                old(cx)@.contains_key(handle) implies cx@[handle] == self@.sync(old(cx)@)[handle] by {
                if self@.registered(handle) {
                    let id: usize = choose|id: usize| #[trigger]
                        self@.editors.contains_key(id) && self@.editors[id] == handle;
                    assert(ids.to_set().contains(id));
                    let i: int = choose|i: int| 0 <= i < ids.len() && ids[i] == id;
                    assert(self@.editors[ids[i]] == handle);
                } else if exists|i: int|
                    0 <= i < ids.len() && self@.editors[#[trigger] ids[i]] == handle {
                    let i: int = choose|i: int|
                        0 <= i < ids.len() && self@.editors[#[trigger] ids[i]] == handle;
                    assert(ids.to_set().contains(ids[i]));
                    assert(self@.editors.contains_key(ids[i]));
                }
            }
        }
    }

    /// Enters the mode that `action` asks for and synchronizes the editors
    /// with it. This holds whether or not modal editing is switched on.
    pub fn switch_mode(&mut self, action: &SwitchMode, cx: &mut EditorArena)
        ensures
            final(cx).created() == old(cx).created(),
            (final(self)@, final(cx)@) == old(self)@.switch_mode(action.0, old(cx)@),
    {
        self.mode = action.0;
        self.sync_editor_options(cx);
    }

    /// Switches modal editing on or off.
    ///
    /// Where `enabled` is what the switch already is, the call does nothing:
    /// the mode stays and no editor is touched. Otherwise the mode is reset,
    /// to normal mode when switching on and to the default mode when
    /// switching off, and the editors are synchronized. See
    /// [`VimStateView::set_enabled`].
    pub fn set_enabled(&mut self, enabled: bool, cx: &mut EditorArena)
        ensures
            final(cx).created() == old(cx).created(),
            (final(self)@, final(cx)@) == old(self)@.set_enabled(enabled, old(cx)@),
    {
        if self.enabled != enabled {
            self.enabled = enabled;
            self.mode = Mode::default();
            if enabled {
                self.mode = Mode::normal();
            }
            self.sync_editor_options(cx);
        }
    }
}

} // verus!
