//! The arena in which the host keeps its editing surfaces.
//!
//! Modal editing never owns a surface. It holds a [`WeakEditorHandle`], a
//! token that the arena resolves to the surface while the surface exists and
//! to nothing once the host has closed it.

use vstd::prelude::*;
use crate::editor::Editor;

verus! {

/// A reference to an editing surface that does not keep the surface alive.
#[derive(Clone, Copy, Debug, PartialEq, Eq, Structural)]
pub struct WeakEditorHandle {
    /// The slot of the arena that the surface was created in.
    pub id: usize,
}

/// The editing surfaces of the host.
///
/// Each surface lives in a slot of its own. Closing a surface empties its
/// slot for good, so a handle to a closed surface never resolves again.
pub struct EditorArena {
    slots: Vec<Option<Editor>>,
}

impl View for EditorArena {
    type V = Map<WeakEditorHandle, Editor>;

    /// The surfaces that exist, each under the handle that resolves to it.
    closed spec fn view(&self) -> Map<WeakEditorHandle, Editor> {
        Map::new(
            |handle: WeakEditorHandle|
                handle.id < self.slots@.len() && self.slots@[handle.id as int] is Some,
            |handle: WeakEditorHandle| self.slots@[handle.id as int]->0,
        )
    }
}

impl EditorArena {
    /// The number of surfaces that were ever created in the arena.
    pub closed spec fn created(&self) -> nat {
        self.slots@.len()
    }

    /// A handle resolves only if its surface was created in this arena: a
    /// handle that a later [`Self::add_editor`] returns has never resolved.
    pub proof fn lemma_live_was_created(&self, handle: WeakEditorHandle)
        requires
            self@.contains_key(handle),
        ensures
            handle.id < self.created(),
    {
    }

    /// An arena without surfaces.
    pub fn new() -> (cx: EditorArena)
        ensures
            cx@ == Map::<WeakEditorHandle, Editor>::empty(),
            cx.created() == 0,
    {
        let cx = EditorArena { slots: Vec::new() };
        cx
    }

    /// Creates a surface and returns the handle that resolves to it. The
    /// handle is new: it has never resolved in this arena before.
    pub fn add_editor(&mut self, editor: Editor) -> (handle: WeakEditorHandle)
        ensures
            handle.id == old(self).created(),
            !old(self)@.contains_key(handle),
            final(self).created() == old(self).created() + 1,
            final(self)@ == old(self)@.insert(handle, editor),
    {
        let handle = WeakEditorHandle { id: self.slots.len() };
        self.slots.push(Some(editor));
        handle
    }

    /// Closes the surface that `handle` resolves to and returns it. From
    /// then on the handle resolves to nothing.
    pub fn remove_editor(&mut self, handle: WeakEditorHandle) -> (editor: Option<Editor>)
        ensures
            final(self).created() == old(self).created(),
            final(self)@ == old(self)@.remove(handle),
            editor == if old(self)@.contains_key(handle) {
                Some(old(self)@[handle])
            } else {
                None
            },
    {
        if handle.id < self.slots.len() {
            let editor = self.slots[handle.id];
            self.slots[handle.id] = None;
            editor
        } else {
            None
        }
    }

    /// Resolves `handle` for reading.
    pub fn editor(&self, handle: WeakEditorHandle) -> (editor: Option<&Editor>)
        ensures
            editor == if self@.contains_key(handle) {
                Some(&self@[handle])
            } else {
                None
            },
    {
        if handle.id < self.slots.len() {
            self.slots[handle.id].as_ref()
        } else {
            None
        }
    }
}

impl WeakEditorHandle {
    /// Resolves the handle. While the surface exists the result is the
    /// surface itself, and what the caller writes to it is what the arena
    /// holds afterwards; once the surface is closed the result is `None`.
    pub fn upgrade<'a>(&self, cx: &'a mut EditorArena) -> (editor: Option<&'a mut Editor>)
        ensures
            editor is Some <==> old(cx)@.contains_key(*self),
            editor matches Some(e) ==> *e == old(cx)@[*self] && final(cx)@ == old(cx)@.insert(
                *self,
                *final(e),
            ),
            editor is None ==> final(cx)@ == old(cx)@,
            final(cx).created() == old(cx).created(),
    {
        if self.id < cx.slots.len() {
            match &mut cx.slots[self.id] {
                Some(e) => Some(e),
                None => None,
            }
        } else {
            None
        }
    }
}

} // verus!
