//! The editing surface of the host, as far as modal editing configures it.

use vstd::prelude::*;
use crate::mode::KeymapContextLayer;

verus! {

/// How an editing surface draws its cursor.
#[derive(Clone, Copy, Debug, PartialEq, Eq, Structural)]
pub enum CursorShape {
    /// A thin bar between two characters.
    Bar,
    /// A block that covers one character.
    Block,
}

impl Default for CursorShape {
    /// The shape of an editor that no mode has configured.
    fn default() -> (shape: CursorShape)
        ensures
            shape == CursorShape::Bar,
    {
        CursorShape::Bar
    }
}

/// One editing surface of the host.
///
/// The value holds the four settings that modal editing pushes to a surface
/// and nothing else of it: text, selections and rendering stay with the host.
#[derive(Clone, Copy, Debug, PartialEq, Eq)]
pub struct Editor {
    /// How the cursor is drawn.
    pub cursor_shape: CursorShape,
    /// Whether the cursor is kept off the position after the last character
    /// of a line.
    pub clip_at_line_ends: bool,
    /// Whether typed text is forwarded to the buffer.
    pub input_enabled: bool,
    /// The keymap context layer that modal editing has installed, if any.
    pub keymap_context_layer: Option<KeymapContextLayer>,
}

impl Editor {
    /// A surface as the host creates it, before modal editing has touched it.
    pub open spec fn spec_new() -> Editor {
        Editor {
            cursor_shape: CursorShape::Bar,
            clip_at_line_ends: false,
            input_enabled: true,
            keymap_context_layer: None,
        }
    }

    /// A surface as the host creates it: a bar cursor that is not clipped,
    /// typed text forwarded, no keymap context layer.
    #[verifier::when_used_as_spec(spec_new)]
    pub fn new() -> (editor: Editor)
        ensures
            editor == Editor::spec_new(),
    {
        Editor {
            cursor_shape: CursorShape::Bar,
            clip_at_line_ends: false,
            input_enabled: true,
            keymap_context_layer: None,
        }
    }

    /// Sets how the cursor is drawn.
    pub fn set_cursor_shape(&mut self, cursor_shape: CursorShape)
        ensures
            *final(self) == (Editor { cursor_shape, ..*old(self) }),
    {
        self.cursor_shape = cursor_shape;
    }

    /// Sets whether the cursor is kept off the position after the last
    /// character of a line.
    pub fn set_clip_at_line_ends(&mut self, clip: bool)
        ensures
            *final(self) == (Editor { clip_at_line_ends: clip, ..*old(self) }),
    {
        self.clip_at_line_ends = clip;
    }

    /// Sets whether typed text is forwarded to the buffer.
    pub fn set_input_enabled(&mut self, input_enabled: bool)
        ensures
            *final(self) == (Editor { input_enabled, ..*old(self) }),
    {
        self.input_enabled = input_enabled;
    }

    /// Installs `layer`, in place of the layer that was installed before.
    pub fn set_keymap_context_layer(&mut self, layer: KeymapContextLayer)
        ensures
            *final(self) == (Editor { keymap_context_layer: Some(layer), ..*old(self) }),
    {
        self.keymap_context_layer = Some(layer);
    }

    /// Removes the installed layer. Without one the call changes nothing.
    pub fn remove_keymap_context_layer(&mut self)
        ensures
            *final(self) == (Editor { keymap_context_layer: None, ..*old(self) }),
    {
        self.keymap_context_layer = None;
    }
}

} // verus!
