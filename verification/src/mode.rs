//! The modal-editing states and the policy each one implies.
//!
//! A mode stores nothing: the cursor shape and the keymap context layer that
//! go with it are pure functions of the variant.

use vstd::prelude::*;
use crate::editor::CursorShape;

verus! {

/// The overlay of key bindings that a mode installs on an editing surface.
///
/// The key-dispatch layer of the host selects the active binding set by this
/// tag; distinct modes carry distinct tags.
#[derive(Clone, Copy, Debug, PartialEq, Eq, Structural)]
pub enum KeymapContextLayer {
    /// The bindings of normal mode.
    Normal,
    /// The bindings of insert mode.
    Insert,
}

impl KeymapContextLayer {
    /// The value that the layer binds to the `vim_mode` key, as a sequence of
    /// characters.
    pub open spec fn spec_vim_mode(&self) -> Seq<char> {
        match self {
            KeymapContextLayer::Normal => "normal"@,
            KeymapContextLayer::Insert => "insert"@,
        }
    }

    /// The value that the layer binds to the `vim_mode` key.
    pub fn vim_mode(&self) -> (name: &'static str)
        ensures
            name@ == self.spec_vim_mode(),
    {
        match self {
            KeymapContextLayer::Normal => "normal",
            KeymapContextLayer::Insert => "insert",
        }
    }
}

/// The modal state shared by every editing surface.
#[derive(Clone, Copy, Debug, PartialEq, Eq, Structural)]
pub enum Mode {
    /// Keys are commands. This is the mode entered when modal editing is
    /// switched on.
    Normal,
    /// Keys are text. This is the mode that holds while modal editing is
    /// switched off.
    Insert,
}

impl Mode {
    /// The mode entered whenever modal editing is switched on.
    pub open spec fn spec_normal() -> Mode {
        Mode::Normal
    }

    /// The mode that holds while modal editing is switched off.
    pub open spec fn spec_default() -> Mode {
        Mode::Insert
    }

    /// The cursor that goes with the mode.
    pub open spec fn spec_cursor_shape(&self) -> CursorShape {
        match self {
            Mode::Normal => CursorShape::Block,
            Mode::Insert => CursorShape::Bar,
        }
    }

    /// The keymap context layer that goes with the mode.
    pub open spec fn spec_keymap_context_layer(&self) -> KeymapContextLayer {
        match self {
            Mode::Normal => KeymapContextLayer::Normal,
            Mode::Insert => KeymapContextLayer::Insert,
        }
    }

    /// The mode entered whenever modal editing is switched on.
    #[verifier::when_used_as_spec(spec_normal)]
    pub fn normal() -> (mode: Mode)
        ensures
            mode == Mode::Normal,
    {
        Mode::Normal
    }

    /// The cursor that an editor shows in this mode: a block over the
    /// character a command acts on, a bar where text goes in.
    #[verifier::when_used_as_spec(spec_cursor_shape)]
    pub fn cursor_shape(&self) -> (shape: CursorShape)
        ensures
            shape == self.spec_cursor_shape(),
    {
        match self {
            Mode::Normal => CursorShape::Block,
            Mode::Insert => CursorShape::Bar,
        }
    }

    /// The keymap context layer that selects this mode's key bindings.
    #[verifier::when_used_as_spec(spec_keymap_context_layer)]
    pub fn keymap_context_layer(&self) -> (layer: KeymapContextLayer)
        ensures
            layer == self.spec_keymap_context_layer(),
    {
        match self {
            Mode::Normal => KeymapContextLayer::Normal,
            Mode::Insert => KeymapContextLayer::Insert,
        }
    }
}

impl Default for Mode {
    /// The mode that holds while modal editing is switched off. It differs
    /// from the mode that switching on enters.
    fn default() -> (mode: Mode)
        ensures
            mode == Mode::spec_default(),
            mode != Mode::spec_normal(),
    {
        Mode::Insert
    }
}

/// Distinct modes select distinct binding sets: the layer, and the name it
/// binds, determine the mode.
pub proof fn lemma_keymap_context_layer_injective(a: Mode, b: Mode)
    ensures
        a.keymap_context_layer() == b.keymap_context_layer() <==> a == b,
        a.keymap_context_layer().spec_vim_mode() == b.keymap_context_layer().spec_vim_mode()
            <==> a == b,
{
    reveal_strlit("normal");
    reveal_strlit("insert");
    assert("normal"@[0] != "insert"@[0]);
}

} // verus!
