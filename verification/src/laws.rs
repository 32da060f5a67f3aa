//! What holds of the modal state across calls.
//!
//! Each statement is over the mathematical model of the state,
//! [`VimStateView`], and of the host's editors, a map from handle to
//! [`Editor`]: the values of which the contracts of [`VimState`] speak.
//!
//! [`VimState`]: crate::state::VimState

use vstd::prelude::*;
use crate::arena::WeakEditorHandle;
use crate::editor::{CursorShape, Editor};
use crate::mode::{KeymapContextLayer, Mode};
use crate::model::VimStateView;

verus! {

/// Announcing an editor twice under one identifier is announcing it once.
pub proof fn lemma_register_idempotent(state: VimStateView, id: usize, editor: WeakEditorHandle)
    ensures
        state.register(id, editor).register(id, editor) == state.register(id, editor),
        state.register(id, editor).editors[id] == editor,
{
    assert(state.editors.insert(id, editor).insert(id, editor) =~= state.editors.insert(
        id,
        editor,
    ));
}

/// Setting the switch twice to the same value is setting it once.
///
/// After `set_enabled(enabled)`, a second `set_enabled(enabled)` leaves the
/// state as it is and touches no editor, whatever the editors are by then:
/// nothing is synchronized a second time.
pub proof fn lemma_set_enabled_idempotent(
    state: VimStateView,
    enabled: bool,
    editors: Map<WeakEditorHandle, Editor>,
    later: Map<WeakEditorHandle, Editor>,
)
    ensures
        state.set_enabled(enabled, editors).0.set_enabled(enabled, later) == (
            state.set_enabled(enabled, editors).0,
            later,
        ),
        state.set_enabled(enabled, editors).0.set_enabled(
            enabled,
            state.set_enabled(enabled, editors).1,
        ) == state.set_enabled(enabled, editors),
{
}

/// No mode survives switching off and on again.
///
/// Whatever modes were entered, in whatever order, once modal editing is
/// switched off and on again the mode is normal mode, and modal editing is
/// on.
pub proof fn lemma_disable_enable_resets_mode(
    state: VimStateView,
    modes: Seq<Mode>,
    editors: Map<WeakEditorHandle, Editor>,
)
    ensures
        ({
            let (switched, e1) = state.switch_modes(modes, editors);
            let (disabled, e2) = switched.set_enabled(false, e1);
            let (enabled, e3) = disabled.set_enabled(true, e2);
            &&& !disabled.enabled
            &&& enabled.enabled
            &&& enabled.mode == Mode::Normal
        }),
{
}

/// A synchronization depends on the switch, on the mode, and on which of the
/// existing editors are registered; on nothing else of the state.
pub proof fn lemma_sync_reads_live_registrations(
    first: VimStateView,
    second: VimStateView,
    editors: Map<WeakEditorHandle, Editor>,
)
    requires
        first.enabled == second.enabled,
        first.mode == second.mode,
        forall|handle: WeakEditorHandle| #[trigger]
            editors.contains_key(handle) ==> (first.registered(handle) <==> second.registered(
                handle,
            )),
    ensures
        first.sync(editors) == second.sync(editors),
{
    assert(first.sync(editors) =~= second.sync(editors));
}

/// A registered handle that no longer resolves changes nothing.
///
/// Every transition leaves the set of existing editors as it was, so the
/// editor that is gone stays gone, and does to the others what it would do
/// were the identifier not registered.
pub proof fn lemma_dead_reference_is_passed_over(
    state: VimStateView,
    id: usize,
    editors: Map<WeakEditorHandle, Editor>,
    mode: Mode,
    enabled: bool,
)
    requires
        state.editors.contains_key(id),
        !editors.contains_key(state.editors[id]),
    ensures
        ({
            let without = VimStateView { editors: state.editors.remove(id), ..state };
            &&& state.sync(editors).dom() == editors.dom()
            &&& state.sync(editors) == without.sync(editors)
            &&& state.switch_mode(mode, editors).1 == without.switch_mode(mode, editors).1
            &&& state.set_enabled(enabled, editors).1 == without.set_enabled(enabled, editors).1
        }),
{
    let without = VimStateView { editors: state.editors.remove(id), ..state };
    assert forall|handle: WeakEditorHandle| #[trigger] editors.contains_key(handle) implies (
    state.registered(handle) <==> without.registered(handle)) by {
        if state.registered(handle) {
            let other: usize = choose|other: usize|
                state.editors.contains_key(other) && state.editors[other] == handle;
            assert(without.editors.contains_key(other));
        }
        if without.registered(handle) {
            let other: usize = choose|other: usize|
                without.editors.contains_key(other) && without.editors[other] == handle;
            assert(state.editors.contains_key(other));
        }
    }
    lemma_sync_reads_live_registrations(state, without, editors);
    lemma_sync_reads_live_registrations(
        state.switch_mode(mode, editors).0,
        without.switch_mode(mode, editors).0,
        editors,
    );
    if state.enabled != enabled {
        lemma_sync_reads_live_registrations(
            state.set_enabled(enabled, editors).0,
            without.set_enabled(enabled, editors).0,
            editors,
        );
    }
}

/// While modal editing is off, the editors are as if it did not exist.
///
/// A synchronization in the switched-off state gives every registered
/// editor that exists a bar cursor that is not clipped, forwards typed text
/// to it and leaves it no keymap context layer, whatever the mode is. A
/// request to enter a mode while switched off is such a synchronization.
pub proof fn lemma_disabled_passthrough(
    state: VimStateView,
    editors: Map<WeakEditorHandle, Editor>,
    handle: WeakEditorHandle,
    mode: Mode,
)
    requires
        !state.enabled,
        state.registered(handle),
        editors.contains_key(handle),
    ensures
        state.sync(editors)[handle] == (Editor {
            cursor_shape: CursorShape::Bar,
            clip_at_line_ends: false,
            input_enabled: true,
            keymap_context_layer: None,
        }),
        state.switch_mode(mode, editors).1[handle] == state.sync(editors)[handle],
{
}

/// Switching off resets every registered editor that exists, whatever the
/// mode was: the editor is left with a bar cursor that is not clipped, typed
/// text forwarded and no keymap context layer, and the mode is the default
/// mode.
pub proof fn lemma_disabling_resets_editors(
    state: VimStateView,
    editors: Map<WeakEditorHandle, Editor>,
    handle: WeakEditorHandle,
)
    requires
        state.enabled,
        state.registered(handle),
        editors.contains_key(handle),
    ensures
        !state.set_enabled(false, editors).0.enabled,
        state.set_enabled(false, editors).0.mode == Mode::spec_default(),
        state.set_enabled(false, editors).1[handle] == (Editor {
            cursor_shape: CursorShape::Bar,
            clip_at_line_ends: false,
            input_enabled: true,
            keymap_context_layer: None,
        }),
{
}

/// While modal editing is on, the mode decides what the editors look like.
///
/// A synchronization in normal mode gives every registered editor that
/// exists a clipped block cursor, keeps typed text from it and installs the
/// layer of normal mode; in insert mode, a bar cursor that is not clipped,
/// typed text forwarded and the layer of insert mode.
pub proof fn lemma_enabled_editors_follow_mode(
    state: VimStateView,
    editors: Map<WeakEditorHandle, Editor>,
    handle: WeakEditorHandle,
)
    requires
        state.enabled,
        state.registered(handle),
        editors.contains_key(handle),
    ensures
        state.mode == Mode::Normal ==> state.sync(editors)[handle] == (Editor {
            cursor_shape: CursorShape::Block,
            clip_at_line_ends: true,
            input_enabled: false,
            keymap_context_layer: Some(KeymapContextLayer::Normal),
        }),
        state.mode == Mode::Insert ==> state.sync(editors)[handle] == (Editor {
            cursor_shape: CursorShape::Bar,
            clip_at_line_ends: false,
            input_enabled: true,
            keymap_context_layer: Some(KeymapContextLayer::Insert),
        }),
{
}

/// There is one mode for all editors: after a synchronization any two
/// registered editors that exist hold the same settings.
pub proof fn lemma_sync_is_uniform(
    state: VimStateView,
    editors: Map<WeakEditorHandle, Editor>,
    first: WeakEditorHandle,
    second: WeakEditorHandle,
)
    requires
        state.registered(first),
        state.registered(second),
        editors.contains_key(first),
        editors.contains_key(second),
    ensures
        state.sync(editors)[first] == state.sync(editors)[second],
{
}

} // verus!
