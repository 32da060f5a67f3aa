use vim::arena::{EditorArena, WeakEditorHandle};
use vim::editor::{CursorShape, Editor};
use vim::mode::{KeymapContextLayer, Mode};
use vim::{SwitchMode, VimState};

const NORMAL_OPTIONS: Editor = Editor {
    cursor_shape: CursorShape::Block,
    clip_at_line_ends: true,
    input_enabled: false,
    keymap_context_layer: Some(KeymapContextLayer::Normal),
};

const INSERT_OPTIONS: Editor = Editor {
    cursor_shape: CursorShape::Bar,
    clip_at_line_ends: false,
    input_enabled: true,
    keymap_context_layer: Some(KeymapContextLayer::Insert),
};

const DISABLED_OPTIONS: Editor = Editor {
    cursor_shape: CursorShape::Bar,
    clip_at_line_ends: false,
    input_enabled: true,
    keymap_context_layer: None,
};

fn one_registered_editor() -> (VimState, EditorArena, WeakEditorHandle) {
    let mut cx = EditorArena::new();
    let handle = cx.add_editor(Editor::new());
    let mut state = VimState::new();
    state.register(handle.id, handle);
    state.set_active(Some(handle));
    (state, cx, handle)
}

#[test]
fn enabling_enters_normal_mode_and_configures_the_editor() {
    let (mut state, mut cx, handle) = one_registered_editor();
    state.set_enabled(true, &mut cx);
    assert!(state.enabled());
    assert_eq!(state.mode(), Mode::Normal);
    assert_eq!(cx.editor(handle), Some(&NORMAL_OPTIONS));
}

#[test]
fn insert_mode_configures_the_editor_for_typing() {
    let (mut state, mut cx, handle) = one_registered_editor();
    state.set_enabled(true, &mut cx);
    state.switch_mode(&SwitchMode(Mode::Insert), &mut cx);
    assert!(state.enabled());
    assert_eq!(state.mode(), Mode::Insert);
    assert_eq!(cx.editor(handle), Some(&INSERT_OPTIONS));
}

#[test]
fn switching_back_to_normal_replaces_the_insert_layer() {
    let (mut state, mut cx, handle) = one_registered_editor();
    state.set_enabled(true, &mut cx);
    state.switch_mode(&SwitchMode(Mode::Insert), &mut cx);
    state.switch_mode(&SwitchMode(Mode::Normal), &mut cx);
    assert_eq!(state.mode(), Mode::Normal);
    assert_eq!(cx.editor(handle), Some(&NORMAL_OPTIONS));
}

#[test]
fn disabling_resets_the_editor_whatever_the_mode_was() {
    let (mut state, mut cx, handle) = one_registered_editor();
    state.set_enabled(true, &mut cx);
    state.set_enabled(false, &mut cx);
    assert!(!state.enabled());
    assert_eq!(state.mode(), Mode::default());
    assert_eq!(cx.editor(handle), Some(&DISABLED_OPTIONS));

    state.set_enabled(true, &mut cx);
    state.switch_mode(&SwitchMode(Mode::Insert), &mut cx);
    state.set_enabled(false, &mut cx);
    assert!(!state.enabled());
    assert_eq!(state.mode(), Mode::default());
    assert_eq!(cx.editor(handle), Some(&DISABLED_OPTIONS));
}

#[test]
fn switching_mode_while_disabled_keeps_the_editor_untouched_by_the_mode() {
    let (mut state, mut cx, handle) = one_registered_editor();
    state.switch_mode(&SwitchMode(Mode::Normal), &mut cx);
    assert!(!state.enabled());
    assert_eq!(state.mode(), Mode::Normal);
    assert_eq!(cx.editor(handle), Some(&DISABLED_OPTIONS));
}

#[test]
fn switching_mode_while_disabled_still_synchronizes() {
    let (mut state, mut cx, handle) = one_registered_editor();
    match handle.upgrade(&mut cx) {
        Some(editor) => {
            editor.set_cursor_shape(CursorShape::Block);
            editor.set_input_enabled(false);
        }
        None => panic!("the editor exists"),
    }
    state.switch_mode(&SwitchMode(Mode::Insert), &mut cx);
    assert_eq!(cx.editor(handle), Some(&DISABLED_OPTIONS));
}

#[test]
fn set_enabled_twice_is_set_enabled_once() {
    let (mut state, mut cx, handle) = one_registered_editor();
    state.set_enabled(true, &mut cx);
    state.switch_mode(&SwitchMode(Mode::Insert), &mut cx);

    state.set_enabled(true, &mut cx);
    assert!(state.enabled());
    assert_eq!(state.mode(), Mode::Insert);
    assert_eq!(cx.editor(handle), Some(&INSERT_OPTIONS));

    state.set_enabled(false, &mut cx);
    state.switch_mode(&SwitchMode(Mode::Normal), &mut cx);
    state.set_enabled(false, &mut cx);
    assert!(!state.enabled());
    assert_eq!(state.mode(), Mode::Normal);
    assert_eq!(cx.editor(handle), Some(&DISABLED_OPTIONS));
}

#[test]
fn repeated_set_enabled_does_not_synchronize_again() {
    let (mut state, mut cx, handle) = one_registered_editor();
    state.set_enabled(true, &mut cx);

    let late = cx.add_editor(Editor::new());
    state.register(late.id, late);
    match handle.upgrade(&mut cx) {
        Some(editor) => editor.set_input_enabled(true),
        None => panic!("the editor exists"),
    }

    state.set_enabled(true, &mut cx);

    assert_eq!(cx.editor(late), Some(&Editor::new()));
    assert_eq!(cx.editor(handle).map(|editor| editor.input_enabled), Some(true));
}

#[test]
fn initial_set_enabled_false_is_a_no_op() {
    let (mut state, mut cx, handle) = one_registered_editor();
    match handle.upgrade(&mut cx) {
        Some(editor) => editor.set_cursor_shape(CursorShape::Block),
        None => panic!("the editor exists"),
    }
    state.set_enabled(false, &mut cx);
    assert!(!state.enabled());
    assert_eq!(state.mode(), Mode::Insert);
    assert_eq!(cx.editor(handle).map(|editor| editor.cursor_shape), Some(CursorShape::Block));
}

#[test]
fn mode_does_not_survive_disable_and_enable() {
    let (mut state, mut cx, handle) = one_registered_editor();
    state.set_enabled(true, &mut cx);
    state.switch_mode(&SwitchMode(Mode::Insert), &mut cx);
    state.switch_mode(&SwitchMode(Mode::Normal), &mut cx);
    state.switch_mode(&SwitchMode(Mode::Insert), &mut cx);
    assert_eq!(state.mode(), Mode::Insert);

    state.set_enabled(false, &mut cx);
    state.set_enabled(true, &mut cx);

    assert!(state.enabled());
    assert_eq!(state.mode(), Mode::Normal);
    assert_eq!(cx.editor(handle), Some(&NORMAL_OPTIONS));
}

#[test]
fn closed_editor_is_left_out_of_the_synchronization() {
    let mut cx = EditorArena::new();
    let kept = cx.add_editor(Editor::new());
    let closed = cx.add_editor(Editor::new());
    let mut state = VimState::new();
    state.register(kept.id, kept);
    state.register(closed.id, closed);
    state.set_active(Some(closed));
    cx.remove_editor(closed);

    state.set_enabled(true, &mut cx);
    assert_eq!(cx.editor(kept), Some(&NORMAL_OPTIONS));
    assert_eq!(cx.editor(closed), None);

    state.switch_mode(&SwitchMode(Mode::Insert), &mut cx);
    assert_eq!(cx.editor(kept), Some(&INSERT_OPTIONS));
    assert_eq!(cx.editor(closed), None);

    state.set_enabled(false, &mut cx);
    assert_eq!(cx.editor(kept), Some(&DISABLED_OPTIONS));
    assert_eq!(cx.editor(closed), None);
    assert_eq!(state.registered_editor(closed.id), Some(closed));
}

#[test]
fn handle_that_never_resolved_is_left_out_of_the_synchronization() {
    let mut cx = EditorArena::new();
    let kept = cx.add_editor(Editor::new());
    let mut state = VimState::new();
    state.register(7, WeakEditorHandle { id: 7 });
    state.register(kept.id, kept);

    state.set_enabled(true, &mut cx);

    assert_eq!(cx.editor(kept), Some(&NORMAL_OPTIONS));
    assert_eq!(cx.editor(WeakEditorHandle { id: 7 }), None);
}

#[test]
fn transitions_with_no_editor_at_all_succeed() {
    let mut cx = EditorArena::new();
    let mut state = VimState::new();
    state.set_enabled(true, &mut cx);
    state.switch_mode(&SwitchMode(Mode::Insert), &mut cx);
    state.set_enabled(false, &mut cx);
    assert!(!state.enabled());
    assert_eq!(state.mode(), Mode::Insert);
}

#[test]
fn unregistered_editor_is_not_configured() {
    let mut cx = EditorArena::new();
    let registered = cx.add_editor(Editor::new());
    let unregistered = cx.add_editor(Editor::new());
    let mut state = VimState::new();
    state.register(registered.id, registered);

    state.set_enabled(true, &mut cx);

    assert_eq!(cx.editor(registered), Some(&NORMAL_OPTIONS));
    assert_eq!(cx.editor(unregistered), Some(&Editor::new()));
}

#[test]
fn editor_registered_later_is_configured_by_the_next_transition() {
    let (mut state, mut cx, handle) = one_registered_editor();
    state.set_enabled(true, &mut cx);

    let late = cx.add_editor(Editor::new());
    state.register(late.id, late);
    assert_eq!(cx.editor(late), Some(&Editor::new()));

    state.switch_mode(&SwitchMode(Mode::Insert), &mut cx);
    assert_eq!(cx.editor(late), Some(&INSERT_OPTIONS));
    assert_eq!(cx.editor(handle), Some(&INSERT_OPTIONS));
}

#[test]
fn every_registered_editor_observes_the_same_options() {
    let mut cx = EditorArena::new();
    let mut state = VimState::new();
    let mut handles = Vec::new();
    for id in 0..5usize {
        let handle = cx.add_editor(Editor::new());
        state.register(100 + id, handle);
        handles.push(handle);
    }

    state.set_enabled(true, &mut cx);
    for handle in &handles {
        assert_eq!(cx.editor(*handle), Some(&NORMAL_OPTIONS));
    }

    state.switch_mode(&SwitchMode(Mode::Insert), &mut cx);
    for handle in &handles {
        assert_eq!(cx.editor(*handle), Some(&INSERT_OPTIONS));
    }

    state.set_enabled(false, &mut cx);
    for handle in &handles {
        assert_eq!(cx.editor(*handle), Some(&DISABLED_OPTIONS));
    }
}

#[test]
fn sync_editor_options_pushes_the_current_state() {
    let (mut state, mut cx, handle) = one_registered_editor();
    state.set_enabled(true, &mut cx);
    let late = cx.add_editor(Editor::new());
    state.register(late.id, late);

    state.sync_editor_options(&mut cx);

    assert_eq!(cx.editor(handle), Some(&NORMAL_OPTIONS));
    assert_eq!(cx.editor(late), Some(&NORMAL_OPTIONS));
}

#[test]
fn clip_at_line_ends_goes_with_the_block_cursor() {
    let (mut state, mut cx, handle) = one_registered_editor();
    state.set_enabled(true, &mut cx);
    for mode in [Mode::Normal, Mode::Insert] {
        state.switch_mode(&SwitchMode(mode), &mut cx);
        let editor = cx.editor(handle).copied();
        assert_eq!(
            editor.map(|editor| editor.clip_at_line_ends),
            Some(mode.cursor_shape() == CursorShape::Block)
        );
        assert_eq!(editor.map(|editor| editor.cursor_shape), Some(mode.cursor_shape()));
        assert_eq!(editor.map(|editor| editor.input_enabled), Some(mode == Mode::Insert));
        assert_eq!(
            editor.and_then(|editor| editor.keymap_context_layer),
            Some(mode.keymap_context_layer())
        );
    }
}

#[test]
fn toggling_walks_through_the_whole_cycle() {
    let (mut state, mut cx, handle) = one_registered_editor();
    assert!(!state.enabled());

    state.set_enabled(true, &mut cx);
    assert_eq!(state.mode(), Mode::Normal);

    state.switch_mode(&SwitchMode(Mode::Insert), &mut cx);
    assert_eq!(cx.editor(handle).map(|editor| editor.input_enabled), Some(true));

    state.set_enabled(false, &mut cx);
    assert_eq!(cx.editor(handle).map(|editor| editor.input_enabled), Some(true));
    assert_eq!(cx.editor(handle).map(|editor| editor.cursor_shape), Some(CursorShape::Bar));
    assert_eq!(cx.editor(handle).map(|editor| editor.keymap_context_layer), Some(None));

    state.set_enabled(true, &mut cx);
    assert_eq!(state.mode(), Mode::Normal);
    assert_ne!(state.mode(), Mode::Insert);
}

#[test]
fn settings_toggle_restores_normal_mode() {
    let (mut state, mut cx, handle) = one_registered_editor();
    state.set_enabled(true, &mut cx);

    state.switch_mode(&SwitchMode(Mode::Insert), &mut cx);
    assert_eq!(state.mode(), Mode::Insert);

    state.set_enabled(false, &mut cx);
    assert_eq!(cx.editor(handle), Some(&DISABLED_OPTIONS));

    state.set_enabled(true, &mut cx);
    assert_eq!(state.mode(), Mode::normal());

    state.switch_mode(&SwitchMode(Mode::Insert), &mut cx);
    assert_eq!(state.mode(), Mode::Insert);
    state.set_enabled(false, &mut cx);
    state.set_enabled(true, &mut cx);
    assert_eq!(state.mode(), Mode::normal());
}

#[test]
fn active_editor_can_be_updated_between_transitions() {
    let (mut state, mut cx, handle) = one_registered_editor();
    state.set_enabled(true, &mut cx);

    let was_enabled = state.update_active_editor(&mut cx, |editor: &mut Editor| {
        let before = editor.input_enabled;
        editor.set_input_enabled(true);
        before
    });
    assert_eq!(was_enabled, Some(false));
    assert_eq!(cx.editor(handle).map(|editor| editor.input_enabled), Some(true));

    state.switch_mode(&SwitchMode(Mode::Normal), &mut cx);
    assert_eq!(cx.editor(handle), Some(&NORMAL_OPTIONS));
}
