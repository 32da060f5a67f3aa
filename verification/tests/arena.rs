use vim::arena::{EditorArena, WeakEditorHandle};
use vim::editor::{CursorShape, Editor};

#[test]
fn empty_arena_resolves_nothing() {
    let mut cx = EditorArena::new();
    let handle = WeakEditorHandle { id: 0 };
    assert_eq!(cx.editor(handle), None);
    assert!(handle.upgrade(&mut cx).is_none());
}

#[test]
fn handles_are_handed_out_in_order() {
    let mut cx = EditorArena::new();
    let first = cx.add_editor(Editor::new());
    let second = cx.add_editor(Editor::new());
    assert_eq!(first, WeakEditorHandle { id: 0 });
    assert_eq!(second, WeakEditorHandle { id: 1 });
}

#[test]
fn added_editor_resolves_to_what_was_added() {
    let mut cx = EditorArena::new();
    let mut editor = Editor::new();
    editor.set_cursor_shape(CursorShape::Block);
    let handle = cx.add_editor(editor);
    assert_eq!(cx.editor(handle), Some(&editor));
}

#[test]
fn writes_through_an_upgraded_handle_reach_the_arena() {
    let mut cx = EditorArena::new();
    let first = cx.add_editor(Editor::new());
    let second = cx.add_editor(Editor::new());

    match second.upgrade(&mut cx) {
        Some(editor) => editor.set_input_enabled(false),
        None => panic!("the editor exists"),
    }

    assert_eq!(cx.editor(first), Some(&Editor::new()));
    assert_eq!(cx.editor(second).map(|editor| editor.input_enabled), Some(false));
}

#[test]
fn removed_editor_is_returned_and_no_longer_resolves() {
    let mut cx = EditorArena::new();
    let first = cx.add_editor(Editor::new());
    let second = cx.add_editor(Editor::new());

    assert_eq!(cx.remove_editor(first), Some(Editor::new()));
    assert_eq!(cx.editor(first), None);
    assert!(first.upgrade(&mut cx).is_none());
    assert_eq!(cx.editor(second), Some(&Editor::new()));

    assert_eq!(cx.remove_editor(first), None);
}

#[test]
fn slot_of_a_removed_editor_is_not_reused() {
    let mut cx = EditorArena::new();
    let first = cx.add_editor(Editor::new());
    cx.remove_editor(first);
    let second = cx.add_editor(Editor::new());
    assert_ne!(first, second);
    assert_eq!(cx.editor(first), None);
    assert_eq!(cx.editor(second), Some(&Editor::new()));
}

#[test]
fn removing_an_editor_that_never_existed_changes_nothing() {
    let mut cx = EditorArena::new();
    let handle = cx.add_editor(Editor::new());
    assert_eq!(cx.remove_editor(WeakEditorHandle { id: 7 }), None);
    assert_eq!(cx.editor(handle), Some(&Editor::new()));
}
