use texti::action::{Action, ActionResult, AsyncAction, SaveFileResult, SelectorType};
use texti::app::{App, Event};
use texti::config::Config;
use texti::editor::EditorComponent;
use texti::keybindings::{KeyCode, KeyEvent, KeyModifiers};
use texti::navigator::Screen;
use texti::runtime::{ClipboardUse, Completion, Outbox, Request};

fn with_clipboard() -> EditorComponent {
    let mut editor = EditorComponent::empty();
    editor.config.config.clipboard_available = true;
    editor
}

fn text(editor: &EditorComponent) -> String {
    editor.buffer.text_area.area.lines().join("\n")
}

fn type_text(editor: &mut EditorComponent, out: &mut Outbox, s: &str) {
    for c in s.chars() {
        let r = editor.handle_action(&Action::Character(c), out);
        assert_eq!(r, ActionResult::consumed(true));
    }
}

#[test]
fn typing_then_undo_then_redo() {
    let mut editor = with_clipboard();
    let mut out = Outbox::new();
    type_text(&mut editor, &mut out, "ab");
    assert_eq!(text(&editor), "ab");
    assert!(editor.buffer.modified);
    assert_eq!(editor.handle_action(&Action::Undo, &mut out), ActionResult::consumed(true));
    assert_eq!(text(&editor), "a");
    assert_eq!(editor.handle_action(&Action::Redo, &mut out), ActionResult::consumed(true));
    assert_eq!(text(&editor), "ab");
    assert_eq!(editor.handle_action(&Action::Redo, &mut out), ActionResult::default());
    assert_eq!(text(&editor), "ab");
}

#[test]
fn undo_with_nothing_to_undo_is_not_consumed() {
    let mut editor = with_clipboard();
    let mut out = Outbox::new();
    assert_eq!(editor.handle_action(&Action::Undo, &mut out), ActionResult::default());
    assert!(!editor.buffer.modified);
    assert_eq!(text(&editor), "");
}

#[test]
fn a_plain_arrow_ends_a_selection_and_moves_the_cursor() {
    for first in [Action::SelectAll, Action::SelectLeft, Action::Tick, Action::Copy, Action::Insert] {
        for (arrow, expected) in [
            (Action::Left, (0, 1)),
            (Action::Right, (0, 3)),
            (Action::Up, (0, 2)),
            (Action::Down, (1, 2)),
        ] {
            let mut editor = with_clipboard();
            let mut out = Outbox::new();
            type_text(&mut editor, &mut out, "abcd");
            editor.handle_action(&Action::NewLine, &mut out);
            type_text(&mut editor, &mut out, "efgh");
            editor.handle_action(&Action::Up, &mut out);
            editor.handle_action(&Action::Left, &mut out);
            editor.handle_action(&Action::Left, &mut out);
            assert_eq!(editor.buffer.text_area.area.cursor(), (0, 2));
            editor.handle_action(&Action::SelectRight, &mut out);
            editor.handle_action(&Action::SelectLeft, &mut out);
            editor.handle_action(&Action::SelectLeft, &mut out);
            editor.handle_action(&Action::SelectRight, &mut out);
            assert!(editor.buffer.text_area.area.is_selecting());
            assert_eq!(editor.buffer.text_area.area.cursor(), (0, 2));
            // Any command that is no plain arrow, then a plain arrow.
            if first != Action::SelectAll && first != Action::SelectLeft {
                editor.handle_action(&first, &mut out);
                assert_eq!(editor.buffer.text_area.area.cursor(), (0, 2));
            }
            let r = editor.handle_action(&arrow, &mut out);
            assert_eq!(r, ActionResult::consumed(true));
            assert!(!editor.buffer.text_area.area.is_selecting());
            assert_eq!(editor.buffer.text_area.area.cursor(), expected);
            assert_eq!(text(&editor), "abcd\nefgh");
        }
    }
}

#[test]
fn arrows_stop_at_the_ends_of_the_text() {
    let mut editor = with_clipboard();
    let mut out = Outbox::new();
    type_text(&mut editor, &mut out, "ab");
    editor.handle_action(&Action::Right, &mut out);
    assert_eq!(editor.buffer.text_area.area.cursor(), (0, 2));
    editor.handle_action(&Action::Down, &mut out);
    assert_eq!(editor.buffer.text_area.area.cursor(), (0, 2));
    editor.handle_action(&Action::Left, &mut out);
    editor.handle_action(&Action::Left, &mut out);
    editor.handle_action(&Action::Left, &mut out);
    assert_eq!(editor.buffer.text_area.area.cursor(), (0, 0));
    editor.handle_action(&Action::Up, &mut out);
    assert_eq!(editor.buffer.text_area.area.cursor(), (0, 0));
    editor.handle_action(&Action::NewLine, &mut out);
    assert_eq!(text(&editor), "\nab");
    editor.handle_action(&Action::Left, &mut out);
    assert_eq!(editor.buffer.text_area.area.cursor(), (0, 0));
    editor.handle_action(&Action::Right, &mut out);
    assert_eq!(editor.buffer.text_area.area.cursor(), (1, 0));
    editor.handle_action(&Action::PageUp, &mut out);
    assert_eq!(editor.buffer.text_area.area.cursor(), (0, 0));
}

#[test]
fn a_selecting_arrow_starts_a_selection_once() {
    let mut editor = with_clipboard();
    let mut out = Outbox::new();
    type_text(&mut editor, &mut out, "abc");
    editor.handle_action(&Action::SelectLeft, &mut out);
    editor.handle_action(&Action::SelectLeft, &mut out);
    assert_eq!(editor.buffer.text_area.area.selection_range(), Some(((0, 1), (0, 3))));
    editor.handle_action(&Action::SelectUp, &mut out);
    assert!(editor.buffer.text_area.area.is_selecting());
}

#[test]
fn typing_over_a_selection_replaces_it_and_keeps_the_yanked_text() {
    let mut editor = with_clipboard();
    let mut out = Outbox::new();
    type_text(&mut editor, &mut out, "abc");
    editor.handle_action(&Action::SelectLeft, &mut out);
    editor.handle_action(&Action::Copy, &mut out);
    assert_eq!(editor.buffer.text_area.area.yank_text(), "c");
    editor.handle_action(&Action::SelectAll, &mut out);
    type_text(&mut editor, &mut out, "x");
    assert_eq!(text(&editor), "x");
    assert_eq!(editor.buffer.text_area.area.yank_text(), "c");
}

#[test]
fn copy_asks_for_the_clipboard_and_reports_the_outcome() {
    let mut editor = with_clipboard();
    let mut out = Outbox::new();
    assert_eq!(editor.handle_action(&Action::Copy, &mut out), ActionResult::consumed(false));
    assert!(out.requests.is_empty());
    type_text(&mut editor, &mut out, "abc");
    editor.handle_action(&Action::SelectLeft, &mut out);
    editor.handle_action(&Action::SelectLeft, &mut out);
    assert_eq!(editor.handle_action(&Action::Copy, &mut out), ActionResult::consumed(true));
    assert!(!editor.buffer.text_area.area.is_selecting());
    assert_eq!(text(&editor), "abc");
    match &out.requests[0] {
        Request::WriteClipboard { text, purpose } => {
            assert_eq!(text, "bc");
            assert_eq!(*purpose, ClipboardUse::Copy);
        }
        other => panic!("unexpected request {:?}", other),
    }
    let done = Completion::ClipboardWritten { purpose: ClipboardUse::Copy, failure: None };
    assert_eq!(editor.handle_completion(&done, &mut out), ActionResult::consumed(true));
    assert_eq!(
        editor.notification.current().map(|(t, e)| (t.clone(), e)),
        Some(("Copied".to_string(), false))
    );
    let failed = Completion::ClipboardWritten {
        purpose: ClipboardUse::Copy,
        failure: Some("Clipboard is unavailable".to_string()),
    };
    editor.handle_completion(&failed, &mut out);
    assert_eq!(
        editor.notification.current().map(|(t, e)| (t.clone(), e)),
        Some(("Clipboard is unavailable".to_string(), true))
    );
}

#[test]
fn cut_removes_the_selection_and_asks_for_the_clipboard() {
    let mut editor = with_clipboard();
    let mut out = Outbox::new();
    type_text(&mut editor, &mut out, "abc");
    editor.buffer.modified = false;
    editor.handle_action(&Action::SelectLeft, &mut out);
    assert_eq!(editor.handle_action(&Action::Cut, &mut out), ActionResult::consumed(true));
    assert_eq!(text(&editor), "ab");
    assert!(editor.buffer.modified);
    match &out.requests[0] {
        Request::WriteClipboard { text, purpose } => {
            assert_eq!(text, "c");
            assert_eq!(*purpose, ClipboardUse::Cut);
        }
        other => panic!("unexpected request {:?}", other),
    }
    let done = Completion::ClipboardWritten { purpose: ClipboardUse::Cut, failure: None };
    editor.handle_completion(&done, &mut out);
    assert_eq!(
        editor.notification.current().map(|(t, e)| (t.clone(), e)),
        Some(("Cut".to_string(), false))
    );
}

#[test]
fn paste_asks_for_the_clipboard_and_inserts_what_comes_back() {
    let mut editor = with_clipboard();
    let mut out = Outbox::new();
    assert_eq!(editor.handle_action(&Action::Paste, &mut out), ActionResult::consumed(false));
    assert!(matches!(out.requests[0], Request::ReadClipboard));
    let nothing = Completion::ClipboardRead(None);
    assert_eq!(editor.handle_completion(&nothing, &mut out), ActionResult::consumed(false));
    let some = Completion::ClipboardRead(Some("two\nlines".to_string()));
    assert_eq!(editor.handle_completion(&some, &mut out), ActionResult::consumed(true));
    assert_eq!(text(&editor), "two\nlines");
    assert!(editor.buffer.modified);
}

#[test]
fn pasted_text_is_inserted_at_the_cursor() {
    let mut editor = with_clipboard();
    let mut out = Outbox::new();
    type_text(&mut editor, &mut out, "ad");
    editor.handle_action(&Action::Left, &mut out);
    let r = editor.handle_action(&Action::PasteText("bc".to_string()), &mut out);
    assert_eq!(r, ActionResult::consumed(true));
    assert_eq!(text(&editor), "abcd");
    let r = editor.handle_action(&Action::PasteText(String::new()), &mut out);
    assert_eq!(r, ActionResult::consumed(false));
    let r = editor.handle_action(&Action::PasteText("\r".to_string()), &mut out);
    assert_eq!(r, ActionResult::consumed(false));
    assert_eq!(text(&editor), "abcd");
}

#[test]
fn backspace_delete_newline_and_tab() {
    let mut editor = with_clipboard();
    let mut out = Outbox::new();
    assert_eq!(editor.handle_action(&Action::Delete, &mut out), ActionResult::not_consumed(false));
    assert!(!editor.buffer.modified);
    type_text(&mut editor, &mut out, "abc");
    editor.handle_action(&Action::Backspace, &mut out);
    assert_eq!(text(&editor), "ab");
    editor.handle_action(&Action::Left, &mut out);
    assert_eq!(editor.handle_action(&Action::Delete, &mut out), ActionResult::consumed(true));
    assert_eq!(text(&editor), "a");
    editor.handle_action(&Action::NewLine, &mut out);
    editor.handle_action(&Action::Tab, &mut out);
    assert_eq!(text(&editor), "a\n    ");
}

#[test]
fn cancel_ends_the_selection_then_the_insert_mode() {
    let mut editor = with_clipboard();
    let mut out = Outbox::new();
    type_text(&mut editor, &mut out, "abc");
    editor.handle_action(&Action::Insert, &mut out);
    assert_eq!(editor.mode_title(), " Insert ");
    editor.handle_action(&Action::SelectAll, &mut out);
    assert_eq!(editor.handle_action(&Action::Cancel, &mut out), ActionResult::consumed(true));
    assert!(!editor.buffer.text_area.area.is_selecting());
    assert!(editor.insert);
    assert_eq!(editor.handle_action(&Action::Cancel, &mut out), ActionResult::consumed(true));
    assert!(!editor.insert);
    assert_eq!(editor.mode_title(), " Normal ");
    assert_eq!(editor.handle_action(&Action::Cancel, &mut out), ActionResult::default());
}

#[test]
fn line_numbers_are_switched_on_and_off() {
    let mut editor = with_clipboard();
    let mut out = Outbox::new();
    editor.handle_action(&Action::ToggleLineNumber, &mut out);
    assert!(editor.buffer.text_area.area.line_number_style().is_some());
    editor.handle_action(&Action::ToggleLineNumber, &mut out);
    assert!(editor.buffer.text_area.area.line_number_style().is_none());
}

#[test]
fn return_announces_the_way_back() {
    let mut editor = with_clipboard();
    let mut out = Outbox::new();
    assert_eq!(editor.handle_action(&Action::Return, &mut out), ActionResult::default());
    assert_eq!(out.async_actions, vec![AsyncAction::Navigate(None)]);
}

#[test]
fn a_literal_search_escapes_what_a_pattern_would_read() {
    let mut editor = with_clipboard();
    let mut out = Outbox::new();
    type_text(&mut editor, &mut out, "f(x) and f(y)");
    editor.handle_action(&Action::Search, &mut out);
    assert!(editor.search_box_component.visible());
    editor.handle_action(&Action::Character('f'), &mut out);
    editor.handle_action(&Action::Character('('), &mut out);
    assert_eq!(text(&editor), "f(x) and f(y)");
    assert!(!editor.search_box_component.is_error());
    let pattern = editor.buffer.text_area.area.search_pattern().map(|p| p.as_str().to_string());
    assert_eq!(pattern, Some("f\\(".to_string()));
    assert_eq!(editor.handle_action(&Action::Up, &mut out), ActionResult::consumed(true));
    assert_eq!(editor.buffer.text_area.area.cursor(), (0, 9));
    assert_eq!(editor.handle_action(&Action::Down, &mut out), ActionResult::consumed(true));
    assert_eq!(editor.buffer.text_area.area.cursor(), (0, 0));
    // As a regular expression the same query does not compile.
    editor.handle_action(&Action::ToggleSearchRegex, &mut out);
    assert!(editor.search_box_component.regex);
    assert!(editor.search_box_component.is_error());
    editor.handle_action(&Action::Backspace, &mut out);
    assert!(!editor.search_box_component.is_error());
    let pattern = editor.buffer.text_area.area.search_pattern().map(|p| p.as_str().to_string());
    assert_eq!(pattern, Some("f".to_string()));
    assert_eq!(editor.handle_action(&Action::Cancel, &mut out), ActionResult::consumed(true));
    assert!(!editor.search_box_component.visible());
    assert!(editor.buffer.text_area.area.search_pattern().is_none());
    assert!(!editor.search_box_component.regex);
}

#[test]
fn save_without_a_path_opens_the_dialog_for_a_new_file() {
    let mut editor = with_clipboard();
    let mut out = Outbox::new();
    type_text(&mut editor, &mut out, "line one");
    editor.handle_action(&Action::NewLine, &mut out);
    type_text(&mut editor, &mut out, "line two");
    assert_eq!(editor.handle_action(&Action::Save, &mut out), ActionResult::consumed(true));
    assert!(editor.file_dialog.visible);
    assert_eq!(editor.file_dialog.input.selector_type(), SelectorType::NewFile);
    assert!(matches!(out.requests[0], Request::ListDirectory { .. }));
    let picked = AsyncAction::SelectPath("/tmp/out.txt".to_string(), SelectorType::NewFile);
    assert_eq!(editor.handle_async_action(&picked, &mut out), ActionResult::consumed(true));
    assert!(!editor.file_dialog.visible);
    assert!(editor.saving_file);
    match out.requests.last().unwrap() {
        Request::WriteFile { path, contents, overwrite } => {
            assert_eq!(path, "/tmp/out.txt");
            assert_eq!(contents, "line one\nline two");
            assert!(!*overwrite);
        }
        other => panic!("unexpected request {:?}", other),
    }
    assert!(editor.buffer.modified);
    let saved = AsyncAction::SavedFile(SaveFileResult::Saved("/tmp/out.txt".to_string()));
    assert_eq!(editor.handle_async_action(&saved, &mut out), ActionResult::consumed(true));
    assert_eq!(
        editor.notification.current().map(|(t, e)| (t.clone(), e)),
        Some(("File saved".to_string(), false))
    );
    assert_eq!(editor.buffer.file_path, Some("/tmp/out.txt".to_string()));
    assert_eq!(editor.buffer.current_path_string, Some("tmp".to_string()));
    assert!(!editor.buffer.modified);
    assert!(!editor.saving_file);
}

#[test]
fn an_unmodified_buffer_with_a_file_is_not_saved() {
    let mut editor = EditorComponent::new("/tmp/x.txt");
    let mut out = Outbox::new();
    assert_eq!(editor.handle_action(&Action::Save, &mut out), ActionResult::not_consumed(false));
    assert!(out.requests.is_empty());
}

#[test]
fn overwriting_is_confirmed_and_then_done() {
    let mut editor = with_clipboard();
    let mut out = Outbox::new();
    type_text(&mut editor, &mut out, "x");
    let picked = AsyncAction::SelectPath("/tmp/there.txt".to_string(), SelectorType::NewFile);
    editor.handle_async_action(&picked, &mut out);
    let conflict = AsyncAction::SavedFile(SaveFileResult::ConfirmOverwrite);
    assert_eq!(editor.handle_async_action(&conflict, &mut out), ActionResult::consumed(true));
    assert!(editor.confirm_dialog_component.visible());
    assert!(!editor.saving_file);
    // While the dialog is on show nothing reaches the buffer.
    assert_eq!(editor.handle_action(&Action::Character('y'), &mut out), ActionResult::consumed(false));
    assert_eq!(text(&editor), "x");
    assert_eq!(editor.handle_action(&Action::Confirm, &mut out), ActionResult::consumed(true));
    assert_eq!(out.actions, vec![Action::Save]);
    let before = out.requests.len();
    assert_eq!(editor.handle_action(&Action::Save, &mut out), ActionResult::consumed(true));
    assert_eq!(out.requests.len(), before + 1);
    match out.requests.last().unwrap() {
        Request::WriteFile { path, contents, overwrite } => {
            assert_eq!(path, "/tmp/there.txt");
            assert_eq!(contents, "x");
            assert!(*overwrite);
        }
        other => panic!("unexpected request {:?}", other),
    }
}

#[test]
fn a_failed_save_is_reported_and_a_missing_name_asks_for_one() {
    let mut editor = EditorComponent::new("/tmp/dir");
    let mut out = Outbox::new();
    type_text(&mut editor, &mut out, "x");
    editor.handle_action(&Action::Save, &mut out);
    let failed = AsyncAction::SavedFile(SaveFileResult::Error("disk full".to_string()));
    editor.handle_async_action(&failed, &mut out);
    assert_eq!(
        editor.notification.current().map(|(t, e)| (t.clone(), e)),
        Some(("disk full".to_string(), true))
    );
    assert!(editor.buffer.modified);
    // A result that nobody waits for is ignored.
    assert_eq!(editor.handle_async_action(&failed, &mut out), ActionResult::default());
    editor.handle_action(&Action::Cancel, &mut out);
    editor.handle_action(&Action::Save, &mut out);
    let missing = AsyncAction::SavedFile(SaveFileResult::MissingName);
    assert_eq!(editor.handle_async_action(&missing, &mut out), ActionResult::consumed(true));
    assert!(editor.file_dialog.visible);
    assert_eq!(editor.file_dialog.input.selector_type(), SelectorType::NewFile);
    match out.requests.iter().rev().find(|r| matches!(r, Request::ListDirectory { .. })).unwrap() {
        Request::ListDirectory { path, fallback } => {
            assert_eq!(path, "/tmp/dir");
            assert_eq!(fallback, &Some("/tmp".to_string()));
        }
        _ => unreachable!(),
    }
}

#[test]
fn an_error_result_is_put_on_show() {
    let mut editor = with_clipboard();
    let mut out = Outbox::new();
    let r = editor.handle_async_action(&AsyncAction::Error("boom".to_string()), &mut out);
    assert_eq!(r, ActionResult::consumed(true));
    assert_eq!(
        editor.notification.current().map(|(t, e)| (t.clone(), e)),
        Some(("boom".to_string(), true))
    );
    assert_eq!(editor.handle_async_action(&AsyncAction::StartAnimation, &mut out), ActionResult::default());
}

#[test]
fn opening_a_file_from_the_command_line() {
    let mut app = App::new_in_editor(Some("notes.txt".to_string()), Config::default());
    app.start();
    let editor = match &app.component.component {
        Screen::Editor(editor) => editor,
        Screen::Home(_) => panic!("the editor should be on show"),
    };
    assert!(editor.loading);
    assert!(app.queue.requests.iter().any(|r| matches!(r, Request::LoadFile(p) if p == "notes.txt")));
    // The file does not exist: its contents arrive empty.
    app.push_async_action(AsyncAction::LoadFileContents(String::new()));
    while app.handle_next_async_action() {}
    let editor = match &app.component.component {
        Screen::Editor(editor) => editor,
        Screen::Home(_) => panic!("the editor should be on show"),
    };
    assert!(!editor.loading);
    assert!(!editor.buffer.modified);
    assert_eq!(text(editor), "");
    assert!(editor.buffer.text_area.area.is_empty());
}

#[test]
fn loaded_contents_replace_the_text() {
    let mut editor = EditorComponent::new("/tmp/a.txt");
    let mut out = Outbox::new();
    editor.init(&mut out);
    assert!(editor.loading);
    type_text(&mut editor, &mut out, "old");
    let loaded = AsyncAction::LoadFileContents("first\n\nthird".to_string());
    assert_eq!(editor.handle_async_action(&loaded, &mut out), ActionResult::consumed(true));
    assert_eq!(text(&editor), "first\n\nthird");
    assert!(!editor.loading);
    assert!(!editor.buffer.modified);
    assert!(!editor.buffer.text_area.area.is_selecting());
    assert_eq!(editor.handle_action(&Action::Undo, &mut out), ActionResult::consumed(true));
}

#[test]
fn a_key_press_becomes_the_bound_command_or_a_character() {
    let mut app = App::new_in_editor(Some("x".to_string()), Config::default());
    app.start();
    let key = KeyEvent::new(KeyCode::Char('a'), KeyModifiers::empty());
    assert!(!app.handle_event(Event::Key(key)));
    assert_eq!(app.queue.actions, vec![Action::Character('a')]);
    let enter = KeyEvent::new(KeyCode::Enter, KeyModifiers::empty());
    app.handle_event(Event::Key(enter));
    assert_eq!(app.queue.actions.len(), 1);
    assert!(app.handle_next_action());
    assert!(!app.handle_next_action());
    assert!(app.should_rerender);
}

fn written_contents(editor: &mut EditorComponent, out: &mut Outbox) -> String {
    editor.buffer.modified = true;
    editor.buffer.file_path = Some("/tmp/round.txt".to_string());
    assert_eq!(editor.handle_action(&Action::Save, out), ActionResult::consumed(true));
    match out.requests.last().unwrap() {
        Request::WriteFile { contents, .. } => contents.clone(),
        other => panic!("unexpected request {:?}", other),
    }
}

#[test]
fn what_is_written_loads_back_as_the_same_text() {
    for content in ["", "one line", "two\nlines", "\n", "a\n\n\nb\n", "tab\tand é\nüber"] {
        let mut editor = with_clipboard();
        let mut out = Outbox::new();
        let loaded = AsyncAction::LoadFileContents(content.to_string());
        editor.handle_async_action(&loaded, &mut out);
        let written = written_contents(&mut editor, &mut out);
        assert_eq!(written, content);
        let mut again = with_clipboard();
        again.handle_async_action(&AsyncAction::LoadFileContents(written), &mut out);
        assert_eq!(text(&again), text(&editor));
    }
}

#[test]
fn word_steps_and_page_steps_move_the_cursor() {
    let mut editor = with_clipboard();
    let mut out = Outbox::new();
    type_text(&mut editor, &mut out, "one two");
    editor.handle_action(&Action::NewLine, &mut out);
    type_text(&mut editor, &mut out, "three");
    editor.handle_action(&Action::PageUp, &mut out);
    assert_eq!(editor.buffer.text_area.area.cursor(), (0, 5));
    editor.handle_action(&Action::StartOfWord, &mut out);
    assert_eq!(editor.buffer.text_area.area.cursor(), (0, 4));
    editor.handle_action(&Action::StartOfWord, &mut out);
    assert_eq!(editor.buffer.text_area.area.cursor(), (0, 0));
    editor.handle_action(&Action::EndOfWord, &mut out);
    assert_eq!(editor.buffer.text_area.area.cursor(), (0, 4));
    editor.handle_action(&Action::PageDown, &mut out);
    assert_eq!(editor.buffer.text_area.area.cursor(), (1, 4));
}

#[test]
fn the_overlays_get_a_command_before_the_buffer() {
    let mut editor = with_clipboard();
    let mut out = Outbox::new();
    type_text(&mut editor, &mut out, "abc");
    // A notification on show takes Cancel, and the selection stays.
    editor.handle_action(&Action::SelectAll, &mut out);
    editor.notification.notify_text("note");
    assert_eq!(editor.handle_action(&Action::Cancel, &mut out), ActionResult::consumed(true));
    assert!(editor.buffer.text_area.area.is_selecting());
    assert!(!editor.notification.visible());
    // The file dialog takes the arrows while it is on show.
    editor.handle_action(&Action::OpenFile, &mut out);
    assert!(editor.file_dialog.visible);
    editor.handle_action(&Action::Left, &mut out);
    assert!(editor.buffer.text_area.area.is_selecting());
    editor.handle_action(&Action::Cancel, &mut out);
    assert!(!editor.file_dialog.visible);
    // The help overlay takes the arrows only while its lines move.
    editor.handle_action(&Action::Help, &mut out);
    assert!(editor.help_component.visible);
    assert_eq!(editor.handle_action(&Action::Up, &mut out), ActionResult::consumed(true));
    assert!(!editor.buffer.text_area.area.is_selecting());
}

#[test]
fn a_tick_counts_the_notification_down() {
    let mut editor = with_clipboard();
    let mut out = Outbox::new();
    assert_eq!(editor.handle_action(&Action::Tick, &mut out), ActionResult::default());
    editor.notification.notify_text("note");
    for _ in 0..3 {
        assert_eq!(editor.handle_action(&Action::Tick, &mut out), ActionResult::consumed(true));
    }
    assert!(!editor.notification.visible());
    assert_eq!(editor.handle_action(&Action::Tick, &mut out), ActionResult::default());
}

#[test]
fn a_resize_passes_through_the_file_dialog_and_keeps_its_redraw() {
    let mut editor = with_clipboard();
    let mut out = Outbox::new();
    assert_eq!(editor.handle_action(&Action::Resize(80, 24), &mut out), ActionResult::default());
    editor.handle_action(&Action::OpenFile, &mut out);
    assert_eq!(
        editor.handle_action(&Action::Resize(80, 24), &mut out),
        ActionResult::not_consumed(true)
    );
}

#[test]
fn an_error_ends_the_wait_for_the_file() {
    let mut editor = EditorComponent::new("/tmp/locked.txt");
    let mut out = Outbox::new();
    editor.init(&mut out);
    assert!(editor.loading);
    editor.handle_async_action(&AsyncAction::Error("denied".to_string()), &mut out);
    assert!(!editor.loading);
    assert!(editor.notification.visible());
}

fn drawn(area: &tui_textarea::TextArea<'static>) -> ratatui::buffer::Buffer {
    let rect = ratatui::layout::Rect::new(0, 0, 40, 3);
    let mut buffer = ratatui::buffer::Buffer::empty(rect);
    ratatui::widgets::Widget::render(area, rect, &mut buffer);
    buffer
}

fn row(buffer: &ratatui::buffer::Buffer, y: u16) -> String {
    (0..buffer.area.width).map(|x| buffer[(x, y)].symbol().to_string()).collect()
}

#[test]
fn the_search_box_is_dressed_for_its_mode() {
    let mut editor = with_clipboard();
    let mut out = Outbox::new();
    editor.handle_action(&Action::Search, &mut out);
    {
        let input = editor.search_box_component.text_area.as_ref().unwrap();
        assert_eq!(input.area.placeholder_text(), "Text");
        let buffer = drawn(&input.area);
        assert!(row(&buffer, 0).starts_with("╭ Search "));
        assert!(row(&buffer, 2).trim_end().ends_with("select ╯"));
        assert!(row(&buffer, 1).contains("Text"));
        assert_eq!(buffer[(2, 1)].fg, ratatui::style::Color::DarkGray);
        assert_ne!(buffer[(0, 0)].fg, ratatui::style::Color::Red);
    }
    editor.handle_action(&Action::ToggleSearchRegex, &mut out);
    {
        let input = editor.search_box_component.text_area.as_ref().unwrap();
        assert_eq!(input.area.placeholder_text(), "Regex");
    }
    // A query that does not compile tints the frame red.
    editor.handle_action(&Action::Character('('), &mut out);
    assert!(editor.search_box_component.is_error());
    {
        let input = editor.search_box_component.text_area.as_ref().unwrap();
        assert_eq!(drawn(&input.area)[(0, 0)].fg, ratatui::style::Color::Red);
    }
}

#[test]
fn without_a_clipboard_cut_copy_and_paste_only_say_so() {
    for action in [Action::Cut, Action::Copy, Action::Paste] {
        let mut editor = EditorComponent::empty();
        let mut out = Outbox::new();
        type_text(&mut editor, &mut out, "abc");
        editor.handle_action(&Action::SelectLeft, &mut out);
        editor.handle_action(&Action::Copy, &mut out);
        editor.handle_action(&Action::Cancel, &mut out);
        editor.buffer.text_area.area.set_yank_text("kept");
        editor.handle_action(&Action::SelectLeft, &mut out);
        editor.handle_action(&Action::SelectLeft, &mut out);
        editor.buffer.modified = false;
        assert_eq!(editor.handle_action(&action, &mut out), ActionResult::consumed(true));
        assert_eq!(text(&editor), "abc");
        assert!(editor.buffer.text_area.area.is_selecting());
        assert_eq!(editor.buffer.text_area.area.yank_text(), "kept");
        assert!(!editor.buffer.modified);
        assert!(out.requests.is_empty());
        assert_eq!(
            editor.notification.current().map(|(t, e)| (t.clone(), e)),
            Some(("Clipboard is unavailable".to_string(), true))
        );
    }
}

#[test]
fn pasting_nothing_over_a_selection_still_modifies_the_buffer() {
    for pasted in ["", "\r"] {
        let mut editor = with_clipboard();
        let mut out = Outbox::new();
        type_text(&mut editor, &mut out, "abc");
        editor.buffer.modified = false;
        editor.handle_action(&Action::SelectLeft, &mut out);
        let r = editor.handle_action(&Action::PasteText(pasted.to_string()), &mut out);
        assert_eq!(r, ActionResult::consumed(true));
        assert_eq!(text(&editor), "ab");
        assert!(editor.buffer.modified);
        assert!(!editor.buffer.text_area.area.is_selecting());
        // Nothing selected: nothing changes.
        editor.buffer.modified = false;
        let r = editor.handle_action(&Action::PasteText(pasted.to_string()), &mut out);
        assert_eq!(r, ActionResult::consumed(false));
        assert!(!editor.buffer.modified);
        // The same through the clipboard.
        editor.handle_action(&Action::SelectLeft, &mut out);
        let read = Completion::ClipboardRead(Some(pasted.to_string()));
        assert_eq!(editor.handle_completion(&read, &mut out), ActionResult::consumed(true));
        assert_eq!(text(&editor), "a");
        assert!(editor.buffer.modified);
    }
}

#[test]
fn typing_and_deleting_leave_no_selection() {
    for action in [
        Action::Character('x'),
        Action::Backspace,
        Action::Delete,
        Action::NewLine,
        Action::Tab,
        Action::PasteText("y".to_string()),
        Action::Cut,
        Action::Copy,
    ] {
        let mut editor = with_clipboard();
        let mut out = Outbox::new();
        type_text(&mut editor, &mut out, "abc");
        editor.handle_action(&Action::SelectLeft, &mut out);
        assert!(editor.buffer.text_area.area.is_selecting());
        editor.handle_action(&action, &mut out);
        assert!(!editor.buffer.text_area.area.is_selecting());
    }
}

#[test]
fn undo_and_redo_bring_back_lines_and_cursor() {
    let mut editor = with_clipboard();
    let mut out = Outbox::new();
    type_text(&mut editor, &mut out, "ab");
    editor.handle_action(&Action::Left, &mut out);
    type_text(&mut editor, &mut out, "c");
    assert_eq!(text(&editor), "acb");
    editor.handle_action(&Action::Right, &mut out);
    assert_eq!(editor.handle_action(&Action::Undo, &mut out), ActionResult::consumed(true));
    assert_eq!(text(&editor), "ab");
    assert_eq!(editor.buffer.text_area.area.cursor(), (0, 1));
    assert_eq!(editor.handle_action(&Action::Redo, &mut out), ActionResult::consumed(true));
    assert_eq!(text(&editor), "acb");
    assert_eq!(editor.handle_action(&Action::Undo, &mut out), ActionResult::consumed(true));
    assert_eq!(text(&editor), "ab");
}

#[test]
fn carriage_returns_at_line_ends_are_dropped_on_loading() {
    for (contents, expected) in [
        ("a\r\nb", "a\nb"),
        ("a\r", "a"),
        ("\r", ""),
        ("a\rb", "a\rb"),
        ("a\r\r\nb\n", "a\r\nb\n"),
    ] {
        let mut editor = with_clipboard();
        let mut out = Outbox::new();
        let loaded = AsyncAction::LoadFileContents(contents.to_string());
        editor.handle_async_action(&loaded, &mut out);
        assert_eq!(text(&editor), expected);
        editor.buffer.text_area.area.set_yank_text(contents);
        assert_eq!(editor.buffer.text_area.area.yank_text(), expected);
    }
}
