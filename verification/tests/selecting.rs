use texti::action::{Action, ActionResult, AsyncAction, SelectorType};
use texti::buffer::Buffer;
use texti::chars::{same_text, split_lines, to_chars};
use texti::file_history::FileHistoryComponent;
use texti::file_history_saver::FileHistorySaver;
use texti::file_selector::FileSelectorComponent;
use texti::files::{
    directory_to_list, names_a_file, preview_allowed, read_dir, read_dir_limited, stop_step,
    FileRead, KeyEventKind, StopStep,
};
use texti::path_child::{icon_for_file, label_for_file, PathChild};
use texti::preview::PreviewComponent;
use texti::runtime::{DirectoryEntry, HistoryLine, Outbox, Request};

fn entry(name: &str, is_dir: bool) -> DirectoryEntry {
    DirectoryEntry { name: name.to_string(), is_dir }
}

fn listed(selector_type: SelectorType) -> (FileSelectorComponent, Outbox) {
    let mut selector = FileSelectorComponent::new();
    let mut out = Outbox::new();
    selector.show("/work".to_string(), None, selector_type, &mut out);
    let entries = Some(vec![
        entry("src", true),
        entry("Cargo.toml", false),
        entry("README.md", false),
        entry("main.rs", false),
    ]);
    selector.directory_listed(&"/work".to_string(), &entries, &mut out);
    (selector, out)
}

fn lines_of(selector: &FileSelectorComponent) -> Vec<String> {
    let list = selector.filtered_paths.as_ref().unwrap_or(&selector.children);
    list.iter().map(|c| c.to_path_line()).collect()
}

#[test]
fn a_hidden_selector_consumes_nothing() {
    let mut selector = FileSelectorComponent::new();
    let mut out = Outbox::new();
    for action in [Action::Cancel, Action::Cancel, Action::Up, Action::Confirm, Action::Character('a')] {
        assert_eq!(selector.handle_action(&action, &mut out), ActionResult::default());
    }
    assert!(!selector.visible);
    assert!(out.requests.is_empty());
    assert_eq!(selector.override_keybind_id(), None);
}

#[test]
fn showing_asks_for_the_listing() {
    let mut selector = FileSelectorComponent::new();
    let mut out = Outbox::new();
    selector.show("/work".to_string(), Some("/".to_string()), SelectorType::PickFile, &mut out);
    assert!(selector.visible);
    match &out.requests[0] {
        Request::ListDirectory { path, fallback } => {
            assert_eq!(path, "/work");
            assert_eq!(fallback, &Some("/".to_string()));
        }
        other => panic!("unexpected request {:?}", other),
    }
    assert!(selector.children.is_empty());
}

#[test]
fn a_listing_starts_with_the_way_up_and_shows_files_only_when_opening() {
    let (selector, _) = listed(SelectorType::PickFile);
    assert_eq!(
        lines_of(&selector),
        vec![
            "...".to_string(),
            "\u{ea83} src".to_string(),
            "\u{e6b2} Cargo.toml".to_string(),
            "README.md".to_string(),
            "\u{e7a8} main.rs".to_string(),
        ]
    );
    assert_eq!(selector.current_path, "/work");
    let (selector, _) = listed(SelectorType::PickFolder);
    assert_eq!(lines_of(&selector), vec!["...".to_string(), "\u{ea83} src".to_string()]);
}

#[test]
fn a_directory_that_cannot_be_read_changes_nothing() {
    let (mut selector, mut out) = listed(SelectorType::PickFile);
    let before = lines_of(&selector);
    let requests = out.requests.len();
    selector.directory_listed(&"/gone".to_string(), &None, &mut out);
    assert_eq!(lines_of(&selector), before);
    assert_eq!(selector.current_path, "/work");
    assert_eq!(out.requests.len(), requests);
}

#[test]
fn typing_filters_the_rows_without_regard_to_case() {
    let (mut selector, mut out) = listed(SelectorType::PickFile);
    for c in "MA".chars() {
        assert_eq!(
            selector.handle_action(&Action::Character(c), &mut out),
            ActionResult::consumed(true)
        );
    }
    assert_eq!(lines_of(&selector), vec!["...".to_string(), "\u{e7a8} main.rs".to_string()]);
    assert_eq!(selector.handle_action(&Action::Backspace, &mut out), ActionResult::consumed(true));
    assert_eq!(selector.handle_action(&Action::Backspace, &mut out), ActionResult::consumed(true));
    assert_eq!(lines_of(&selector).len(), 5);
    assert_eq!(selector.handle_action(&Action::Backspace, &mut out), ActionResult::default());
}

#[test]
fn the_list_cursor_moves_within_the_rows() {
    let (mut selector, mut out) = listed(SelectorType::PickFile);
    assert_eq!(selector.handle_action(&Action::Up, &mut out), ActionResult::consumed(true));
    assert_eq!(selector.selected, Some(4));
    assert_eq!(selector.preview_component.path_buf, "/work/main.rs");
    assert_eq!(selector.handle_action(&Action::Down, &mut out), ActionResult::consumed(false));
    assert_eq!(selector.selected, Some(4));
    for expected in [3usize, 2, 1, 0] {
        assert_eq!(selector.handle_action(&Action::Up, &mut out), ActionResult::consumed(true));
        assert_eq!(selector.selected, Some(expected));
    }
    assert_eq!(selector.handle_action(&Action::Up, &mut out), ActionResult::consumed(false));
    assert_eq!(selector.handle_action(&Action::Down, &mut out), ActionResult::consumed(true));
    assert_eq!(selector.selected, Some(1));
    assert_eq!(selector.preview_component.path_buf, "/work/src");
}

#[test]
fn confirming_a_file_announces_it_and_closes() {
    let (mut selector, mut out) = listed(SelectorType::PickFile);
    selector.handle_action(&Action::Up, &mut out);
    assert_eq!(selector.handle_action(&Action::Confirm, &mut out), ActionResult::consumed(true));
    assert!(!selector.visible);
    assert_eq!(
        out.async_actions.last(),
        Some(&AsyncAction::SelectPath("/work/main.rs".to_string(), SelectorType::PickFile))
    );
}

#[test]
fn confirming_a_folder_descends_unless_it_may_be_picked() {
    let (mut selector, mut out) = listed(SelectorType::PickFolder);
    selector.handle_action(&Action::Down, &mut out);
    selector.handle_action(&Action::Down, &mut out);
    assert_eq!(selector.selected, Some(1));
    assert_eq!(selector.handle_action(&Action::Confirm, &mut out), ActionResult::consumed(true));
    assert!(selector.visible);
    match out.requests.last().unwrap() {
        Request::ListDirectory { path, fallback } => {
            assert_eq!(path, "/work/src");
            assert_eq!(fallback, &None);
        }
        other => panic!("unexpected request {:?}", other),
    }
    assert_eq!(selector.handle_action(&Action::Select, &mut out), ActionResult::consumed(true));
    assert!(!selector.visible);
    assert_eq!(
        out.async_actions.last(),
        Some(&AsyncAction::SelectPath("/work/src".to_string(), SelectorType::PickFolder))
    );
}

#[test]
fn a_folder_is_never_the_choice_when_opening_a_file() {
    let (mut selector, mut out) = listed(SelectorType::PickFile);
    selector.handle_action(&Action::Down, &mut out);
    selector.handle_action(&Action::Down, &mut out);
    let announced = out.async_actions.len();
    assert_eq!(selector.handle_action(&Action::Select, &mut out), ActionResult::consumed(true));
    assert!(selector.visible);
    assert_eq!(out.async_actions.len(), announced);
    assert!(matches!(out.requests.last().unwrap(), Request::ListDirectory { path, .. } if path == "/work/src"));
}

#[test]
fn the_way_up_lists_the_parent_and_stops_at_the_root() {
    let (mut selector, mut out) = listed(SelectorType::PickFile);
    selector.handle_action(&Action::Down, &mut out);
    assert_eq!(selector.selected, Some(0));
    assert_eq!(selector.handle_action(&Action::Confirm, &mut out), ActionResult::consumed(true));
    assert!(matches!(out.requests.last().unwrap(), Request::ListDirectory { path, .. } if path == "/"));
    selector.directory_listed(&"/".to_string(), &Some(vec![entry("work", true)]), &mut out);
    selector.handle_action(&Action::Down, &mut out);
    let requests = out.requests.len();
    assert_eq!(selector.handle_action(&Action::Confirm, &mut out), ActionResult::consumed(false));
    assert_eq!(out.requests.len(), requests);
}

#[test]
fn a_new_file_is_named_under_the_directory_on_show() {
    let (mut selector, mut out) = listed(SelectorType::NewFile);
    assert_eq!(selector.handle_action(&Action::Confirm, &mut out), ActionResult::consumed(true));
    assert_eq!(
        out.async_actions.last(),
        Some(&AsyncAction::SelectPath("/work".to_string(), SelectorType::NewFile))
    );
    for c in "a.txt".chars() {
        selector.handle_action(&Action::Character(c), &mut out);
    }
    assert_eq!(selector.input.current_text_area(), Some("a.txt".to_string()));
    assert_eq!(selector.handle_action(&Action::Confirm, &mut out), ActionResult::consumed(true));
    assert_eq!(
        out.async_actions.last(),
        Some(&AsyncAction::SelectPath("/work/a.txt".to_string(), SelectorType::NewFile))
    );
}

#[test]
fn cancel_unwinds_in_three_stages() {
    let (mut selector, mut out) = listed(SelectorType::NewFile);
    assert_eq!(selector.handle_action(&Action::Search, &mut out), ActionResult::consumed(true));
    assert!(selector.input.filter_active());
    selector.handle_action(&Action::Down, &mut out);
    assert!(selector.selected.is_some());
    assert_eq!(selector.handle_action(&Action::Cancel, &mut out), ActionResult::consumed(true));
    assert!(!selector.input.filter_active());
    assert!(selector.selected.is_some());
    assert!(selector.visible);
    assert_eq!(selector.handle_action(&Action::Cancel, &mut out), ActionResult::consumed(true));
    assert!(selector.selected.is_none());
    assert!(selector.visible);
    assert_eq!(selector.handle_action(&Action::Cancel, &mut out), ActionResult::consumed(true));
    assert!(!selector.visible);
    assert_eq!(selector.handle_action(&Action::Cancel, &mut out), ActionResult::default());
}

#[test]
fn no_filter_is_opened_while_a_folder_is_picked() {
    let (mut selector, mut out) = listed(SelectorType::PickFolder);
    assert_eq!(selector.handle_action(&Action::Search, &mut out), ActionResult::not_consumed(false));
}

#[test]
fn the_preview_is_reloaded_and_switched() {
    let mut preview = PreviewComponent::default();
    let mut out = Outbox::new();
    assert!(preview.visible(true));
    assert!(!preview.visible(false));
    preview.change_dir(Some("/work/a.txt".to_string()), &mut out);
    assert!(matches!(out.requests[0], Request::CancelPreview));
    preview.set_viewport_height(12, &mut out);
    match out.requests.last().unwrap() {
        Request::ReadPreview { path, lines } => {
            assert_eq!(path, "/work/a.txt");
            assert_eq!(*lines, 10);
        }
        other => panic!("unexpected request {:?}", other),
    }
    let arrived = AsyncAction::PreviewContents(Some("text".to_string()));
    assert_eq!(preview.handle_async_action(&arrived), ActionResult::consumed(true));
    let requests = out.requests.len();
    preview.set_viewport_height(1, &mut out);
    assert_eq!(preview.lines, 0);
    assert_eq!(out.requests.len(), requests);
    assert_eq!(preview.handle_action(&Action::ReloadPreview, &mut out), ActionResult::consumed(true));
    assert_eq!(out.requests.len(), requests + 1);
    assert!(preview.contents.is_none());
    assert_eq!(preview.handle_action(&Action::Resize(80, 24), &mut out), ActionResult::not_consumed(true));
    assert_eq!(preview.handle_action(&Action::TogglePreview, &mut out), ActionResult::consumed(true));
    assert!(!preview.visible(true));
    assert_eq!(preview.handle_action(&Action::Tick, &mut out), ActionResult::default());
    assert_eq!(preview.handle_async_action(&AsyncAction::StopAnimation), ActionResult::default());
}

#[test]
fn icons_go_by_extension_then_by_name() {
    assert_eq!(icon_for_file("main.rs", "rs"), Some("\u{e7a8}".to_string()));
    assert_eq!(icon_for_file("a.yml", "yml"), icon_for_file("a.yaml", "yaml"));
    assert_eq!(icon_for_file(".config", ""), Some("\u{e615}".to_string()));
    assert_eq!(icon_for_file("notes", ""), None);
    assert_eq!(label_for_file("/x/y/main.rs"), "\u{e7a8} main.rs");
    assert_eq!(label_for_file("/x/y/notes"), "notes");
    assert_eq!(label_for_file("/"), "");
}

#[test]
fn rows_pass_a_filter_by_their_lower_case_name() {
    let file = PathChild::file("README.md".to_string(), "/w/README.md");
    assert!(file.filter("readme"));
    assert!(file.filter(""));
    assert!(!file.filter("README"));
    assert!(!file.filter("x"));
    assert!(PathChild::Folder("Src".to_string()).filter("sr"));
    assert!(PathChild::MoveUp.filter("anything"));
    assert_eq!(PathChild::MoveUp.to_path_line(), "...");
    assert_eq!(file.to_path_line(), "README.md");
    assert_eq!(file.clone().to_path_line(), "README.md");
}

#[test]
fn the_frame_shows_the_directories_of_the_path() {
    assert_eq!(Buffer::current_path("/a/b/c/file.txt", 10), Some("a/b/c".to_string()));
    assert_eq!(Buffer::current_path("/a/b/c/file.txt", 2), Some(".../b/c".to_string()));
    assert_eq!(Buffer::current_path("/a/b/c/file.txt", 3), Some(".../a/b/c".to_string()));
    assert_eq!(Buffer::current_path("file.txt", 10), Some(String::new()));
    assert_eq!(Buffer::current_path("/a/file.txt", 0), Some(".../".to_string()));
}

#[test]
fn a_buffer_names_itself_after_its_file() {
    let buffer = Buffer::new(Some("/a/b/notes.txt".to_string()));
    assert_eq!(buffer.file_name(true), "notes.txt");
    assert_eq!(buffer.file_name(false), "notes.txt - unsaved");
    assert_eq!(buffer.current_path_string, Some("a/b".to_string()));
    assert_eq!(
        buffer.current_directory("/cwd"),
        ("/a/b/notes.txt".to_string(), Some("/a/b".to_string()))
    );
    let nameless = Buffer::new(None);
    assert_eq!(nameless.file_name(true), "unsaved");
    assert_eq!(nameless.current_directory("/cwd"), ("/cwd".to_string(), None));
    let root = Buffer::new(Some("/".to_string()));
    assert_eq!(root.file_name(true), "unsaved");
    assert_eq!(root.current_directory("/cwd"), ("/".to_string(), Some("/".to_string())));
}

#[test]
fn changing_the_path_keeps_the_text_and_the_flag() {
    let mut buffer = Buffer::new(None);
    buffer.modified = true;
    buffer.change_path("/x/y.txt".to_string());
    assert!(buffer.modified);
    assert_eq!(buffer.file_path, Some("/x/y.txt".to_string()));
    buffer.clear_text();
    assert!(!buffer.modified);
    assert!(buffer.text_area.area.is_empty());
}

#[test]
fn texts_are_split_into_lines() {
    assert_eq!(split_lines(""), Vec::<String>::new());
    assert_eq!(split_lines("a"), vec!["a".to_string()]);
    assert_eq!(split_lines("a\n"), vec!["a".to_string()]);
    assert_eq!(split_lines("a\r\nb"), vec!["a".to_string(), "b".to_string()]);
    assert_eq!(split_lines("a\n\nb\n"), vec!["a".to_string(), String::new(), "b".to_string()]);
    assert_eq!(split_lines("\n"), vec![String::new()]);
    assert_eq!(split_lines("a\r"), vec!["a\r".to_string()]);
    let text = "one\r\ntwo\nthree\r";
    let expected: Vec<String> = text.lines().map(|l| l.to_string()).collect();
    assert_eq!(split_lines(text), expected);
    assert_eq!(to_chars("héllo"), vec!['h', 'é', 'l', 'l', 'o']);
    assert!(same_text("abc", "abc"));
    assert!(!same_text("abc", "abd"));
    assert!(!same_text("abc", "ab"));
}

fn history(lines: &[(&str, bool)]) -> Option<Vec<HistoryLine>> {
    Some(lines.iter().map(|(p, f)| HistoryLine { path: p.to_string(), is_file: *f }).collect())
}

#[test]
fn the_history_keeps_the_newest_file_on_top() {
    let lines = history(&[("/a", true), ("/gone", false), ("/b", true), ("/a", true)]);
    let mut saver = FileHistorySaver::new("/data", &lines);
    assert_eq!(saver.data_file_dir, "/data/file_history.txt");
    assert_eq!(saver.current, vec!["/a".to_string(), "/b".to_string()]);
    assert!(!saver.awaiting_write());
    assert_eq!(saver.pending_text(), None);
    saver.push_to_history("/c");
    saver.push_to_history("/b");
    saver.push_to_history("/c");
    assert!(saver.awaiting_write());
    assert_eq!(saver.new, vec!["/c".to_string(), "/b".to_string()]);
    assert_eq!(saver.current, vec!["/a".to_string()]);
    assert_eq!(saver.pending_text(), Some("/c\n/b\n/a\n".to_string()));
    saver.written();
    assert!(!saver.awaiting_write());
    assert_eq!(saver.current, vec!["/c".to_string(), "/b".to_string(), "/a".to_string()]);
    let unread = FileHistorySaver::new("/data", &None);
    assert!(unread.current.is_empty());
}

#[test]
fn the_history_dialog_opens_the_file_picked() {
    let mut dialog = FileHistoryComponent::new();
    let mut out = Outbox::new();
    assert_eq!(dialog.handle_action(&Action::Cancel, &mut out), ActionResult::not_consumed(false));
    dialog.data_dir = "/data".to_string();
    dialog.show(&mut out);
    assert!(dialog.showing());
    assert!(matches!(out.requests.last().unwrap(), Request::ReadHistory(dir) if dir == "/data"));
    dialog.history_read(&history(&[("/w/a.rs", true), ("/w/gone", false), ("/w/b.txt", true)]));
    assert_eq!(dialog.files.len(), 2);
    assert_eq!(dialog.files[0].label, "\u{e7a8} a.rs");
    assert_eq!(dialog.files[0].parent_label, Some("/w".to_string()));
    assert_eq!(dialog.handle_action(&Action::Confirm, &mut out), ActionResult::not_consumed(false));
    assert_eq!(dialog.handle_action(&Action::Up, &mut out), ActionResult::consumed(true));
    assert_eq!(dialog.selected, Some(1));
    assert_eq!(dialog.handle_action(&Action::Down, &mut out), ActionResult::consumed(false));
    assert_eq!(dialog.handle_action(&Action::Character('x'), &mut out), ActionResult::consumed(false));
    assert_eq!(dialog.handle_action(&Action::Confirm, &mut out), ActionResult::consumed(true));
    assert!(!dialog.showing());
    assert_eq!(
        out.async_actions.last(),
        Some(&AsyncAction::SelectPath("/w/b.txt".to_string(), SelectorType::PickFile))
    );
}

#[test]
fn cancel_on_the_history_dialog_unwinds_in_two_stages() {
    let mut dialog = FileHistoryComponent::new();
    let mut out = Outbox::new();
    dialog.show(&mut out);
    dialog.history_read(&history(&[("/w/a.rs", true)]));
    dialog.handle_action(&Action::Down, &mut out);
    assert_eq!(dialog.handle_action(&Action::Cancel, &mut out), ActionResult::consumed(true));
    assert!(dialog.showing());
    assert_eq!(dialog.selected, None);
    assert_eq!(dialog.handle_action(&Action::Cancel, &mut out), ActionResult::consumed(true));
    assert!(!dialog.showing());
    assert_eq!(dialog.handle_action(&Action::Cancel, &mut out), ActionResult::not_consumed(false));
}

#[test]
fn a_file_read_becomes_a_result() {
    assert_eq!(read_dir(FileRead::NoFile), AsyncAction::LoadFileContents(String::new()));
    assert_eq!(
        read_dir(FileRead::Contents("a\nb".to_string())),
        AsyncAction::LoadFileContents("a\nb".to_string())
    );
    assert_eq!(read_dir(FileRead::Failed("denied".to_string())), AsyncAction::Error("denied".to_string()));
}

#[test]
fn a_preview_is_padded_to_its_limit() {
    let lines = vec!["a".to_string(), "b".to_string(), "c".to_string()];
    assert_eq!(read_dir_limited(&lines, 2), "a\nb");
    assert_eq!(read_dir_limited(&lines, 3), "a\nb\nc");
    assert_eq!(read_dir_limited(&lines, 5), "a\nb\nc\n\n");
    assert_eq!(read_dir_limited(&lines, 0), "");
    assert_eq!(read_dir_limited(&Vec::new(), 2), "\n");
    assert!(preview_allowed(3, true, false));
    assert!(!preview_allowed(0, true, false));
    assert!(!preview_allowed(3, false, false));
    assert!(!preview_allowed(3, true, true));
}

#[test]
fn only_a_key_going_down_counts_and_waiting_is_bounded() {
    assert!(KeyEventKind::Press.counts());
    assert!(!KeyEventKind::Release.counts());
    assert!(!KeyEventKind::Repeat.counts());
    assert_eq!(stop_step(0), StopStep::Wait);
    assert_eq!(stop_step(50), StopStep::Wait);
    assert_eq!(stop_step(51), StopStep::Abort);
    assert_eq!(stop_step(100), StopStep::Abort);
    assert_eq!(stop_step(101), StopStep::GiveUp);
}

#[test]
fn a_redraw_asked_for_earlier_in_a_pass_stays_asked_for() {
    let (mut selector, mut out) = listed(SelectorType::PickFile);
    assert_eq!(
        selector.handle_action(&Action::Resize(80, 24), &mut out),
        ActionResult::not_consumed(true)
    );
    let mut dialog = FileHistoryComponent::new();
    dialog.show(&mut out);
    assert_eq!(
        dialog.handle_action(&Action::Resize(80, 24), &mut out),
        ActionResult::consumed(true)
    );
    assert_eq!(
        ActionResult::consumed(false).after(ActionResult::not_consumed(true)),
        ActionResult::consumed(true)
    );
    assert_eq!(
        ActionResult::not_consumed(false).after(ActionResult::not_consumed(false)),
        ActionResult::not_consumed(false)
    );
    assert_eq!(
        ActionResult::not_consumed(false).after(ActionResult::consumed(true)),
        ActionResult::not_consumed(true)
    );
}

#[test]
fn the_history_is_asked_for_anew_on_reload() {
    let mut dialog = FileHistoryComponent::new();
    let mut out = Outbox::new();
    dialog.data_dir = "/data".to_string();
    dialog.show(&mut out);
    dialog.history_read(&history(&[("/w/a.rs", true)]));
    let requests = out.requests.len();
    // Files are listed: showing again asks for nothing.
    dialog.show(&mut out);
    assert_eq!(out.requests.len(), requests + 1);
    assert!(!matches!(out.requests.last().unwrap(), Request::ReadHistory(_)));
    dialog.reload_history(&mut out);
    assert!(dialog.files.is_empty());
    assert!(matches!(out.requests.last().unwrap(), Request::ReadHistory(dir) if dir == "/data"));
    // Lines that arrive while files are listed are ignored.
    dialog.history_read(&history(&[("/w/a.rs", true), ("/w/b.rs", true)]));
    dialog.history_read(&history(&[("/w/c.rs", true)]));
    assert_eq!(dialog.files.len(), 2);
}

#[test]
fn a_saver_turns_to_the_history_of_a_configuration() {
    let mut saver = FileHistorySaver::new("/data", &history(&[("/a", true)]));
    saver.push_to_history("/b");
    let config = texti::config::Config {
        config: texti::config::AppConfig {
            data_dir: "/other".to_string(),
            config_dir: String::new(),
            working_dir: String::new(),
            clipboard_available: false,
        },
        keybindings: texti::bindings::Keybindings::new(),
    };
    saver.load_from_config(&config, &history(&[("/a", true), ("/c", true)]));
    assert_eq!(saver.data_file_dir, "/other/file_history.txt");
    assert!(!saver.awaiting_write());
    assert_eq!(saver.current, vec!["/a".to_string(), "/c".to_string()]);
}

fn drawn(area: &tui_textarea::TextArea<'static>) -> ratatui::buffer::Buffer {
    let rect = ratatui::layout::Rect::new(0, 0, 40, 3);
    let mut buffer = ratatui::buffer::Buffer::empty(rect);
    ratatui::widgets::Widget::render(area, rect, &mut buffer);
    buffer
}

fn row(buffer: &ratatui::buffer::Buffer, y: u16) -> String {
    (0..buffer.area.width).map(|x| buffer[(x, y)].symbol().to_string()).collect()
}

#[test]
fn the_inputs_of_the_selector_are_framed_under_their_titles() {
    let (selector, _) = listed(SelectorType::PickFile);
    let filter = selector.input.filter.as_ref().unwrap();
    assert!(filter.area.block().is_some());
    assert_eq!(filter.area.placeholder_text(), "");
    let buffer = drawn(&filter.area);
    assert!(row(&buffer, 0).starts_with("╭ Search Folder "));
    assert!(row(&buffer, 2).starts_with("╰──"));
    let (selector, _) = listed(SelectorType::NewFile);
    let name = selector.input.text_area.as_ref().unwrap();
    assert!(row(&drawn(&name.area), 0).starts_with("╭ File Name "));
}

#[test]
fn cancel_clears_a_typed_filter_first_in_every_mode() {
    for selector_type in [SelectorType::PickFile, SelectorType::PickFolder] {
        let (mut selector, mut out) = listed(selector_type);
        selector.handle_action(&Action::Character('s'), &mut out);
        selector.handle_action(&Action::Character('r'), &mut out);
        assert_eq!(lines_of(&selector).len(), 2);
        selector.handle_action(&Action::Down, &mut out);
        assert_eq!(selector.selected, Some(0));
        // The filter goes first; the list cursor and the dialog stay.
        assert_eq!(selector.handle_action(&Action::Cancel, &mut out), ActionResult::consumed(true));
        assert_eq!(selector.input.current_filter(), None);
        assert!(selector.input.filter_active());
        assert!(selector.filtered_paths.is_none());
        assert_eq!(selector.selected, Some(0));
        assert!(selector.visible);
        // Then the list cursor.
        assert_eq!(selector.handle_action(&Action::Cancel, &mut out), ActionResult::consumed(true));
        assert_eq!(selector.selected, None);
        assert!(selector.visible);
        // Then the dialog.
        assert_eq!(selector.handle_action(&Action::Cancel, &mut out), ActionResult::consumed(true));
        assert!(!selector.visible);
    }
}

#[test]
fn what_is_read_and_listed_is_decided_from_what_is_there() {
    assert!(names_a_file(true, false));
    assert!(!names_a_file(false, false));
    assert!(!names_a_file(true, true));
    assert_eq!(directory_to_list("/a", true, &Some("/b".to_string())), "/a");
    assert_eq!(directory_to_list("/a", false, &Some("/b".to_string())), "/b");
    assert_eq!(directory_to_list("/a", false, &None), "/a");
}
