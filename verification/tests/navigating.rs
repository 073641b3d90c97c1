use texti::action::{Action, ActionResult, AsyncAction, SaveFileResult, SelectorType};
use texti::app::{App, Event, MouseEvent};
use texti::bindings::Keybindings;
use texti::component::AppComponent;
use texti::config::{AppConfig, Config};
use texti::home::{HomeComponent, HomeOptions, HOME_OPTIONS_COUNT};
use texti::keybindings::parse_key_event;
use texti::navigator::{NavigatorComponent, Screen};
use texti::runtime::{Completion, DirectoryEntry, Outbox, Request, Transition};
use texti::save::{WriteEvent, WriteFile, WriteStep};

fn config() -> Config {
    let mut keybindings = Keybindings::new();
    keybindings.bind(
        AppComponent::HomeScreen,
        parse_key_event("ctrl-q").unwrap(),
        "Control+q".to_string(),
        Action::Quit,
    );
    keybindings.bind(
        AppComponent::HomeScreen,
        parse_key_event("enter").unwrap(),
        "Enter".to_string(),
        Action::Confirm,
    );
    keybindings.bind(
        AppComponent::Editor,
        parse_key_event("esc").unwrap(),
        "Esc".to_string(),
        Action::Return,
    );
    keybindings.bind(
        AppComponent::FileDialog,
        parse_key_event("enter").unwrap(),
        "Enter".to_string(),
        Action::Confirm,
    );
    Config {
        config: AppConfig {
            data_dir: "/data".to_string(),
            config_dir: "/conf".to_string(),
            working_dir: "/work".to_string(),
            clipboard_available: true,
        },
        keybindings,
    }
}

fn started() -> (NavigatorComponent, Outbox) {
    let mut navigator = NavigatorComponent::new();
    let mut out = Outbox::new();
    navigator.start(&config(), &mut out);
    (navigator, out)
}

fn is_editor(navigator: &NavigatorComponent) -> bool {
    matches!(navigator.component, Screen::Editor(_))
}

#[test]
fn going_to_the_screen_on_show_does_nothing() {
    let (mut navigator, mut out) = started();
    let requests = out.requests.len();
    navigator.navigate(AppComponent::HomeScreen, &mut out);
    assert_eq!(navigator.current_component, AppComponent::HomeScreen);
    assert_eq!(navigator.previous_component, None);
    assert_eq!(out.requests.len(), requests);
}

#[test]
fn going_twice_to_a_screen_constructs_it_once() {
    let (mut navigator, mut out) = started();
    navigator.navigate(AppComponent::Editor, &mut out);
    assert!(is_editor(&navigator));
    assert_eq!(navigator.current_component, AppComponent::Editor);
    assert_eq!(navigator.previous_component, Some(AppComponent::HomeScreen));
    // Mark the editor, to see that the second call leaves it alone.
    if let Screen::Editor(editor) = &mut navigator.component {
        editor.insert = true;
    }
    navigator.navigate(AppComponent::Editor, &mut out);
    match &navigator.component {
        Screen::Editor(editor) => assert!(editor.insert),
        Screen::Home(_) => panic!("the editor should be on show"),
    }
    assert_eq!(navigator.previous_component, Some(AppComponent::HomeScreen));
}

#[test]
fn an_editor_opened_on_a_path_loads_its_file() {
    let (mut navigator, mut out) = started();
    navigator.navigate(AppComponent::OpenedEditor("/w/a.txt".to_string()), &mut out);
    assert_eq!(navigator.current_component, AppComponent::OpenedEditor("/w/a.txt".to_string()));
    match &navigator.component {
        Screen::Editor(editor) => {
            assert!(editor.loading);
            assert_eq!(editor.buffer.file_path, Some("/w/a.txt".to_string()));
            assert_eq!(editor.config.config.working_dir, "/work");
        }
        Screen::Home(_) => panic!("the editor should be on show"),
    }
    assert!(matches!(out.requests.last().unwrap(), Request::LoadFile(p) if p == "/w/a.txt"));
}

#[test]
fn every_other_target_is_the_home_screen() {
    let mut navigator = NavigatorComponent::new_with_starting_component(AppComponent::Editor);
    let mut out = Outbox::new();
    navigator.start(&config(), &mut out);
    navigator.navigate(AppComponent::Dialog, &mut out);
    assert_eq!(navigator.current_component, AppComponent::Dialog);
    assert!(!is_editor(&navigator));
    assert_eq!(navigator.override_keybind_id(), Some(AppComponent::HomeScreen));
    let navigator = NavigatorComponent::new_with_starting_component(AppComponent::FileDialog);
    assert_eq!(navigator.current_component, AppComponent::FileDialog);
    assert!(!is_editor(&navigator));
}

#[test]
fn going_twice_to_any_screen_constructs_it_once() {
    for target in [
        AppComponent::OpenedEditor("/w/a.txt".to_string()),
        AppComponent::Editor,
        AppComponent::FileDialog,
        AppComponent::Dialog,
        AppComponent::HomeScreen,
    ] {
        let mut navigator = NavigatorComponent::new_with_starting_component(AppComponent::Editor);
        let mut out = Outbox::new();
        navigator.start(&config(), &mut out);
        navigator.navigate(AppComponent::OpenedEditor("/w/first.txt".to_string()), &mut out);
        navigator.navigate(target.clone(), &mut out);
        let previous = navigator.previous_component.clone();
        let requests = out.requests.len();
        // Mark the screen, to see that the second call leaves it alone.
        match &mut navigator.component {
            Screen::Editor(editor) => editor.insert = true,
            Screen::Home(home) => home.selected = Some(3),
        }
        navigator.navigate(target.clone(), &mut out);
        assert_eq!(navigator.current_component, target);
        assert_eq!(navigator.previous_component, previous);
        assert_eq!(out.requests.len(), requests);
        match &navigator.component {
            Screen::Editor(editor) => assert!(editor.insert),
            Screen::Home(home) => assert_eq!(home.selected, Some(3)),
        }
    }
}

#[test]
fn there_is_no_way_back_from_home() {
    let (mut navigator, mut out) = started();
    let requests = out.requests.len();
    assert!(!navigator.return_last_component(&mut out));
    assert!(!navigator.return_last_component(&mut out));
    assert_eq!(navigator.current_component, AppComponent::HomeScreen);
    assert_eq!(navigator.previous_component, None);
    assert_eq!(out.requests.len(), requests);
}

#[test]
fn the_way_back_leads_to_the_screen_left_and_is_then_forgotten() {
    let (mut navigator, mut out) = started();
    navigator.navigate(AppComponent::Editor, &mut out);
    assert!(navigator.return_last_component(&mut out));
    assert_eq!(navigator.current_component, AppComponent::HomeScreen);
    assert_eq!(navigator.previous_component, None);
    assert!(!navigator.return_last_component(&mut out));
    // From an editor that remembers nothing the way back leads home.
    let mut navigator = NavigatorComponent::new_with_starting_component(AppComponent::Editor);
    navigator.start(&config(), &mut out);
    assert!(navigator.return_last_component(&mut out));
    assert_eq!(navigator.current_component, AppComponent::HomeScreen);
    assert_eq!(navigator.previous_component, None);
}

#[test]
fn navigate_results_change_the_screen_or_quit() {
    let (mut navigator, mut out) = started();
    let go = AsyncAction::Navigate(Some(AppComponent::Editor));
    assert_eq!(navigator.handle_async_action(&go, &mut out), ActionResult::consumed(true));
    assert!(is_editor(&navigator));
    let back = AsyncAction::Navigate(None);
    assert_eq!(navigator.handle_async_action(&back, &mut out), ActionResult::consumed(true));
    assert!(!is_editor(&navigator));
    assert!(out.actions.is_empty());
    assert_eq!(navigator.handle_async_action(&back, &mut out), ActionResult::not_consumed(false));
    assert_eq!(out.actions, vec![Action::Quit]);
}

#[test]
fn a_deferred_change_waits_for_the_leave_transition() {
    let (mut navigator, mut out) = started();
    navigator.set_deferred(true);
    // The opening transition ends first.
    assert!(navigator.effects_processed(false, &mut out));
    navigator.navigate(AppComponent::Editor, &mut out);
    assert!(!is_editor(&navigator));
    assert!(matches!(
        out.requests.last().unwrap(),
        Request::PlayTransition(Transition::LeaveScreen)
    ));
    // The screen on show goes on handling commands.
    assert_eq!(navigator.handle_action(&Action::Down, &mut out), ActionResult::consumed(true));
    assert!(!navigator.effects_processed(true, &mut out));
    assert!(!is_editor(&navigator));
    assert!(navigator.effects_processed(false, &mut out));
    assert!(is_editor(&navigator));
    assert_eq!(navigator.previous_component, Some(AppComponent::HomeScreen));
    assert!(matches!(
        out.requests.last().unwrap(),
        Request::PlayTransition(Transition::EnterScreen)
    ));
    assert!(navigator.effects_processed(false, &mut out));
    assert!(is_editor(&navigator));
    navigator.exit();
    assert_eq!(navigator.previous_component, None);
}

#[test]
fn the_key_bindings_in_force_follow_the_overlays() {
    let (mut navigator, mut out) = started();
    assert_eq!(navigator.override_keybind_id(), Some(AppComponent::HomeScreen));
    navigator.handle_action(&Action::OpenFile, &mut out);
    assert_eq!(navigator.override_keybind_id(), Some(AppComponent::FileDialog));
    navigator.navigate(AppComponent::Editor, &mut out);
    assert_eq!(navigator.override_keybind_id(), Some(AppComponent::Editor));
    navigator.handle_action(&Action::Character('x'), &mut out);
    navigator.handle_action(&Action::Save, &mut out);
    assert_eq!(navigator.override_keybind_id(), Some(AppComponent::FileDialog));
    let picked = AsyncAction::SelectPath("/w/x".to_string(), SelectorType::NewFile);
    navigator.handle_async_action(&picked, &mut out);
    let conflict = AsyncAction::SavedFile(SaveFileResult::ConfirmOverwrite);
    navigator.handle_async_action(&conflict, &mut out);
    assert_eq!(navigator.override_keybind_id(), Some(AppComponent::Dialog));
}

#[test]
fn the_home_menu_moves_and_wraps_from_no_entry() {
    let mut home = HomeComponent::new();
    let mut out = Outbox::new();
    assert_eq!(home.handle_action(&Action::Up, &mut out), ActionResult::consumed(true));
    assert_eq!(home.selected, Some(HOME_OPTIONS_COUNT - 1));
    assert_eq!(home.handle_action(&Action::Down, &mut out), ActionResult::default());
    assert_eq!(home.handle_action(&Action::Cancel, &mut out), ActionResult::consumed(true));
    assert_eq!(home.selected, None);
    assert_eq!(home.handle_action(&Action::Cancel, &mut out), ActionResult::default());
    assert_eq!(home.handle_action(&Action::Down, &mut out), ActionResult::consumed(true));
    assert_eq!(home.selected, Some(0));
    assert_eq!(home.handle_action(&Action::Up, &mut out), ActionResult::default());
    assert_eq!(home.handle_action(&Action::Confirm, &mut out), ActionResult::consumed(true));
    assert_eq!(out.async_actions, vec![AsyncAction::Navigate(Some(AppComponent::Editor))]);
}

#[test]
fn the_home_menu_entries_do_what_they_say() {
    let mut home = HomeComponent::new();
    let mut out = Outbox::new();
    home.register_config(&config());
    assert_eq!(home.keybinds.quit, "Control+q");
    assert_eq!(home.keybinds.option_key(HomeOptions::Quit), "Control+q");
    assert_eq!(HomeOptions::get(2), Some(HomeOptions::FileHistory));
    assert_eq!(HomeOptions::get(5), None);
    assert_eq!(HomeOptions::FileHistory.title(), "File History");
    assert_eq!(home.handle_action(&Action::Confirm, &mut out), ActionResult::default());
    home.selected = Some(4);
    assert_eq!(home.handle_action(&Action::Confirm, &mut out), ActionResult::consumed(true));
    assert_eq!(out.actions, vec![Action::Quit]);
    home.selected = Some(3);
    home.handle_action(&Action::Confirm, &mut out);
    assert_eq!(
        out.async_actions.last(),
        Some(&AsyncAction::Navigate(Some(AppComponent::OpenedEditor("/conf/config.yml".to_string()))))
    );
    assert_eq!(home.handle_action(&Action::FileHistory, &mut out), ActionResult::consumed(true));
    assert!(home.file_history_component.showing());
    assert!(matches!(out.requests.last().unwrap(), Request::ReadHistory(dir) if dir == "/data"));
    assert_eq!(home.handle_action(&Action::Cancel, &mut out), ActionResult::consumed(true));
    assert!(!home.file_history_component.showing());
    assert_eq!(home.selected, Some(3));
}

#[test]
fn a_file_picked_on_the_home_screen_is_opened_in_the_editor() {
    let mut home = HomeComponent::new();
    let mut out = Outbox::new();
    home.register_config(&config());
    home.handle_action(&Action::OpenFile, &mut out);
    assert!(home.file_selector_component.visible);
    assert!(matches!(
        out.requests.iter().find(|r| matches!(r, Request::ListDirectory { .. })).unwrap(),
        Request::ListDirectory { path, fallback } if path == "/work" && fallback.is_none()
    ));
    let listing = Completion::DirectoryListed {
        path: "/work".to_string(),
        entries: Some(vec![DirectoryEntry { name: "a.txt".to_string(), is_dir: false }]),
    };
    assert_eq!(home.handle_completion(&listing, &mut out), ActionResult::consumed(true));
    home.handle_action(&Action::Up, &mut out);
    home.handle_action(&Action::Confirm, &mut out);
    let picked = out.async_actions.last().unwrap().clone();
    assert_eq!(picked, AsyncAction::SelectPath("/work/a.txt".to_string(), SelectorType::PickFile));
    assert_eq!(home.handle_async_action(&picked, &mut out), ActionResult::consumed(false));
    assert_eq!(
        out.async_actions.last(),
        Some(&AsyncAction::Navigate(Some(AppComponent::OpenedEditor("/work/a.txt".to_string()))))
    );
}

#[test]
fn writing_asks_before_it_writes_over_a_file() {
    let (mut write, first) = WriteFile::new("/w/a.txt".to_string(), false);
    assert!(matches!(first, WriteStep::CheckExists));
    assert!(matches!(write.advance(WriteEvent::Exists(true)), WriteStep::CheckDirectory));
    let step = write.advance(WriteEvent::IsDirectory(false));
    assert!(matches!(step, WriteStep::Done(SaveFileResult::ConfirmOverwrite)));
    // With leave to write over it, the file is created.
    let (mut write, _) = WriteFile::new("/w/a.txt".to_string(), true);
    write.advance(WriteEvent::Exists(true));
    assert!(matches!(write.advance(WriteEvent::IsDirectory(false)), WriteStep::Create));
}

#[test]
fn a_directory_asks_for_a_name_whether_or_not_it_may_be_written_over() {
    for overwrite in [false, true] {
        let (mut write, _) = WriteFile::new("/w/dir".to_string(), overwrite);
        assert!(matches!(write.advance(WriteEvent::Exists(true)), WriteStep::CheckDirectory));
        let step = write.advance(WriteEvent::IsDirectory(true));
        assert!(matches!(step, WriteStep::Done(SaveFileResult::MissingName)));
    }
}

#[test]
fn writing_goes_through_its_steps() {
    let (mut write, _) = WriteFile::new("/w/sub/a.txt".to_string(), false);
    let step = write.advance(WriteEvent::Exists(false));
    assert!(matches!(step, WriteStep::CreateParents(ref dir) if dir == "/w/sub"));
    assert!(matches!(write.advance(WriteEvent::ParentsCreated(None)), WriteStep::CheckDirectory));
    assert!(matches!(write.advance(WriteEvent::IsDirectory(false)), WriteStep::Create));
    assert!(matches!(write.advance(WriteEvent::Created(None)), WriteStep::Write));
    assert!(matches!(write.advance(WriteEvent::Written(None)), WriteStep::Flush));
    let step = write.advance(WriteEvent::Flushed(None));
    assert!(matches!(step, WriteStep::Done(SaveFileResult::Saved(ref p)) if p == "/w/sub/a.txt"));
}

#[test]
fn writing_ends_on_the_first_failure_and_never_writes_to_a_directory() {
    let (mut write, _) = WriteFile::new("/w/a.txt".to_string(), true);
    assert!(matches!(write.advance(WriteEvent::Exists(true)), WriteStep::CheckDirectory));
    assert!(matches!(
        write.advance(WriteEvent::IsDirectory(true)),
        WriteStep::Done(SaveFileResult::MissingName)
    ));
    let failed = write.advance(WriteEvent::ParentsCreated(Some("denied".to_string())));
    assert!(matches!(failed, WriteStep::Done(SaveFileResult::Error(ref m)) if m == "denied"));
    let failed = write.advance(WriteEvent::Created(Some("busy".to_string())));
    assert!(matches!(failed, WriteStep::Done(SaveFileResult::Error(ref m)) if m == "busy"));
    // A failed write is reported after the flush, unless the flush fails too.
    write.advance(WriteEvent::Written(Some("short".to_string())));
    let ended = write.advance(WriteEvent::Flushed(None));
    assert!(matches!(ended, WriteStep::Done(SaveFileResult::Error(ref m)) if m == "short"));
    write.advance(WriteEvent::Written(None));
    let ended = write.advance(WriteEvent::Flushed(Some("io".to_string())));
    assert!(matches!(ended, WriteStep::Done(SaveFileResult::Error(ref m)) if m == "io"));
    let (mut rootless, _) = WriteFile::new("".to_string(), false);
    assert!(matches!(rootless.advance(WriteEvent::Exists(false)), WriteStep::CheckDirectory));
}

#[test]
fn one_round_of_the_loop() {
    let mut app = App::new(config());
    app.start();
    assert!(app.should_rerender);
    assert!(app.handle_event(Event::Render));
    assert!(!app.should_rerender);
    assert!(!app.handle_event(Event::Render));
    assert!(!app.handle_event(Event::Tick));
    assert!(!app.handle_event(Event::Paste("p".to_string())));
    assert!(!app.handle_event(Event::Init));
    assert!(!app.handle_event(Event::Mouse(MouseEvent { column: 1, row: 1 })));
    assert_eq!(app.queue.actions, vec![Action::Tick, Action::PasteText("p".to_string())]);
    while app.handle_next_action() {}
    assert!(app.queue.actions.is_empty());
    assert!(!app.should_rerender);
    app.handle_event(Event::Key(parse_key_event("enter").unwrap()));
    assert_eq!(app.queue.actions, vec![Action::Confirm]);
    while app.handle_next_action() {}
    app.handle_event(Event::Resize(80, 24));
    assert!(app.should_rerender);
    app.handle_event(Event::Error("lost".to_string()));
    assert_eq!(app.queue.async_actions.last(), Some(&AsyncAction::Error("lost".to_string())));
    while app.handle_next_action() {}
    while app.handle_next_async_action() {}
    assert!(app.queue.async_actions.is_empty());
    let requests = app.take_requests();
    assert!(!requests.is_empty());
    assert!(app.queue.requests.is_empty());
}

#[test]
fn quit_ends_the_round_and_leaves_the_rest_queued() {
    let mut app = App::new(config());
    app.start();
    app.handle_event(Event::Key(parse_key_event("ctrl-q").unwrap()));
    app.handle_event(Event::Tick);
    assert_eq!(app.queue.actions, vec![Action::Quit, Action::Tick]);
    assert!(!app.handle_next_action());
    assert!(app.should_quit);
    assert_eq!(app.queue.actions, vec![Action::Tick]);
    let mut app = App::new(config());
    app.handle_event(Event::Quit);
    assert!(app.should_quit);
}

#[test]
fn going_back_from_the_editor_and_then_from_home_quits() {
    let mut app = App::new_in_editor(Some("x.txt".to_string()), config());
    app.start();
    app.handle_event(Event::Key(parse_key_event("esc").unwrap()));
    while app.handle_next_action() {}
    while app.handle_next_async_action() {}
    assert_eq!(app.component.current_component, AppComponent::HomeScreen);
    assert!(!app.should_quit);
    app.push_async_action(AsyncAction::Navigate(None));
    while app.handle_next_async_action() {}
    assert_eq!(app.queue.actions, vec![Action::Quit]);
    while app.handle_next_action() {}
    assert!(app.should_quit);
}

#[test]
fn the_queues_are_drained_until_outside_work_is_due() {
    let mut app = App::new_in_editor(None, config());
    app.start();
    let _ = app.take_requests();
    app.push_async_action(AsyncAction::Navigate(Some(AppComponent::Editor)));
    app.handle_async_actions();
    assert_eq!(app.component.current_component, AppComponent::Editor);
    app.handle_async_actions();
    assert!(app.queue.async_actions.is_empty());
    for c in "ab".chars() {
        app.handle_event(Event::Key(texti::keybindings::KeyEvent::new(
            texti::keybindings::KeyCode::Char(c),
            texti::keybindings::KeyModifiers::empty(),
        )));
    }
    app.handle_event(Event::Tick);
    assert_eq!(app.queue.actions.len(), 3);
    app.handle_actions();
    assert!(app.queue.actions.is_empty());
    assert!(app.should_rerender);
    // A command that asks for outside work stops the round until it is performed.
    app.queue.actions.push(Action::OpenFile);
    app.queue.actions.push(Action::Tick);
    app.handle_actions();
    assert_eq!(app.queue.actions, vec![Action::Tick]);
    assert!(!app.queue.requests.is_empty());
    app.handle_actions();
    assert_eq!(app.queue.actions, vec![Action::Tick]);
    let _ = app.take_requests();
    app.handle_actions();
    assert!(app.queue.actions.is_empty());
    // Quit ends the round at once.
    app.queue.actions.push(Action::Quit);
    app.queue.actions.push(Action::Tick);
    app.handle_actions();
    assert!(app.should_quit);
    assert_eq!(app.queue.actions, vec![Action::Tick]);
}

#[test]
fn defaults_stand_behind_the_bindings_of_the_user() {
    let mut user = Keybindings::new();
    let save = parse_key_event("ctrl-s").unwrap();
    let quit = parse_key_event("ctrl-q").unwrap();
    user.bind(AppComponent::Editor, save, "Control+s".to_string(), Action::SaveTo);
    let mut defaults = Keybindings::new();
    defaults.bind(AppComponent::Editor, save, "Control+s".to_string(), Action::Save);
    defaults.bind(AppComponent::Editor, quit, "Control+q".to_string(), Action::Quit);
    defaults.bind(AppComponent::HomeScreen, save, "Control+s".to_string(), Action::Help);
    user.merge_defaults(&defaults);
    assert_eq!(user.get_action(&AppComponent::Editor, save), Some(Action::SaveTo));
    assert_eq!(user.get_action(&AppComponent::Editor, quit), Some(Action::Quit));
    assert_eq!(user.get_action(&AppComponent::HomeScreen, save), Some(Action::Help));
    assert_eq!(user.entries.len(), 3);
}

fn offer<C: texti::component::Component>(
    component: &mut C,
    action: &Action,
    out: &mut Outbox,
) -> (ActionResult, Option<AppComponent>) {
    let answer = component.handle_action(action, out);
    (answer, component.override_keybind_id())
}

#[test]
fn every_screen_answers_through_the_same_capability() {
    let mut out = Outbox::new();
    let mut home = HomeComponent::new();
    assert_eq!(
        offer(&mut home, &Action::Down, &mut out),
        (ActionResult::consumed(true), Some(AppComponent::HomeScreen))
    );
    let mut editor = texti::editor::EditorComponent::empty();
    assert_eq!(
        offer(&mut editor, &Action::Character('x'), &mut out),
        (ActionResult::consumed(true), Some(AppComponent::Editor))
    );
    let (mut navigator, _) = started();
    assert_eq!(
        offer(&mut navigator, &Action::Tick, &mut out),
        (ActionResult::default(), Some(AppComponent::HomeScreen))
    );
}
