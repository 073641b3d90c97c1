use texti::action::{Action, ActionResult, AsyncAction};
use texti::bindings::Keybindings;
use texti::component::{AppComponent, TickCount, TICKS_UNTIL_REMOVE_POPUP};
use texti::config::{get_config_dir, get_config_file_dir, AppConfig, Config};
use texti::confirm_dialog::ConfirmDialogComponent;
use texti::help::{HelpComponent, KeyBind};
use texti::keybindings::parse_key_event;
use texti::notification::{Notification, NotificationComponent};
use texti::runtime::{EffectRunner, Outbox, Request, Transition};

#[test]
fn tick_count_counts_down_to_zero_and_stays() {
    let mut count = TickCount::new_with_ticks("x", 1);
    assert!(!count.countdown());
    assert_eq!(count.count, 0);
    assert!(count.countdown());
    assert_eq!(count.count, 0);
    assert_eq!(TickCount::new(1u8).count, TICKS_UNTIL_REMOVE_POPUP);
}

#[test]
fn a_notification_leaves_on_the_tick_after_its_count_ran_out() {
    let mut banner = NotificationComponent::new("hello".to_string(), false);
    assert_eq!(banner.handle_tick_action(), ActionResult::consumed(true));
    assert_eq!(banner.handle_tick_action(), ActionResult::consumed(true));
    assert!(banner.visible());
    assert_eq!(banner.handle_tick_action(), ActionResult::consumed(true));
    assert!(!banner.visible());
    assert_eq!(banner.handle_tick_action(), ActionResult::default());
}

#[test]
fn a_notification_with_its_own_count() {
    let mut banner = NotificationComponent::new_with_count("x".to_string(), true, 0);
    assert_eq!(banner.current().map(|(t, e)| (t.clone(), e)), Some(("x".to_string(), true)));
    assert_eq!(banner.handle_action_ref(&Action::Tick), ActionResult::consumed(true));
    assert!(!banner.visible());
}

#[test]
fn a_new_notification_replaces_the_one_on_show() {
    let mut banner = NotificationComponent::empty();
    banner.notify_text("first");
    banner.notify_error("second");
    assert_eq!(
        banner.current().map(|(t, e)| (t.clone(), e)),
        Some(("second".to_string(), true))
    );
    banner.notify(Notification { title: TickCount::new("third".to_string()), error: false });
    assert_eq!(
        banner.current().map(|(t, e)| (t.clone(), e)),
        Some(("third".to_string(), false))
    );
}

#[test]
fn cancel_dismisses_a_notification_and_nothing_else_touches_it() {
    let mut banner = NotificationComponent::new("x".to_string(), false);
    assert_eq!(banner.handle_action(&Action::Character('a')), ActionResult::default());
    assert!(banner.visible());
    assert_eq!(banner.handle_action(&Action::Cancel), ActionResult::consumed(true));
    assert!(!banner.visible());
    assert_eq!(banner.handle_action(&Action::Cancel), ActionResult::default());
}

#[test]
fn cancel_on_a_hidden_confirm_dialog_does_nothing() {
    let mut dialog = ConfirmDialogComponent::new();
    let mut out = Outbox::new();
    for _ in 0..3 {
        assert_eq!(dialog.handle_action(&Action::Cancel, &mut out), ActionResult::not_consumed(false));
        assert!(!dialog.visible());
    }
    assert!(out.actions.is_empty());
    assert!(out.async_actions.is_empty());
    assert!(out.requests.is_empty());
}

#[test]
fn confirming_issues_the_pending_command_once() {
    let mut dialog = ConfirmDialogComponent::new();
    let mut out = Outbox::new();
    dialog.show("title", "message", Action::PasteText("kept".to_string()), &mut out);
    assert!(dialog.visible());
    assert_eq!(dialog.title, "title");
    assert_eq!(dialog.message, "message");
    assert_eq!(dialog.override_keybind_id(), Some(AppComponent::Dialog));
    assert_eq!(dialog.handle_action(&Action::Save, &mut out), ActionResult::consumed(false));
    assert!(dialog.visible());
    assert_eq!(dialog.handle_action(&Action::Confirm, &mut out), ActionResult::consumed(true));
    assert!(!dialog.visible());
    assert_eq!(out.actions, vec![Action::PasteText("kept".to_string())]);
    assert_eq!(dialog.handle_action(&Action::Confirm, &mut out), ActionResult::not_consumed(false));
    assert_eq!(out.actions.len(), 1);
    assert_eq!(dialog.override_keybind_id(), None);
}

#[test]
fn cancelling_drops_the_pending_command() {
    let mut dialog = ConfirmDialogComponent::new();
    let mut out = Outbox::new();
    dialog.show("t", "m", Action::Save, &mut out);
    assert_eq!(dialog.handle_action(&Action::Cancel, &mut out), ActionResult::consumed(true));
    assert!(!dialog.visible());
    assert!(out.actions.is_empty());
}

#[test]
fn showing_a_dialog_starts_its_transition() {
    let mut dialog = ConfirmDialogComponent::new();
    let mut out = Outbox::new();
    dialog.show("t", "m", Action::Save, &mut out);
    assert!(dialog.effect_runner.is_running());
    assert_eq!(out.async_actions, vec![AsyncAction::StartAnimation]);
    assert!(matches!(
        out.requests[0],
        Request::PlayTransition(Transition::NotificationEnter)
    ));
}

fn config() -> Config {
    let mut keybindings = Keybindings::new();
    keybindings.bind(
        AppComponent::Dialog,
        parse_key_event("enter").unwrap(),
        "Enter".to_string(),
        Action::Confirm,
    );
    keybindings.bind(
        AppComponent::Dialog,
        parse_key_event("esc").unwrap(),
        "Esc".to_string(),
        Action::Cancel,
    );
    keybindings.bind(
        AppComponent::Editor,
        parse_key_event("f1").unwrap(),
        "F1".to_string(),
        Action::Help,
    );
    keybindings.bind(
        AppComponent::Editor,
        parse_key_event("ctrl-s").unwrap(),
        "Control+s".to_string(),
        Action::Save,
    );
    Config { config: AppConfig::default(), keybindings }
}

#[test]
fn the_confirm_dialog_names_its_keys() {
    let mut dialog = ConfirmDialogComponent::new();
    dialog.register_config(&config());
    assert_eq!(dialog.confirm_key, "Enter");
    assert_eq!(dialog.cancel_key, "Esc");
}

#[test]
fn the_help_overlay_lists_the_bindings_of_its_screen() {
    let mut help = HelpComponent::default();
    help.register_config(&config(), &AppComponent::Editor);
    assert_eq!(help.help_key(), "F1");
    assert_eq!(help.keybinds.len(), 2);
    assert_eq!(help.keybinds[0].to_string(), " [F1] Help ");
    assert_eq!(help.keybinds[1].to_string(), " [Control+s] Save ");
    // " [Control+s] Save " has 18 characters; nine more for frame and margin.
    assert_eq!(help.width, 27);
}

#[test]
fn the_help_title_names_its_subject() {
    assert_eq!(HelpComponent::new("", Vec::new()).title, " Help ");
    assert_eq!(HelpComponent::new("Editor", Vec::new()).title, " Help - Editor ");
    assert_eq!(HelpComponent::new("", Vec::new()).width, 9);
    assert!(HelpComponent::from_component("x", &AppComponent::HomeScreen, &config()).is_none());
    let help = HelpComponent::from_component("x", &AppComponent::Dialog, &config()).unwrap();
    assert_eq!(help.keybinds.len(), 2);
}

fn lines(n: usize) -> Vec<KeyBind> {
    (0..n)
        .map(|i| KeyBind { key: i.to_string(), label: "x".to_string(), action: Action::Tick })
        .collect()
}

#[test]
fn the_help_overlay_scrolls_within_its_limit() {
    let mut help = HelpComponent::new("", lines(10));
    let mut out = Outbox::new();
    assert_eq!(help.handle_action(&Action::Down, &mut out), ActionResult::not_consumed(false));
    assert_eq!(help.handle_action(&Action::Help, &mut out), ActionResult::consumed(true));
    assert!(help.visible);
    help.set_viewport_height(5);
    assert_eq!(help.max_offset, 3);
    assert_eq!(help.handle_action(&Action::Up, &mut out), ActionResult::default());
    for expected in 1..=3u16 {
        assert_eq!(help.handle_action(&Action::Down, &mut out), ActionResult::consumed(true));
        assert_eq!(help.scroll_offset, expected);
    }
    assert_eq!(help.handle_action(&Action::Down, &mut out), ActionResult::default());
    assert_eq!(help.handle_action(&Action::Up, &mut out), ActionResult::consumed(true));
    assert_eq!(help.scroll_offset, 2);
    assert_eq!(help.handle_action(&Action::Cancel, &mut out), ActionResult::default());
    assert_eq!(help.handle_action(&Action::Help, &mut out), ActionResult::consumed(true));
    assert!(!help.visible);
    help.set_viewport_height(20);
    assert_eq!(help.max_offset, 0);
}

#[test]
fn an_effect_runner_reports_the_end_of_a_transition_once() {
    let mut runner = EffectRunner::new();
    let mut out = Outbox::new();
    assert!(!runner.process(false, &mut out));
    runner.add_effect(Transition::DialogEnter, &mut out);
    assert!(runner.is_running());
    assert!(!runner.process(true, &mut out));
    assert!(runner.process(false, &mut out));
    assert!(!runner.is_running());
    assert!(!runner.process(false, &mut out));
    assert_eq!(
        out.async_actions,
        vec![AsyncAction::StartAnimation, AsyncAction::StopAnimation]
    );
    runner.add_effect(Transition::DialogEnter, &mut out);
    runner.cancel(&mut out);
    assert!(!runner.is_running());
    assert_eq!(out.async_actions.len(), 4);
}

#[test]
fn the_configuration_directory_is_chosen_in_order() {
    assert_eq!(get_config_dir(Some("/env".to_string()), Some("/platform".to_string())), "/env");
    assert_eq!(get_config_dir(None, Some("/platform".to_string())), "/platform");
    assert_eq!(get_config_dir(None, None), "./.config");
    assert_eq!(get_config_file_dir("/home/me/.config/texti"), "/home/me/.config/texti/config.yml");
}

#[test]
fn a_configuration_is_copied_whole() {
    let first = config();
    let copy = first.clone();
    assert_eq!(copy.keybindings.entries.len(), first.keybindings.entries.len());
    assert_eq!(
        copy.keybindings.get_action(&AppComponent::Editor, parse_key_event("ctrl-s").unwrap()),
        Some(Action::Save)
    );
    assert_eq!(Config::default().keybindings.entries.len(), 0);
}
