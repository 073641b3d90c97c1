use texti::action::Action;
use texti::bindings::{Binding, Keybindings};
use texti::component::AppComponent;
use texti::help::{key_label_format, stringify_key_event};
use texti::keybindings::{
    extract_modifiers, parse_key_code_with_modifiers, parse_key_event, KeyCode, KeyEvent,
    KeyModifiers,
};

fn mods(shift: bool, control: bool, alt: bool) -> KeyModifiers {
    KeyModifiers { shift, control, alt, super_key: false, hyper: false, meta: false }
}

#[test]
fn parses_a_plain_character() {
    let key = parse_key_event("q").unwrap();
    assert_eq!(key, KeyEvent::new(KeyCode::Char('q'), KeyModifiers::empty()));
}

#[test]
fn parses_stacked_modifiers_in_any_case() {
    let key = parse_key_event("CTRL-Alt-x").unwrap();
    assert_eq!(key, KeyEvent::new(KeyCode::Char('x'), mods(false, true, true)));
    let key = parse_key_event("alt-ctrl-x").unwrap();
    assert_eq!(key, KeyEvent::new(KeyCode::Char('x'), mods(false, true, true)));
}

#[test]
fn shift_makes_a_letter_a_capital() {
    let key = parse_key_event("shift-a").unwrap();
    assert_eq!(key, KeyEvent::new(KeyCode::Char('A'), mods(true, false, false)));
}

#[test]
fn backtab_implies_shift() {
    let key = parse_key_event("backtab").unwrap();
    assert_eq!(key, KeyEvent::new(KeyCode::BackTab, mods(true, false, false)));
}

#[test]
fn parses_every_named_key() {
    let cases = vec![
        ("esc", KeyCode::Esc),
        ("enter", KeyCode::Enter),
        ("left", KeyCode::Left),
        ("right", KeyCode::Right),
        ("up", KeyCode::Up),
        ("down", KeyCode::Down),
        ("home", KeyCode::Home),
        ("end", KeyCode::End),
        ("pageup", KeyCode::PageUp),
        ("pagedown", KeyCode::PageDown),
        ("backspace", KeyCode::Backspace),
        ("delete", KeyCode::Delete),
        ("insert", KeyCode::Insert),
        ("f1", KeyCode::F(1)),
        ("f9", KeyCode::F(9)),
        ("f10", KeyCode::F(10)),
        ("f12", KeyCode::F(12)),
        ("space", KeyCode::Char(' ')),
        ("hyphen", KeyCode::Char('-')),
        ("minus", KeyCode::Char('-')),
        ("tab", KeyCode::Tab),
    ];
    for (name, code) in cases {
        assert_eq!(parse_key_event(name).unwrap(), KeyEvent::new(code, KeyModifiers::empty()));
    }
}

#[test]
fn refuses_what_names_no_key() {
    assert_eq!(parse_key_event("bogus"), Err("Unable to parse bogus".to_string()));
    assert_eq!(parse_key_event("ctrl-"), Err("Unable to parse ".to_string()));
    assert_eq!(parse_key_event("Ctrl-F13"), Err("Unable to parse f13".to_string()));
    assert_eq!(parse_key_event(""), Err("Unable to parse ".to_string()));
}

#[test]
fn a_single_character_of_any_script_is_a_key() {
    let key = parse_key_event("é").unwrap();
    assert_eq!(key.code, KeyCode::Char('é'));
}

#[test]
fn modifiers_are_extracted_up_to_the_key_name() {
    let chars: Vec<char> = "ctrl-shift-tab".chars().collect();
    let (from, modifiers) = extract_modifiers(&chars);
    assert_eq!(from, 11);
    assert_eq!(modifiers, mods(true, true, false));
    let key = parse_key_code_with_modifiers(&chars, from, modifiers).unwrap();
    assert_eq!(key, KeyEvent::new(KeyCode::Tab, mods(true, true, false)));
}

#[test]
fn a_capital_counts_as_shifted() {
    let capital = KeyEvent::new(KeyCode::Char('D'), KeyModifiers::empty());
    let shifted = KeyEvent::new(KeyCode::Char('d'), mods(true, false, false));
    let both = KeyEvent::new(KeyCode::Char('D'), mods(true, false, false));
    let plain = KeyEvent::new(KeyCode::Char('d'), KeyModifiers::empty());
    assert!(capital.is_same_key(&shifted));
    assert!(capital.is_same_key(&both));
    assert!(!capital.is_same_key(&plain));
    assert_eq!(shifted.normalize_case(), both);
}

#[test]
fn as_char_gives_the_character_of_a_character_key() {
    assert_eq!(KeyCode::Char('x').as_char(), Some('x'));
    assert_eq!(KeyCode::Enter.as_char(), None);
}

fn table() -> Keybindings {
    let mut table = Keybindings::new();
    let save = parse_key_event("ctrl-s").unwrap();
    let quit = parse_key_event("ctrl-q").unwrap();
    let help = parse_key_event("f1").unwrap();
    table.bind(AppComponent::Editor, save, "Control+s".to_string(), Action::Save);
    table.bind(AppComponent::Editor, help, "F1".to_string(), Action::Help);
    table.bind(AppComponent::HomeScreen, quit, "Control+q".to_string(), Action::Quit);
    table
}

#[test]
fn a_key_issues_its_command_on_its_screen_only() {
    let table = table();
    let save = parse_key_event("ctrl-s").unwrap();
    assert_eq!(table.get_action(&AppComponent::Editor, save), Some(Action::Save));
    assert_eq!(table.get_action(&AppComponent::HomeScreen, save), None);
    let other = parse_key_event("ctrl-x").unwrap();
    assert_eq!(table.get_action(&AppComponent::Editor, other), None);
}

#[test]
fn binding_a_bound_key_replaces_its_command() {
    let mut table = table();
    let save = parse_key_event("ctrl-s").unwrap();
    table.bind(AppComponent::Editor, save, "Control+s".to_string(), Action::SaveTo);
    assert_eq!(table.get_action(&AppComponent::Editor, save), Some(Action::SaveTo));
    assert_eq!(table.entries.len(), 3);
}

#[test]
fn the_key_of_a_command_is_found_with_its_label() {
    let table = table();
    let help = parse_key_event("f1").unwrap();
    assert_eq!(table.get_key_event_of_action(&AppComponent::Editor, &Action::Help), Some(help));
    assert_eq!(table.get_key_event_of_action(&AppComponent::Editor, &Action::Quit), None);
    assert_eq!(table.get_key_string_or_default(&Action::Help, &AppComponent::Editor), "F1");
    assert_eq!(table.get_key_string_or_default(&Action::Quit, &AppComponent::Editor), "");
}

#[test]
fn the_bindings_of_a_screen_are_listed_in_order() {
    let table = table();
    let editor = table.get_all_keybinds(&AppComponent::Editor).unwrap();
    assert_eq!(editor.len(), 2);
    assert_eq!(editor[0].action, Action::Save);
    assert_eq!(editor[1].action, Action::Help);
    assert!(table.get_all_keybinds(&AppComponent::Dialog).is_none());
}

#[test]
fn with_keeps_the_entries_given() {
    let entry = Binding {
        screen: AppComponent::Dialog,
        key: parse_key_event("enter").unwrap(),
        label: "Enter".to_string(),
        action: Action::Confirm,
    };
    let table = Keybindings::with(vec![entry]);
    assert_eq!(
        table.get_action(&AppComponent::Dialog, parse_key_event("enter").unwrap()),
        Some(Action::Confirm)
    );
}

#[test]
fn a_key_press_is_written_with_its_modifiers() {
    let labels = vec!["Control".to_string(), "Shift".to_string()];
    assert_eq!(stringify_key_event(&labels, "s"), "Control+Shift+s");
    assert_eq!(stringify_key_event(&Vec::new(), "Esc"), "Esc");
}

#[test]
fn a_key_label_is_framed_by_brackets() {
    assert_eq!(key_label_format("Enter", "Open"), " [Enter] Open ");
}
