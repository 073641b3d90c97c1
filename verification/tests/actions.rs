use texti::action::{Action, ActionResult, SelectorType};

#[test]
fn only_plain_arrows_are_directional() {
    assert!(Action::Up.is_directional_action());
    assert!(Action::Down.is_directional_action());
    assert!(Action::Left.is_directional_action());
    assert!(Action::Right.is_directional_action());
    assert!(!Action::SelectUp.is_directional_action());
    assert!(!Action::SelectLeft.is_directional_action());
    assert!(!Action::Character('a').is_directional_action());
    assert!(!Action::Tick.is_directional_action());
}

#[test]
fn default_result_is_not_consumed_without_redraw() {
    let r = ActionResult::default();
    assert_eq!(r, ActionResult::NotConsumed { rerender: false });
    assert!(r.is_not_consumed());
    assert!(!r.is_consumed());
    assert!(!r.should_rerender());
}

#[test]
fn result_constructors_and_classifiers() {
    assert!(ActionResult::consumed(true).is_consumed_and_rerender());
    assert!(!ActionResult::consumed(false).is_consumed_and_rerender());
    assert!(ActionResult::consumed(false).is_consumed());
    assert!(ActionResult::not_consumed(true).should_rerender());
    assert!(!ActionResult::not_consumed(true).is_consumed_and_rerender());
}

#[test]
fn selector_type_rules() {
    assert!(SelectorType::PickFile.show_files());
    assert!(!SelectorType::PickFolder.show_files());
    assert!(!SelectorType::NewFile.show_files());
    assert!(!SelectorType::PickFile.can_pick_folder());
    assert!(SelectorType::PickFolder.can_pick_folder());
    assert!(SelectorType::NewFile.can_pick_folder());
    assert_eq!(SelectorType::default(), SelectorType::PickFile);
    assert_eq!(SelectorType::NewFile.to_string(), " New File ");
}
