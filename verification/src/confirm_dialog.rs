use vstd::prelude::*;
use vstd::string::StringExecFns;

use crate::action::{Action, ActionResult};
use crate::component::AppComponent;
use crate::config::Config;
use crate::runtime::{EffectRunner, Outbox, Transition};

verus! {

/// A dialog that asks for a yes or a no. While it is on show it holds one
/// command, which it issues again, unchanged, when the user confirms, and
/// drops when the user cancels.
#[derive(Debug)]
pub struct ConfirmDialogComponent {
    pub title: String,
    pub message: String,
    pub action_on_confirm: Option<Action>,
    pub effect_runner: EffectRunner,
    pub cancel_key: String,
    pub confirm_key: String,
}

impl ConfirmDialogComponent {
    /// A hidden dialog.
    pub fn new() -> (r: Self)
        ensures
            !r.is_visible(),
            r.title@.len() == 0,
            r.message@.len() == 0,
            r.cancel_key@.len() == 0,
            r.confirm_key@.len() == 0,
            !r.effect_runner.running(),
    {
        ConfirmDialogComponent {
            title: String::new(),
            message: String::new(),
            action_on_confirm: None,
            effect_runner: EffectRunner::new(),
            cancel_key: String::new(),
            confirm_key: String::new(),
        }
    }

    /// The dialog is on show exactly while it holds a command.
    pub open spec fn is_visible(self) -> bool {
        self.action_on_confirm is Some
    }

    /// Puts the dialog on show with the command to issue on confirmation. A
    /// confirmation already pending is replaced.
    pub fn show(&mut self, title: &str, message: &str, action_on_confirm: Action, out: &mut Outbox)
        ensures
            final(self).title@ == title@,
            final(self).message@ == message@,
            final(self).action_on_confirm == Some(action_on_confirm),
            final(self).cancel_key == old(self).cancel_key,
            final(self).confirm_key == old(self).confirm_key,
            final(self).effect_runner.running(),
            final(out).extends(
                *old(out),
                seq![],
                seq![crate::action::AsyncAction::StartAnimation],
                seq![crate::runtime::Request::PlayTransition(Transition::NotificationEnter)],
            ),
    {
        self.title = String::from_str(title);
        self.message = String::from_str(message);
        self.action_on_confirm = Some(action_on_confirm);
        self.effect_runner.add_effect(Transition::NotificationEnter, out);
    }

    pub fn visible(&self) -> (r: bool)
        ensures
            r == self.is_visible(),
    {
        self.action_on_confirm.is_some()
    }

    /// Whether `after` is this dialog with the labels of the keys that
    /// confirm and cancel a dialog taken from the configuration.
    pub open spec fn registered(self, config: Config, after: ConfirmDialogComponent) -> bool {
        &&& after.confirm_key@ == match config.keybindings.key_of(
            AppComponent::Dialog,
            Action::Confirm,
        ) {
            Some(binding) => binding.label@,
            None => Seq::<char>::empty(),
        }
        &&& after.cancel_key@ == match config.keybindings.key_of(
            AppComponent::Dialog,
            Action::Cancel,
        ) {
            Some(binding) => binding.label@,
            None => Seq::<char>::empty(),
        }
        &&& after.title == self.title
        &&& after.message == self.message
        &&& after.action_on_confirm == self.action_on_confirm
        &&& after.effect_runner == self.effect_runner
    }

    /// Takes the labels of the keys that confirm and cancel a dialog.
    pub fn register_config(&mut self, config: &Config)
        ensures
            old(self).registered(*config, *final(self)),
    {
        self.confirm_key = config.keybindings.get_key_string_or_default(
            &Action::Confirm,
            &AppComponent::Dialog,
        );
        self.cancel_key = config.keybindings.get_key_string_or_default(
            &Action::Cancel,
            &AppComponent::Dialog,
        );
    }

    /// While on show, the dialog claims the key bindings of dialogs.
    pub fn override_keybind_id(&self) -> (r: Option<AppComponent>)
        ensures
            r == if self.is_visible() {
                Some(AppComponent::Dialog)
            } else {
                None
            },
    {
        if !self.visible() {
            return None;
        }
        Some(AppComponent::Dialog)
    }

    /// The dialog after a command: confirming and cancelling both hide it.
    pub open spec fn after(self, action: Action) -> ConfirmDialogComponent {
        if self.is_visible() && (action is Confirm || action is Cancel) {
            ConfirmDialogComponent { action_on_confirm: None, ..self }
        } else {
            self
        }
    }

    /// The answer to a command: a hidden dialog consumes nothing; a dialog
    /// on show consumes everything, and asks for a redraw when it closes.
    pub open spec fn answer(self, action: Action) -> ActionResult {
        if !self.is_visible() {
            ActionResult::NotConsumed { rerender: false }
        } else {
            ActionResult::Consumed { rerender: action is Confirm || action is Cancel }
        }
    }

    /// The commands issued in answer to a command: the pending one, on confirmation.
    pub open spec fn issued(self, action: Action) -> Seq<Action> {
        if self.is_visible() && action is Confirm {
            seq![self.action_on_confirm->0]
        } else {
            seq![]
        }
    }

    pub fn handle_action(&mut self, action: &Action, out: &mut Outbox) -> (r: ActionResult)
        ensures
            *final(self) == old(self).after(*action),
            r == old(self).answer(*action),
            final(out).extends(*old(out), old(self).issued(*action), seq![], seq![]),
            !old(self).is_visible() ==> *final(out) == *old(out),
    {
        if !self.visible() {
            return ActionResult::not_consumed(false);
        }
        match action {
            Action::Confirm => {
                let on_confirm_action = self.action_on_confirm.take().unwrap();
                out.send_action(on_confirm_action);
                ActionResult::consumed(true)
            },
            Action::Cancel => {
                self.action_on_confirm = None;
                ActionResult::consumed(true)
            },
            _ => ActionResult::consumed(false),
        }
    }
}

} // verus!
