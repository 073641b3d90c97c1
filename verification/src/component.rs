use vstd::prelude::*;
use vstd::std_specs::cmp::PartialEqSpecImpl;

use crate::action::{Action, ActionResult, AsyncAction};
use crate::config::Config;
use crate::editor::EditorComponent;
use crate::home::HomeComponent;
use crate::navigator::NavigatorComponent;
use crate::runtime::{Completion, Outbox};

verus! {

/// Ticks a notification stays on screen when no other count is given.
pub const TICKS_UNTIL_REMOVE_POPUP: usize = 2;

/// The identity of a screen: the key under which its key bindings are filed,
/// and what the navigator is asked to construct next.
#[derive(Debug)]
pub enum AppComponent {
    HomeScreen,
    OpenedEditor(String),
    FileDialog,
    Editor,
    Dialog,
}

impl Default for AppComponent {
    fn default() -> (r: Self)
        ensures
            r == AppComponent::HomeScreen,
    {
        AppComponent::HomeScreen
    }
}

impl Clone for AppComponent {
    fn clone(&self) -> (r: Self)
        ensures
            r == *self,
    {
        match self {
            AppComponent::HomeScreen => AppComponent::HomeScreen,
            AppComponent::OpenedEditor(path) => AppComponent::OpenedEditor(path.clone()),
            AppComponent::FileDialog => AppComponent::FileDialog,
            AppComponent::Editor => AppComponent::Editor,
            AppComponent::Dialog => AppComponent::Dialog,
        }
    }
}

impl PartialEq for AppComponent {
    fn eq(&self, other: &AppComponent) -> (r: bool) {
        match (self, other) {
            (AppComponent::HomeScreen, AppComponent::HomeScreen) => true,
            (AppComponent::OpenedEditor(a), AppComponent::OpenedEditor(b)) => *a == *b,
            (AppComponent::FileDialog, AppComponent::FileDialog) => true,
            (AppComponent::Editor, AppComponent::Editor) => true,
            (AppComponent::Dialog, AppComponent::Dialog) => true,
            _ => false,
        }
    }
}

impl Eq for AppComponent {}

impl PartialEqSpecImpl for AppComponent {
    open spec fn obeys_eq_spec() -> bool {
        true
    }

    open spec fn eq_spec(&self, other: &AppComponent) -> bool {
        self.same(*other)
    }
}

impl AppComponent {
    /// Same screen; two opened editors are the same when their paths read the same.
    pub open spec fn same(self, other: AppComponent) -> bool {
        match (self, other) {
            (AppComponent::OpenedEditor(a), AppComponent::OpenedEditor(b)) => a@ == b@,
            (a, b) => a == b,
        }
    }
}

/// A value with the number of ticks it has left.
#[derive(Debug)]
pub struct TickCount<T> {
    pub value: T,
    pub count: usize,
}

impl<T> TickCount<T> {
    pub fn new(value: T) -> (r: Self)
        ensures
            r.value == value,
            r.count == TICKS_UNTIL_REMOVE_POPUP,
    {
        Self { value, count: TICKS_UNTIL_REMOVE_POPUP }
    }

    pub fn new_with_ticks(value: T, ticks: usize) -> (r: Self)
        ensures
            r.value == value,
            r.count == ticks,
    {
        Self { value, count: ticks }
    }

    /// Spends one tick. Answers `true` when none was left, and leaves the
    /// count at zero then.
    pub fn countdown(&mut self) -> (expired: bool)
        ensures
            expired == (old(self).count == 0),
            final(self).value == old(self).value,
            final(self).count == if old(self).count == 0 {
                0
            } else {
                old(self).count - 1
            },
    {
        if self.count == 0 {
            true
        } else {
            self.count -= 1;
            false
        }
    }
}

/// What every screen can do, and the navigator that holds the screens.
///
/// A component takes the configuration, says which screen's key bindings
/// are in force, and handles commands, results and the outcomes of requests.
/// Each handler answers whether it consumed what it was given and whether
/// the screen has to be drawn again, and leaves in the outbox what it wants
/// done. What a handler does is said by the predicate of the same name.
pub trait Component: Sized {
    /// Whether `after` is this component with the configuration taken.
    spec fn registered(self, config: Config, after: Self) -> bool;

    /// The screen whose key bindings are in force.
    spec fn keybind_id(self) -> AppComponent;

    /// What a command does to the component.
    spec fn handled(
        self,
        action: Action,
        after: Self,
        r: ActionResult,
        out_before: Outbox,
        out_after: Outbox,
    ) -> bool;

    /// What a result does to the component.
    spec fn async_handled(
        self,
        action: AsyncAction,
        after: Self,
        r: ActionResult,
        out_before: Outbox,
        out_after: Outbox,
    ) -> bool;

    /// What the outcome of a request does to the component.
    spec fn completed(
        self,
        completion: Completion,
        after: Self,
        r: ActionResult,
        out_before: Outbox,
        out_after: Outbox,
    ) -> bool;

    fn register_config(&mut self, config: &Config)
        ensures
            old(self).registered(*config, *final(self)),
    ;

    fn override_keybind_id(&self) -> (r: Option<AppComponent>)
        ensures
            r == Some(self.keybind_id()),
    ;

    fn handle_action(&mut self, action: &Action, out: &mut Outbox) -> (r: ActionResult)
        ensures
            old(self).handled(*action, *final(self), r, *old(out), *final(out)),
    ;

    fn handle_async_action(&mut self, action: &AsyncAction, out: &mut Outbox) -> (r: ActionResult)
        ensures
            old(self).async_handled(*action, *final(self), r, *old(out), *final(out)),
    ;

    fn handle_completion(&mut self, completion: &Completion, out: &mut Outbox) -> (r:
        ActionResult)
        ensures
            old(self).completed(*completion, *final(self), r, *old(out), *final(out)),
    ;
}

impl Component for HomeComponent {
    open spec fn registered(self, config: Config, after: Self) -> bool {
        HomeComponent::registered(self, config, after)
    }

    open spec fn keybind_id(self) -> AppComponent {
        HomeComponent::keybind_id(self)
    }

    open spec fn handled(
        self,
        action: Action,
        after: Self,
        r: ActionResult,
        out_before: Outbox,
        out_after: Outbox,
    ) -> bool {
        HomeComponent::handled(self, action, after, r, out_before, out_after)
    }

    open spec fn async_handled(
        self,
        action: AsyncAction,
        after: Self,
        r: ActionResult,
        out_before: Outbox,
        out_after: Outbox,
    ) -> bool {
        HomeComponent::async_handled(self, action, after, r, out_before, out_after)
    }

    open spec fn completed(
        self,
        completion: Completion,
        after: Self,
        r: ActionResult,
        out_before: Outbox,
        out_after: Outbox,
    ) -> bool {
        HomeComponent::completed(self, completion, after, r, out_before, out_after)
    }

    fn register_config(&mut self, config: &Config) {
        HomeComponent::register_config(self, config)
    }

    fn override_keybind_id(&self) -> (r: Option<AppComponent>) {
        HomeComponent::override_keybind_id(self)
    }

    fn handle_action(&mut self, action: &Action, out: &mut Outbox) -> (r: ActionResult) {
        HomeComponent::handle_action(self, action, out)
    }

    fn handle_async_action(&mut self, action: &AsyncAction, out: &mut Outbox) -> (r: ActionResult) {
        HomeComponent::handle_async_action(self, action, out)
    }

    fn handle_completion(&mut self, completion: &Completion, out: &mut Outbox) -> (r:
        ActionResult) {
        HomeComponent::handle_completion(self, completion, out)
    }
}

impl Component for EditorComponent {
    open spec fn registered(self, config: Config, after: Self) -> bool {
        EditorComponent::registered(self, config, after)
    }

    open spec fn keybind_id(self) -> AppComponent {
        EditorComponent::keybind_id(self)
    }

    open spec fn handled(
        self,
        action: Action,
        after: Self,
        r: ActionResult,
        out_before: Outbox,
        out_after: Outbox,
    ) -> bool {
        EditorComponent::handled(self, action, after, r, out_before, out_after)
    }

    open spec fn async_handled(
        self,
        action: AsyncAction,
        after: Self,
        r: ActionResult,
        out_before: Outbox,
        out_after: Outbox,
    ) -> bool {
        EditorComponent::async_handled(self, action, after, r, out_before, out_after)
    }

    open spec fn completed(
        self,
        completion: Completion,
        after: Self,
        r: ActionResult,
        out_before: Outbox,
        out_after: Outbox,
    ) -> bool {
        EditorComponent::completed(self, completion, after, r, out_before, out_after)
    }

    fn register_config(&mut self, config: &Config) {
        EditorComponent::register_config(self, config)
    }

    fn override_keybind_id(&self) -> (r: Option<AppComponent>) {
        EditorComponent::override_keybind_id(self)
    }

    fn handle_action(&mut self, action: &Action, out: &mut Outbox) -> (r: ActionResult) {
        EditorComponent::handle_action(self, action, out)
    }

    fn handle_async_action(&mut self, action: &AsyncAction, out: &mut Outbox) -> (r: ActionResult) {
        EditorComponent::handle_async_action(self, action, out)
    }

    fn handle_completion(&mut self, completion: &Completion, out: &mut Outbox) -> (r:
        ActionResult) {
        EditorComponent::handle_completion(self, completion, out)
    }
}

impl Component for NavigatorComponent {
    open spec fn registered(self, config: Config, after: Self) -> bool {
        NavigatorComponent::registered(self, config, after)
    }

    open spec fn keybind_id(self) -> AppComponent {
        self.component.keybind_id()
    }

    open spec fn handled(
        self,
        action: Action,
        after: Self,
        r: ActionResult,
        out_before: Outbox,
        out_after: Outbox,
    ) -> bool {
        NavigatorComponent::handled(self, action, after, r, out_before, out_after)
    }

    open spec fn async_handled(
        self,
        action: AsyncAction,
        after: Self,
        r: ActionResult,
        out_before: Outbox,
        out_after: Outbox,
    ) -> bool {
        NavigatorComponent::async_handled(self, action, after, r, out_before, out_after)
    }

    open spec fn completed(
        self,
        completion: Completion,
        after: Self,
        r: ActionResult,
        out_before: Outbox,
        out_after: Outbox,
    ) -> bool {
        NavigatorComponent::completed(self, completion, after, r, out_before, out_after)
    }

    fn register_config(&mut self, config: &Config) {
        NavigatorComponent::register_config(self, config)
    }

    fn override_keybind_id(&self) -> (r: Option<AppComponent>) {
        NavigatorComponent::override_keybind_id(self)
    }

    fn handle_action(&mut self, action: &Action, out: &mut Outbox) -> (r: ActionResult) {
        NavigatorComponent::handle_action(self, action, out)
    }

    fn handle_async_action(&mut self, action: &AsyncAction, out: &mut Outbox) -> (r: ActionResult) {
        NavigatorComponent::handle_async_action(self, action, out)
    }

    fn handle_completion(&mut self, completion: &Completion, out: &mut Outbox) -> (r:
        ActionResult) {
        NavigatorComponent::handle_completion(self, completion, out)
    }
}

} // verus!
