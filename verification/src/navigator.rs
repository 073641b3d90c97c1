use vstd::prelude::*;

use crate::action::{Action, ActionResult, AsyncAction};
use crate::component::AppComponent;
use crate::config::Config;
use crate::editor::EditorComponent;
use crate::home::HomeComponent;
use crate::runtime::{
    lemma_pending_push, pending, Completion, EffectRunner, Outbox, Request, Transition,
};
use crate::text::TextState;

verus! {

/// The screen that is active: the set of screens is closed.
#[derive(Debug)]
pub enum Screen {
    Home(HomeComponent),
    Editor(EditorComponent),
}

/// The kind of screen that is constructed for a target: the editor for the
/// two editor targets, the home screen for every other. The navigator
/// itself keeps the target as it was asked for.
pub open spec fn identity_of(target: AppComponent) -> AppComponent {
    match target {
        AppComponent::OpenedEditor(_) | AppComponent::Editor => AppComponent::Editor,
        _ => AppComponent::HomeScreen,
    }
}

impl Screen {
    /// Whether this is the home screen as it is made.
    pub open spec fn is_new_home(self) -> bool {
        match self {
            Screen::Home(home) => home.is_new(),
            Screen::Editor(_) => false,
        }
    }

    /// Whether `screen` is the screen constructed for `target`, with no
    /// configuration yet and nothing started.
    pub open spec fn constructed(target: AppComponent, screen: Screen) -> bool {
        match target {
            AppComponent::OpenedEditor(path) => {
                &&& screen matches Screen::Editor(e)
                &&& e.quiet()
                &&& e.text() == TextState::empty()
                &&& !e.buffer.modified
                &&& e.buffer.file_path is Some
                &&& e.buffer.file_path->0@ == path@
            },
            AppComponent::Editor => {
                &&& screen matches Screen::Editor(e)
                &&& e.quiet()
                &&& e.text() == TextState::empty()
                &&& !e.buffer.modified
                &&& e.buffer.file_path is None
            },
            _ => {
                &&& screen matches Screen::Home(h)
                &&& h.selected is None
                &&& !h.file_selector_component.visible
                &&& !h.file_history_component.opened
            },
        }
    }

    /// Whether `screen` is the screen constructed for `target`, configured
    /// and started: an editor on a path is loading its file.
    pub open spec fn opened(
        target: AppComponent,
        config: Config,
        screen: Screen,
        out_before: Outbox,
        out_after: Outbox,
    ) -> bool {
        match target {
            AppComponent::OpenedEditor(path) => {
                &&& screen matches Screen::Editor(e)
                &&& e.buffer.file_path is Some
                &&& e.buffer.file_path->0@ == path@
                &&& e.text() == TextState::empty()
                &&& !e.buffer.modified
                &&& e.loading
                &&& !e.saving_file
                &&& !e.insert
                &&& e.notification.shown() is None
                &&& !e.file_dialog.visible
                &&& !e.confirm_dialog_component.is_visible()
                &&& e.search_box_component.input() is None
                &&& !e.help_component.visible
                &&& e.config.config == config.config
                &&& e.config.keybindings@ == config.keybindings@
                &&& out_after.extends(
                    out_before,
                    seq![],
                    seq![],
                    seq![Request::LoadFile(e.buffer.file_path->0)],
                )
            },
            AppComponent::Editor => {
                &&& screen matches Screen::Editor(e)
                &&& e.buffer.file_path is None
                &&& e.text() == TextState::empty()
                &&& !e.buffer.modified
                &&& !e.loading
                &&& !e.saving_file
                &&& !e.insert
                &&& e.notification.shown() is None
                &&& !e.file_dialog.visible
                &&& !e.confirm_dialog_component.is_visible()
                &&& e.search_box_component.input() is None
                &&& !e.help_component.visible
                &&& e.config.config == config.config
                &&& e.config.keybindings@ == config.keybindings@
                &&& out_after.same_as(out_before)
            },
            _ => {
                &&& screen matches Screen::Home(h)
                &&& h.selected is None
                &&& !h.file_selector_component.visible
                &&& !h.file_history_component.opened
                &&& h.working_dir == config.config.working_dir
                &&& h.keybinds.taken_from(config, AppComponent::HomeScreen)
                &&& out_after.same_as(out_before)
            },
        }
    }

    /// Whether `after` is this screen with the configuration taken.
    pub open spec fn registered(self, config: Config, after: Screen) -> bool {
        match (self, after) {
            (Screen::Home(h), Screen::Home(h2)) => h.registered(config, h2),
            (Screen::Editor(e), Screen::Editor(e2)) => e.registered(config, e2),
            _ => false,
        }
    }

    /// What a command does to the active screen.
    pub open spec fn handled(
        self,
        action: Action,
        after: Screen,
        r: ActionResult,
        out_before: Outbox,
        out_after: Outbox,
    ) -> bool {
        match (self, after) {
            (Screen::Home(h), Screen::Home(h2)) => h.handled(action, h2, r, out_before, out_after),
            (Screen::Editor(e), Screen::Editor(e2)) => e.handled(
                action,
                e2,
                r,
                out_before,
                out_after,
            ),
            _ => false,
        }
    }

    /// What a result does to the active screen.
    pub open spec fn async_handled(
        self,
        action: AsyncAction,
        after: Screen,
        r: ActionResult,
        out_before: Outbox,
        out_after: Outbox,
    ) -> bool {
        match (self, after) {
            (Screen::Home(h), Screen::Home(h2)) => h.async_handled(
                action,
                h2,
                r,
                out_before,
                out_after,
            ),
            (Screen::Editor(e), Screen::Editor(e2)) => e.async_handled(
                action,
                e2,
                r,
                out_before,
                out_after,
            ),
            _ => false,
        }
    }

    /// What the outcome of a request does to the active screen.
    pub open spec fn completed(
        self,
        completion: Completion,
        after: Screen,
        r: ActionResult,
        out_before: Outbox,
        out_after: Outbox,
    ) -> bool {
        match (self, after) {
            (Screen::Home(h), Screen::Home(h2)) => h.completed(
                completion,
                h2,
                r,
                out_before,
                out_after,
            ),
            (Screen::Editor(e), Screen::Editor(e2)) => e.completed(
                completion,
                e2,
                r,
                out_before,
                out_after,
            ),
            _ => false,
        }
    }

    /// The screen whose key bindings the active screen puts in force.
    pub open spec fn keybind_id(self) -> AppComponent {
        match self {
            Screen::Home(h) => h.keybind_id(),
            Screen::Editor(e) => e.keybind_id(),
        }
    }

    /// How many commands the screen may still issue by itself.
    pub open spec fn potential(self) -> nat {
        match self {
            Screen::Home(_) => 0,
            Screen::Editor(e) => e.potential(),
        }
    }

    /// Offers a command to the screen. What the screen issues in answer
    /// never adds to the commands still to be handled and those that it may
    /// yet issue, taken together.
    pub fn handle_action(&mut self, action: &Action, out: &mut Outbox) -> (r: ActionResult)
        ensures
            old(self).handled(*action, *final(self), r, *old(out), *final(out)),
            pending(final(out).actions@) + final(self).potential() <= pending(old(out).actions@)
                + old(self).potential(),
    {
        proof {
            lemma_pending_push(old(out).actions@, Action::Quit);
        }
        match self {
            Screen::Home(h) => h.handle_action(action, out),
            Screen::Editor(e) => {
                proof {
                    let issued = e.issued(*action);
                    if issued.len() > 0 {
                        assert(issued.len() == 1);
                        assert(old(out).actions@ + issued =~= old(out).actions@.push(issued[0]));
                        lemma_pending_push(old(out).actions@, issued[0]);
                    } else {
                        assert(old(out).actions@ + issued =~= old(out).actions@);
                    }
                }
                e.handle_action(action, out)
            },
        }
    }

    pub fn handle_async_action(&mut self, action: &AsyncAction, out: &mut Outbox) -> (r:
        ActionResult)
        ensures
            crate::runtime::load(final(out).async_actions@) < crate::runtime::load(
                old(out).async_actions@,
            ) + crate::runtime::weight(*action),
            old(self).async_handled(*action, *final(self), r, *old(out), *final(out)),
    {
        match self {
            Screen::Home(h) => h.handle_async_action(action, out),
            Screen::Editor(e) => e.handle_async_action(action, out),
        }
    }

    pub fn handle_completion(&mut self, completion: &Completion, out: &mut Outbox) -> (r:
        ActionResult)
        ensures
            old(self).completed(*completion, *final(self), r, *old(out), *final(out)),
    {
        match self {
            Screen::Home(h) => h.handle_completion(completion, out),
            Screen::Editor(e) => e.handle_completion(completion, out),
        }
    }

    pub fn override_keybind_id(&self) -> (r: Option<AppComponent>)
        ensures
            r == Some(self.keybind_id()),
    {
        match self {
            Screen::Home(h) => h.override_keybind_id(),
            Screen::Editor(e) => e.override_keybind_id(),
        }
    }

    /// Configures a screen just constructed and starts it.
    fn open(&mut self, Ghost(target): Ghost<AppComponent>, config: &Config, out: &mut Outbox)
        requires
            Screen::constructed(target, *old(self)),
        ensures
            crate::runtime::at_most_animated(*old(out), *final(out)),
            Screen::opened(target, *config, *final(self), *old(out), *final(out)),
    {
        match self {
            Screen::Home(h) => {
                h.register_config(config);
            },
            Screen::Editor(e) => {
                e.register_config(config);
                e.init(out);
            },
        }
    }
}

/// A change of screen that waits for the leave transition to finish.
#[derive(Debug)]
pub struct PendingNavigation {
    pub target: AppComponent,
    /// Whether the screen left is to be remembered as the way back.
    pub remember: bool,
}

/// The state machine that holds the one active screen and changes it.
///
/// Going to a screen constructs it anew, with the configuration at hand,
/// and starts it; the screen left is remembered as the way back. Going back
/// leads to the remembered screen, else to the home screen, and remembers
/// nothing. Where transitions are deferred, a change of screen is buffered
/// until the leave transition has finished; the screen on show goes on
/// handling commands meanwhile.
#[derive(Debug)]
pub struct NavigatorComponent {
    pub current_component: AppComponent,
    pub previous_component: Option<AppComponent>,
    pub component: Screen,
    pub effect_runner: EffectRunner,
    pub transitioning: Option<PendingNavigation>,
    pub config: Config,
    /// Whether a change of screen waits for the leave transition.
    pub deferred: bool,
}

impl NavigatorComponent {
    /// Whether nothing is configured yet: no key is bound and no directory known.
    pub open spec fn unconfigured(self) -> bool {
        &&& self.config.keybindings@.len() == 0
        &&& self.config.config.data_dir@.len() == 0
        &&& self.config.config.config_dir@.len() == 0
        &&& self.config.config.working_dir@.len() == 0
        &&& !self.config.config.clipboard_available
    }

    /// A navigator on the home screen: the home screen as it is made, with
    /// no way back, no change of screen buffered or deferred, no transition
    /// playing, and nothing configured.
    pub fn new() -> (r: Self)
        ensures
            r.current_component == AppComponent::HomeScreen,
            r.previous_component is None,
            r.transitioning is None,
            !r.deferred,
            !r.effect_runner.running(),
            r.unconfigured(),
            r.component.is_new_home(),
            Screen::constructed(AppComponent::HomeScreen, r.component),
    {
        Self::new_with_starting_component(AppComponent::HomeScreen)
    }

    /// A navigator on the screen constructed for `app_component`. The
    /// screen is configured and started by [`NavigatorComponent::init`].
    pub fn new_with_starting_component(app_component: AppComponent) -> (r: Self)
        ensures
            r.current_component == app_component,
            r.previous_component is None,
            r.transitioning is None,
            !r.deferred,
            !r.effect_runner.running(),
            r.unconfigured(),
            identity_of(app_component) is HomeScreen ==> r.component.is_new_home(),
            Screen::constructed(app_component, r.component),
    {
        let comp = Self::map_component(&app_component);
        NavigatorComponent {
            component: comp,
            current_component: app_component,
            previous_component: None,
            config: Config::default(),
            effect_runner: EffectRunner::new(),
            transitioning: None,
            deferred: false,
        }
    }

    /// Constructs the screen for a target: an editor for the two editor
    /// targets, the home screen for every other.
    fn map_component(app_component: &AppComponent) -> (r: Screen)
        ensures
            identity_of(*app_component) is HomeScreen ==> r.is_new_home(),
            identity_of(*app_component) is Editor ==> r is Editor,
            Screen::constructed(*app_component, r),
    {
        match app_component {
            AppComponent::OpenedEditor(path) => Screen::Editor(EditorComponent::new(path.as_str())),
            AppComponent::Editor => Screen::Editor(EditorComponent::empty()),
            _ => Screen::Home(HomeComponent::new()),
        }
    }

    /// Says whether changes of screen wait for the leave transition.
    pub fn set_deferred(&mut self, deferred: bool)
        ensures
            *final(self) == (NavigatorComponent { deferred, ..*old(self) }),
    {
        self.deferred = deferred;
    }

    /// Whether this navigator has changed from `before` to the screen for
    /// `target`, which it keeps as asked for, remembering the screen left
    /// where `remember` says so.
    pub open spec fn switched(
        self,
        before: NavigatorComponent,
        target: AppComponent,
        remember: bool,
        out_before: Outbox,
        out_after: Outbox,
    ) -> bool {
        &&& self.current_component == target
        &&& self.previous_component == if remember {
            Some(before.current_component)
        } else {
            before.previous_component
        }
        &&& Screen::opened(target, before.config, self.component, out_before, out_after)
        &&& self.config == before.config
        &&& self.effect_runner == before.effect_runner
        &&& self.transitioning == before.transitioning
        &&& self.deferred == before.deferred
    }

    /// Whether this navigator has begun, from `before`, to leave its screen for `target`.
    pub open spec fn leaving(
        self,
        before: NavigatorComponent,
        target: AppComponent,
        remember: bool,
        out_before: Outbox,
        out_after: Outbox,
    ) -> bool {
        &&& self.transitioning == Some(PendingNavigation { target, remember })
        &&& self.effect_runner.running()
        &&& self.current_component == before.current_component
        &&& self.previous_component == before.previous_component
        &&& self.component == before.component
        &&& self.config == before.config
        &&& self.deferred == before.deferred
        &&& out_after.extends(
            out_before,
            seq![],
            seq![AsyncAction::StartAnimation],
            seq![Request::PlayTransition(Transition::LeaveScreen)],
        )
    }

    /// Whether this navigator has gone, from `before`, towards `target`: at
    /// once, or by beginning to leave where transitions are deferred.
    pub open spec fn gone(
        self,
        before: NavigatorComponent,
        target: AppComponent,
        remember: bool,
        out_before: Outbox,
        out_after: Outbox,
    ) -> bool {
        if before.deferred {
            self.leaving(before, target, remember, out_before, out_after)
        } else {
            self.switched(before, target, remember, out_before, out_after)
        }
    }

    fn switch_to(&mut self, target: AppComponent, remember: bool, out: &mut Outbox)
        ensures
            crate::runtime::at_most_animated(*old(out), *final(out)),
            final(self).switched(*old(self), target, remember, *old(out), *final(out)),
    {
        if remember {
            self.previous_component = Some(self.current_component.clone());
        }
        let comp = Self::map_component(&target);
        self.component = comp;
        self.component.open(Ghost(target), &self.config, out);
        self.current_component = target;
    }

    fn go(&mut self, target: AppComponent, remember: bool, out: &mut Outbox)
        ensures
            crate::runtime::at_most_animated(*old(out), *final(out)),
            final(self).gone(*old(self), target, remember, *old(out), *final(out)),
    {
        if self.deferred {
            self.effect_runner.add_effect(Transition::LeaveScreen, out);
            self.transitioning = Some(PendingNavigation { target, remember });
        } else {
            self.switch_to(target, remember, out);
        }
    }

    /// What going to a screen does: nothing where it is the screen on show;
    /// else the navigator goes there and remembers the screen left.
    pub open spec fn navigated(
        self,
        target: AppComponent,
        after: NavigatorComponent,
        out_before: Outbox,
        out_after: Outbox,
    ) -> bool {
        if self.current_component.same(target) {
            after == self && out_after == out_before
        } else {
            after.gone(self, target, true, out_before, out_after)
        }
    }

    pub fn navigate(&mut self, app_component: AppComponent, out: &mut Outbox)
        ensures
            crate::runtime::at_most_animated(*old(out), *final(out)),
            old(self).navigated(app_component, *final(self), *old(out), *final(out)),
    {
        if self.current_component != app_component {
            self.go(app_component, true, out);
        }
    }

    /// Where the way back leads: to the remembered screen, else to the home
    /// screen unless that is the screen on show.
    pub open spec fn way_back(self) -> Option<AppComponent> {
        match self.previous_component {
            Some(previous) => Some(previous),
            None => if self.current_component.same(AppComponent::HomeScreen) {
                None
            } else {
                Some(AppComponent::HomeScreen)
            },
        }
    }

    /// What going back does: the navigator goes where the way back leads
    /// and remembers nothing; where it leads nowhere, nothing changes.
    pub open spec fn returned(
        self,
        after: NavigatorComponent,
        went: bool,
        out_before: Outbox,
        out_after: Outbox,
    ) -> bool {
        match self.way_back() {
            Some(target) => went && after.gone(
                NavigatorComponent { previous_component: None, ..self },
                target,
                false,
                out_before,
                out_after,
            ),
            None => !went && after == self && out_after == out_before,
        }
    }

    pub fn return_last_component(&mut self, out: &mut Outbox) -> (went: bool)
        ensures
            crate::runtime::at_most_animated(*old(out), *final(out)),
            old(self).returned(*final(self), went, *old(out), *final(out)),
    {
        if let Some(previous_component) = self.previous_component.take() {
            self.go(previous_component, false, out);
            true
        } else if self.current_component != AppComponent::HomeScreen {
            self.go(AppComponent::HomeScreen, false, out);
            true
        } else {
            false
        }
    }

    /// What the end of the leave transition does: the buffered change of
    /// screen takes place, and the enter transition starts.
    pub open spec fn entered(
        self,
        after: NavigatorComponent,
        out_before: Outbox,
        out_after: Outbox,
    ) -> bool {
        match self.transitioning {
            None => after == self && out_after == out_before,
            Some(pending) => exists|out_mid: Outbox, mid: NavigatorComponent|
                {
                    &&& #[trigger] mid.effect_runner.running()
                    &&& #[trigger] out_mid.extends(
                        out_before,
                        seq![],
                        seq![AsyncAction::StartAnimation],
                        seq![Request::PlayTransition(Transition::EnterScreen)],
                    )
                    &&& mid == (NavigatorComponent {
                        transitioning: None,
                        effect_runner: mid.effect_runner,
                        ..self
                    })
                    &&& after.switched(mid, pending.target, pending.remember, out_mid, out_after)
                },
        }
    }

    fn start_enter_screen_transition(&mut self, out: &mut Outbox)
        ensures
            old(self).entered(*final(self), *old(out), *final(out)),
    {
        let pending = match self.transitioning.take() {
            None => {
                return ;
            },
            Some(pending) => pending,
        };
        self.effect_runner.add_effect(Transition::EnterScreen, out);
        let ghost mid = *self;
        let ghost out_mid = *out;
        self.switch_to(pending.target, pending.remember, out);
    }

    /// Takes note of a frame drawn, `still_playing` saying whether the
    /// navigator's transitions have frames left. When a transition has just
    /// finished, a buffered change of screen takes place.
    pub fn effects_processed(&mut self, still_playing: bool, out: &mut Outbox) -> (just_finished:
        bool)
        ensures
            just_finished == (old(self).effect_runner.running() && !still_playing),
            !just_finished ==> *final(self) == (NavigatorComponent {
                effect_runner: final(self).effect_runner,
                ..*old(self)
            }) && final(self).effect_runner.running() == old(self).effect_runner.running()
                && final(out).same_as(*old(out)),
            just_finished ==> exists|stopped: NavigatorComponent, out_mid: Outbox|
                {
                    &&& #[trigger] stopped.entered(*final(self), out_mid, *final(out))
                    &&& !stopped.effect_runner.running()
                    &&& stopped == (NavigatorComponent {
                        effect_runner: stopped.effect_runner,
                        ..*old(self)
                    })
                    &&& out_mid.extends(*old(out), seq![], seq![AsyncAction::StopAnimation], seq![])
                },
    {
        let just_finished = self.effect_runner.process(still_playing, out);
        if just_finished {
            let ghost stopped = *self;
            let ghost out_mid = *out;
            self.start_enter_screen_transition(out);
            assert(stopped.entered(*self, out_mid, *out));
        }
        just_finished
    }

    /// Whether `after` is this navigator with the configuration taken, by
    /// itself and by the screen on show.
    pub open spec fn registered(self, config: Config, after: NavigatorComponent) -> bool {
        &&& after.config.config == config.config
        &&& after.config.keybindings@ == config.keybindings@
        &&& after.current_component == self.current_component
        &&& after.previous_component == self.previous_component
        &&& after.transitioning == self.transitioning
        &&& after.deferred == self.deferred
        &&& after.effect_runner == self.effect_runner
        &&& self.component.registered(config, after.component)
    }

    /// Takes the configuration, for itself and for the screen on show.
    pub fn register_config(&mut self, config: &Config)
        ensures
            old(self).registered(*config, *final(self)),
    {
        self.config = config.clone();
        match &mut self.component {
            Screen::Home(h) => h.register_config(config),
            Screen::Editor(e) => e.register_config(config),
        }
    }

    /// Starts the navigator: the opening transition plays, and the screen
    /// on show starts.
    pub fn init(&mut self, out: &mut Outbox)
        ensures
            final(self).effect_runner.running(),
            final(self).current_component == old(self).current_component,
            final(self).previous_component == old(self).previous_component,
            final(self).transitioning == old(self).transitioning,
            final(self).deferred == old(self).deferred,
            final(self).config == old(self).config,
            match (old(self).component, final(self).component) {
                (Screen::Editor(e), Screen::Editor(e2)) => e2 == (EditorComponent {
                    loading: e.loading || e.buffer.file_path is Some,
                    ..e
                }) && final(out).extends(
                    *old(out),
                    seq![],
                    seq![AsyncAction::StartAnimation],
                    seq![Request::PlayTransition(Transition::Init)] + e.load_requests(),
                ),
                (Screen::Home(h), Screen::Home(h2)) => h2 == h && final(out).extends(
                    *old(out),
                    seq![],
                    seq![AsyncAction::StartAnimation],
                    seq![Request::PlayTransition(Transition::Init)],
                ),
                _ => false,
            },
    {
        self.effect_runner.add_effect(Transition::Init, out);
        match &mut self.component {
            Screen::Home(_) => {},
            Screen::Editor(e) => e.init(out),
        }
    }

    /// Ends the navigator: the way back is forgotten.
    pub fn exit(&mut self)
        ensures
            *final(self) == (NavigatorComponent { previous_component: None, ..*old(self) }),
    {
        self.previous_component = None;
    }

    /// The screen whose key bindings are in force.
    pub fn override_keybind_id(&self) -> (r: Option<AppComponent>)
        ensures
            r == Some(self.component.keybind_id()),
    {
        self.component.override_keybind_id()
    }

    /// Whether nothing but the screen on show differs from `before`.
    pub open spec fn same_route(self, before: NavigatorComponent) -> bool {
        &&& self.current_component == before.current_component
        &&& self.previous_component == before.previous_component
        &&& self.effect_runner == before.effect_runner
        &&& self.transitioning == before.transitioning
        &&& self.config == before.config
        &&& self.deferred == before.deferred
    }

    /// What a command does to the navigator: it goes to the screen on show.
    pub open spec fn handled(
        self,
        action: Action,
        after: NavigatorComponent,
        r: ActionResult,
        out_before: Outbox,
        out_after: Outbox,
    ) -> bool {
        &&& after.same_route(self)
        &&& self.component.handled(action, after.component, r, out_before, out_after)
    }

    /// What the outcome of a request does to the navigator: it goes to the
    /// screen on show.
    pub open spec fn completed(
        self,
        completion: Completion,
        after: NavigatorComponent,
        r: ActionResult,
        out_before: Outbox,
        out_after: Outbox,
    ) -> bool {
        &&& after.same_route(self)
        &&& self.component.completed(completion, after.component, r, out_before, out_after)
    }

    /// Hands a command to the screen on show.
    pub fn handle_action(&mut self, action: &Action, out: &mut Outbox) -> (r: ActionResult)
        ensures
            final(self).same_route(*old(self)),
            old(self).component.handled(*action, final(self).component, r, *old(out), *final(out)),
            pending(final(out).actions@) + final(self).component.potential() <= pending(
                old(out).actions@,
            ) + old(self).component.potential(),
    {
        self.component.handle_action(action, out)
    }

    /// What a result does to the navigator.
    ///
    /// - `Navigate` to a screen goes there, and is consumed with a redraw.
    /// - `Navigate` back goes back, and is consumed with a redraw; where
    ///   there is no way back, `Quit` is issued instead and the result is
    ///   not consumed.
    /// - Every other result goes to the screen on show.
    pub open spec fn async_handled(
        self,
        action: AsyncAction,
        after: NavigatorComponent,
        r: ActionResult,
        out_before: Outbox,
        out_after: Outbox,
    ) -> bool {
        match action {
            AsyncAction::Navigate(Some(target)) => {
                &&& self.navigated(target, after, out_before, out_after)
                &&& r == (ActionResult::Consumed { rerender: true })
            },
            AsyncAction::Navigate(None) => match self.way_back() {
                Some(_) => {
                    &&& self.returned(after, true, out_before, out_after)
                    &&& r == (ActionResult::Consumed { rerender: true })
                },
                None => {
                    &&& after == self
                    &&& out_after.extends(out_before, seq![Action::Quit], seq![], seq![])
                    &&& r == (ActionResult::NotConsumed { rerender: false })
                },
            },
            _ => {
                &&& after.same_route(self)
                &&& self.component.async_handled(action, after.component, r, out_before, out_after)
            },
        }
    }

    pub fn handle_async_action(&mut self, action: &AsyncAction, out: &mut Outbox) -> (r:
        ActionResult)
        ensures
            crate::runtime::load(final(out).async_actions@) < crate::runtime::load(
                old(out).async_actions@,
            ) + crate::runtime::weight(*action),
            old(self).async_handled(*action, *final(self), r, *old(out), *final(out)),
    {
        proof {
            crate::runtime::lemma_load_push(out.async_actions@, AsyncAction::StartAnimation);
        }
        if let AsyncAction::Navigate(comp) = action {
            if let Some(component) = comp {
                self.navigate(component.clone(), out);
            } else if !self.return_last_component(out) {
                out.send_action(Action::Quit);
                return ActionResult::not_consumed(false);
            }
            return ActionResult::consumed(true);
        }
        self.component.handle_async_action(action, out)
    }

    /// Hands the outcome of a request to the screen on show.
    pub fn handle_completion(&mut self, completion: &Completion, out: &mut Outbox) -> (r:
        ActionResult)
        ensures
            final(self).same_route(*old(self)),
            old(self).component.completed(
                *completion,
                final(self).component,
                r,
                *old(out),
                *final(out),
            ),
    {
        self.component.handle_completion(completion, out)
    }

    /// What starting does: the navigator and its screen take the
    /// configuration, the opening transition plays, and the screen starts.
    /// An editor on a file asks for the file and counts as loading.
    pub open spec fn begun(
        self,
        config: Config,
        after: NavigatorComponent,
        out_before: Outbox,
        out_after: Outbox,
    ) -> bool {
        &&& after.config.config == config.config
        &&& after.config.keybindings@ == config.keybindings@
        &&& after.current_component == self.current_component
        &&& after.previous_component == self.previous_component
        &&& after.transitioning == self.transitioning
        &&& after.deferred == self.deferred
        &&& after.effect_runner.running()
        &&& match (self.component, after.component) {
            (Screen::Editor(e), Screen::Editor(e2)) => exists|mid: EditorComponent|
                {
                    &&& #[trigger] e.registered(config, mid)
                    &&& e2 == (EditorComponent {
                        loading: mid.loading || mid.buffer.file_path is Some,
                        ..mid
                    })
                    &&& out_after.extends(
                        out_before,
                        seq![],
                        seq![AsyncAction::StartAnimation],
                        seq![Request::PlayTransition(Transition::Init)] + mid.load_requests(),
                    )
                },
            (Screen::Home(h), Screen::Home(h2)) => {
                &&& h.registered(config, h2)
                &&& out_after.extends(
                    out_before,
                    seq![],
                    seq![AsyncAction::StartAnimation],
                    seq![Request::PlayTransition(Transition::Init)],
                )
            },
            _ => false,
        }
    }

    /// Starts the navigator with a configuration.
    pub fn start(&mut self, config: &Config, out: &mut Outbox)
        ensures
            old(self).begun(*config, *final(self), *old(out), *final(out)),
    {
        self.register_config(config);
        let ghost mid = *self;
        self.init(out);
        proof {
            match (old(self).component, mid.component) {
                (Screen::Editor(e), Screen::Editor(m)) => {
                    assert(e.registered(*config, m));
                },
                _ => {},
            }
        }
    }
}

} // verus!
