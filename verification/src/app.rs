use vstd::prelude::*;

use crate::action::{Action, ActionResult, AsyncAction};
use crate::component::AppComponent;
use crate::config::Config;
use crate::keybindings::{KeyCode, KeyEvent};
use crate::navigator::{NavigatorComponent, Screen};
use crate::runtime::{
    lemma_load_skip, lemma_pending_skip, load, pending, Completion, Outbox, Request,
};

verus! {

/// A click or a move of the mouse, at a cell of the terminal.
#[derive(Clone, Copy, Debug, PartialEq, Eq, Structural)]
pub struct MouseEvent {
    pub column: u16,
    pub row: u16,
}

/// What the terminal layer reports, in the order in which it happened.
#[derive(Debug)]
pub enum Event {
    Init,
    Quit,
    Tick,
    Render,
    Mouse(MouseEvent),
    Key(KeyEvent),
    Paste(String),
    Error(String),
    Resize(u16, u16),
}

/// The application: the navigator with its screen, the queues of commands
/// and results, and the two flags that end the loop and ask for a frame.
///
/// One round of the loop takes one event, then handles the queued commands
/// until none is left, then the queued results likewise. A frame is drawn
/// on a `Render` event, and only where the redraw flag is set.
#[derive(Debug)]
pub struct App {
    pub config: Config,
    pub should_quit: bool,
    pub should_rerender: bool,
    pub component: NavigatorComponent,
    /// The commands and results that wait to be handled, and the requests
    /// that wait to be performed.
    pub queue: Outbox,
}

impl App {
    /// An application on the home screen.
    pub fn new(config: Config) -> (r: Self)
        ensures
            r.config == config,
            !r.should_quit,
            r.should_rerender,
            r.component.current_component == AppComponent::HomeScreen,
            r.component.previous_component is None,
            Screen::constructed(AppComponent::HomeScreen, r.component.component),
            r.queue.actions@.len() == 0,
            r.queue.async_actions@.len() == 0,
            r.queue.requests@.len() == 0,
    {
        Self::create(NavigatorComponent::new(), config)
    }

    /// An application that opens the file in the editor, or starts on the
    /// home screen where no file is given.
    pub fn new_in_editor(file_path: Option<String>, config: Config) -> (r: Self)
        ensures
            r.config == config,
            !r.should_quit,
            r.should_rerender,
            r.component.previous_component is None,
            r.queue.actions@.len() == 0,
            r.queue.async_actions@.len() == 0,
            r.queue.requests@.len() == 0,
            match file_path {
                Some(path) => {
                    &&& r.component.current_component == AppComponent::OpenedEditor(path)
                    &&& Screen::constructed(
                        AppComponent::OpenedEditor(path),
                        r.component.component,
                    )
                },
                None => {
                    &&& r.component.current_component == AppComponent::HomeScreen
                    &&& Screen::constructed(AppComponent::HomeScreen, r.component.component)
                },
            },
    {
        let file_path = match file_path {
            None => {
                return Self::new(config);
            },
            Some(file_path) => file_path,
        };
        let editor = AppComponent::OpenedEditor(file_path);
        let comp = NavigatorComponent::new_with_starting_component(editor);
        Self::create(comp, config)
    }

    fn create(component: NavigatorComponent, config: Config) -> (r: Self)
        ensures
            r.config == config,
            !r.should_quit,
            r.should_rerender,
            r.component == component,
            r.queue.actions@.len() == 0,
            r.queue.async_actions@.len() == 0,
            r.queue.requests@.len() == 0,
    {
        App {
            config,
            should_quit: false,
            component,
            should_rerender: true,
            queue: Outbox::new(),
        }
    }

    /// Starts the application: the screen takes the configuration and
    /// starts. An editor on a file asks for the file and counts as loading.
    pub fn start(&mut self)
        ensures
            final(self).config == old(self).config,
            final(self).should_quit == old(self).should_quit,
            final(self).should_rerender == old(self).should_rerender,
            old(self).component.begun(
                old(self).config,
                final(self).component,
                old(self).queue,
                final(self).queue,
            ),
    {
        self.component.start(&self.config, &mut self.queue);
    }

    /// Sets the redraw flag where an answer asks for a redraw.
    fn flag_for_rerender_if_asked(&mut self, action_result: ActionResult)
        ensures
            *final(self) == (App {
                should_rerender: old(self).should_rerender || action_result.rerender(),
                ..*old(self)
            }),
    {
        if !self.should_rerender && action_result.should_rerender() {
            self.should_rerender = true;
        }
    }

    /// The command that a key press stands for: the command bound to the
    /// key on the screen whose bindings are in force; else, for a character
    /// key, the typing of the character; else none.
    pub open spec fn command_of(self, key: KeyEvent) -> Option<Action> {
        match self.config.keybindings.action_of(self.component.component.keybind_id(), key) {
            Some(action) => Some(action),
            None => match key.code {
                KeyCode::Char(c) => Some(Action::Character(c)),
                _ => None,
            },
        }
    }

    /// Queues the command that a key press stands for.
    pub fn handle_key_event(&mut self, key_event: KeyEvent)
        ensures
            *final(self) == (App { queue: final(self).queue, ..*old(self) }),
            final(self).queue.extends(
                old(self).queue,
                match old(self).command_of(key_event) {
                    Some(action) => seq![action],
                    None => seq![],
                },
                seq![],
                seq![],
            ),
    {
        let comp = match self.component.override_keybind_id() {
            Some(comp) => comp,
            None => self.component.current_component.clone(),
        };
        let action = match self.config.keybindings.get_action(&comp, key_event) {
            Some(action) => action,
            None => match key_event.code.as_char() {
                Some(c) => Action::Character(c),
                None => {
                    return ;
                },
            },
        };
        self.queue.send_action(action);
    }

    /// What an event queues: a tick and a paste queue their commands, a key
    /// press the command it stands for, a resize its command, and an error
    /// of the terminal its result.
    pub open spec fn queued_by(self, event: Event) -> (Seq<Action>, Seq<AsyncAction>) {
        match event {
            Event::Tick => (seq![Action::Tick], seq![]),
            Event::Paste(text) => (seq![Action::PasteText(text)], seq![]),
            Event::Resize(width, height) => (seq![Action::Resize(width, height)], seq![]),
            Event::Key(key) => (
                match self.command_of(key) {
                    Some(action) => seq![action],
                    None => seq![],
                },
                seq![],
            ),
            Event::Error(message) => (seq![], seq![AsyncAction::Error(message)]),
            _ => (seq![], seq![]),
        }
    }

    /// Takes one event. The answer says whether a frame is to be drawn now:
    /// on a `Render` event while the redraw flag is set, which it clears.
    pub fn handle_event(&mut self, event: Event) -> (draw: bool)
        ensures
            draw == (event is Render && old(self).should_rerender),
            final(self).should_quit == (old(self).should_quit || event is Quit),
            final(self).should_rerender == match event {
                Event::Render => false,
                Event::Resize(_, _) => true,
                _ => old(self).should_rerender,
            },
            final(self).config == old(self).config,
            final(self).component == old(self).component,
            final(self).queue.extends(
                old(self).queue,
                old(self).queued_by(event).0,
                old(self).queued_by(event).1,
                seq![],
            ),
    {
        match event {
            Event::Quit => {
                self.should_quit = true;
                false
            },
            Event::Tick => {
                self.queue.send_action(Action::Tick);
                false
            },
            Event::Render => {
                let draw = self.should_rerender;
                self.should_rerender = false;
                draw
            },
            Event::Resize(width, height) => {
                self.should_rerender = true;
                self.queue.send_action(Action::Resize(width, height));
                false
            },
            Event::Mouse(mouse_event) => {
                let result = self.handle_mouse_event(mouse_event);
                self.flag_for_rerender_if_asked(result);
                false
            },
            Event::Key(key) => {
                self.handle_key_event(key);
                false
            },
            Event::Paste(text) => {
                self.queue.send_action(Action::PasteText(text));
                false
            },
            Event::Error(message) => {
                self.queue.send_async(AsyncAction::Error(message));
                false
            },
            Event::Init => false,
        }
    }

    /// No screen handles the mouse: the event is not consumed.
    pub fn handle_mouse_event(&mut self, mouse_event: MouseEvent) -> (r: ActionResult)
        ensures
            *final(self) == *old(self),
            r == (ActionResult::NotConsumed { rerender: false }),
    {
        ActionResult::default()
    }

    /// What handling the first queued command does. `Quit` sets the quit
    /// flag and ends the round: the answer is `false`, as it is where no
    /// command is queued. Every other command goes to the screen on show,
    /// and the redraw flag is set where the screen asks for a redraw.
    pub open spec fn action_handled(self, after: App, more: bool) -> bool {
        if self.queue.actions@.len() == 0 {
            !more && after == self
        } else {
            let action = self.queue.actions@[0];
            &&& after.config == self.config
            &&& more == !(action is Quit)
            &&& exists|rest: Outbox|
                {
                    &&& #[trigger] rest.actions@ == self.queue.actions@.skip(1)
                    &&& rest.async_actions@ == self.queue.async_actions@
                    &&& rest.requests@ == self.queue.requests@
                    &&& if action is Quit {
                        &&& after.should_quit
                        &&& after.should_rerender == self.should_rerender
                        &&& after.component == self.component
                        &&& after.queue == rest
                    } else {
                        exists|r: ActionResult|
                            {
                                &&& after.should_quit == self.should_quit
                                &&& after.should_rerender == (self.should_rerender
                                    || r.rerender())
                                &&& after.component.same_route(self.component)
                                &&& #[trigger] self.component.component.handled(
                                    action,
                                    after.component.component,
                                    r,
                                    rest,
                                    after.queue,
                                )
                            }
                    }
                }
        }
    }

    /// How much is left to do in a round of commands: the queued commands
    /// that are still to be handled, and those that the screen may yet issue.
    pub open spec fn backlog(self) -> nat {
        pending(self.queue.actions@) + self.component.component.potential()
    }

    /// Handles the first queued command, if there is one. The answer says
    /// whether the round goes on; where it does, less is left to do.
    pub fn handle_next_action(&mut self) -> (more: bool)
        ensures
            old(self).action_handled(*final(self), more),
            more ==> final(self).backlog() < old(self).backlog(),
    {
        if self.queue.actions.len() == 0 {
            return false;
        }
        proof {
            lemma_pending_skip(self.queue.actions@);
        }
        let action = self.queue.actions.remove(0);
        let ghost rest = self.queue;
        assert(rest.actions@ =~= old(self).queue.actions@.skip(1));
        match action {
            Action::Quit => {
                self.should_quit = true;
                false
            },
            _ => {
                let res = self.component.handle_action(&action, &mut self.queue);
                self.flag_for_rerender_if_asked(res);
                assert(old(self).component.component.handled(
                    action,
                    self.component.component,
                    res,
                    rest,
                    self.queue,
                ));
                true
            },
        }
    }

    /// Whether `after` is reached from this application by handling queued
    /// commands, one after the other, `steps` times.
    pub open spec fn actions_handled(self, after: App, steps: nat) -> bool
        decreases steps,
    {
        if steps == 0 {
            after == self
        } else {
            exists|mid: App|
                {
                    &&& self.actions_handled(mid, (steps - 1) as nat)
                    &&& #[trigger] mid.action_handled(after, true)
                    &&& mid.queue.requests@.len() == 0
                }
        }
    }

    /// Handles the queued commands, in their order, those included that
    /// are issued meanwhile, until none is left, or `Quit` was met, or
    /// outside work is asked for, which has to be performed first.
    pub fn handle_actions(&mut self)
        ensures
            exists|steps: nat, last: App|
                {
                    &&& #[trigger] old(self).actions_handled(last, steps)
                    &&& if final(self).queue.requests@.len() > 0 {
                        last == *final(self)
                    } else {
                        last.action_handled(*final(self), false)
                    }
                },
    {
        let ghost mut steps: nat = 0;
        while self.queue.requests.len() == 0
            invariant
                old(self).actions_handled(*self, steps),
            ensures
                old(self).actions_handled(*self, steps),
                self.queue.requests@.len() > 0,
            decreases self.backlog(),
        {
            let ghost before = *self;
            let more = self.handle_next_action();
            if !more {
                assert(old(self).actions_handled(before, steps));
                return ;
            }
            proof {
                assert(before.action_handled(*self, true));
                steps = steps + 1;
            }
        }
        assert(old(self).actions_handled(*self, steps));
    }

    /// What handling the first queued result does: it goes to the
    /// navigator, and the redraw flag is set where a redraw is asked for.
    pub open spec fn async_action_handled(self, after: App, more: bool) -> bool {
        if self.queue.async_actions@.len() == 0 {
            !more && after == self
        } else {
            let action = self.queue.async_actions@[0];
            &&& more
            &&& after.config == self.config
            &&& after.should_quit == self.should_quit
            &&& exists|rest: Outbox, r: ActionResult|
                {
                    &&& rest.actions@ == self.queue.actions@
                    &&& rest.async_actions@ == self.queue.async_actions@.skip(1)
                    &&& rest.requests@ == self.queue.requests@
                    &&& after.should_rerender == (self.should_rerender || r.rerender())
                    &&& #[trigger] self.component.async_handled(
                        action,
                        after.component,
                        r,
                        rest,
                        after.queue,
                    )
                }
        }
    }

    /// The weight of the results that wait to be handled.
    pub open spec fn async_backlog(self) -> nat {
        load(self.queue.async_actions@)
    }

    /// Handles the first queued result, if there is one. The answer says
    /// whether there was one; where there was, the results that wait weigh less.
    pub fn handle_next_async_action(&mut self) -> (more: bool)
        ensures
            old(self).async_action_handled(*final(self), more),
            more ==> final(self).async_backlog() < old(self).async_backlog(),
    {
        if self.queue.async_actions.len() == 0 {
            return false;
        }
        proof {
            lemma_load_skip(self.queue.async_actions@);
        }
        let action = self.queue.async_actions.remove(0);
        let ghost rest = self.queue;
        assert(rest.async_actions@ =~= old(self).queue.async_actions@.skip(1));
        let res = self.component.handle_async_action(&action, &mut self.queue);
        self.flag_for_rerender_if_asked(res);
        assert(old(self).component.async_handled(action, self.component, res, rest, self.queue));
        true
    }

    /// Whether `after` is reached from this application by handling queued
    /// results, one after the other, `steps` times.
    pub open spec fn async_actions_handled(self, after: App, steps: nat) -> bool
        decreases steps,
    {
        if steps == 0 {
            after == self
        } else {
            exists|mid: App|
                {
                    &&& self.async_actions_handled(mid, (steps - 1) as nat)
                    &&& #[trigger] mid.async_action_handled(after, true)
                    &&& mid.queue.requests@.len() == 0
                }
        }
    }

    /// Handles the queued results, in their order, those included that
    /// are announced meanwhile, until none is left, or outside work is asked
    /// for, which has to be performed first.
    pub fn handle_async_actions(&mut self)
        ensures
            exists|steps: nat|
                {
                    &&& #[trigger] old(self).async_actions_handled(*final(self), steps)
                    &&& final(self).queue.requests@.len() > 0 || final(self).queue.async_actions@.len() == 0
                },
    {
        let ghost mut steps: nat = 0;
        while self.queue.requests.len() == 0 && self.queue.async_actions.len() > 0
            invariant
                old(self).async_actions_handled(*self, steps),
            decreases self.async_backlog(),
        {
            let ghost before = *self;
            let more = self.handle_next_async_action();
            proof {
                assert(before.async_action_handled(*self, true));
                steps = steps + 1;
            }
        }
        assert(old(self).async_actions_handled(*self, steps));
    }

    /// Hands the outcome of a request to the screen on show, and sets the
    /// redraw flag where a redraw is asked for.
    pub fn handle_completion(&mut self, completion: &Completion)
        ensures
            final(self).config == old(self).config,
            final(self).should_quit == old(self).should_quit,
            final(self).component.same_route(old(self).component),
            exists|r: ActionResult|
                {
                    &&& final(self).should_rerender == (old(self).should_rerender || r.rerender())
                    &&& #[trigger] old(self).component.component.completed(
                        *completion,
                        final(self).component.component,
                        r,
                        old(self).queue,
                        final(self).queue,
                    )
                },
    {
        let res = self.component.handle_completion(completion, &mut self.queue);
        self.flag_for_rerender_if_asked(res);
        assert(old(self).component.component.completed(
            *completion,
            self.component.component,
            res,
            old(self).queue,
            self.queue,
        ));
    }

    /// Hands out the requests that wait to be performed, in their order.
    pub fn take_requests(&mut self) -> (r: Vec<Request>)
        ensures
            r@ == old(self).queue.requests@,
            final(self).queue.requests@.len() == 0,
            final(self).queue.actions == old(self).queue.actions,
            final(self).queue.async_actions == old(self).queue.async_actions,
            final(self).config == old(self).config,
            final(self).should_quit == old(self).should_quit,
            final(self).should_rerender == old(self).should_rerender,
            final(self).component == old(self).component,
    {
        let mut taken: Vec<Request> = Vec::new();
        std::mem::swap(&mut taken, &mut self.queue.requests);
        taken
    }

    /// Hands a result in, to be handled when its turn comes.
    pub fn push_async_action(&mut self, action: AsyncAction)
        ensures
            *final(self) == (App { queue: final(self).queue, ..*old(self) }),
            final(self).queue.extends(old(self).queue, seq![], seq![action], seq![]),
    {
        self.queue.send_async(action);
    }
}

} // verus!
