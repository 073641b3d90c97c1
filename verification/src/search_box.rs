use vstd::prelude::*;

use crate::action::{Action, ActionResult, AsyncAction};
use crate::runtime::{EffectRunner, Outbox, Request, Transition};
use crate::text::{
    after_backspace, after_delete, after_insert_char, area_frame, area_hint, area_hint_dim,
    compiles, escape_pattern, escaped, match_back, match_forward, CursorStep, TextInput,
    TextState,
};

verus! {

/// The first line of a text, or the empty line where it has none.
pub open spec fn first_line(state: TextState) -> Seq<char> {
    if state.lines.len() > 0 {
        state.lines[0]
    } else {
        Seq::<char>::empty()
    }
}

/// The text after a plain move: a selection in progress is cancelled, then
/// the cursor takes the step.
pub open spec fn plainly_moved(state: TextState, step: CursorStep) -> TextState {
    state.with_selection(None).stepped(step)
}

/// The text after a selecting move: a selection starts at the cursor unless
/// one is in progress, then the cursor takes the step.
pub open spec fn select_moved(state: TextState, step: CursorStep) -> TextState {
    if state.selecting() {
        state.stepped(step)
    } else {
        state.with_selection(Some(state.cursor)).stepped(step)
    }
}

/// What a command does to the text of the search box.
pub open spec fn typed(state: TextState, action: Action) -> TextState {
    match action {
        Action::SelectRight => select_moved(state, CursorStep::Forward),
        Action::SelectLeft => select_moved(state, CursorStep::Back),
        Action::Left => plainly_moved(state, CursorStep::Back),
        Action::Right => plainly_moved(state, CursorStep::Forward),
        Action::EndOfWord => state.stepped(CursorStep::WordEnd),
        Action::StartOfWord => state.stepped(CursorStep::WordBack),
        Action::Character(c) => after_insert_char(state, c),
        Action::Delete => after_delete(state),
        Action::Backspace => after_backspace(state),
        _ => state,
    }
}

/// Whether a command closes the search box.
pub open spec fn closes(action: Action) -> bool {
    action is Search || action is Cancel
}

/// Whether the searched text has to be searched anew after a command.
pub open spec fn renews_search(action: Action) -> bool {
    action is Character || action is Delete || action is Backspace || action is Search
        || action is ToggleSearchRegex || action is Cancel
}

/// Whether a query is accepted as a search pattern.
pub open spec fn accepts(query: Seq<char>) -> bool {
    query.len() == 0 || compiles(query)
}

/// The searched text once a query has been handed to it: an accepted query
/// becomes its pattern (the empty one clears it), a refused one changes nothing.
pub open spec fn searching(area: TextState, query: Seq<char>) -> TextState {
    TextState {
        pattern: if !accepts(query) {
            area.pattern
        } else if query.len() == 0 {
            None
        } else {
            Some(query)
        },
        ..area
    }
}

/// The cursor of the searched text on the next match, if there is one.
pub open spec fn at_next_match(area: TextState) -> TextState {
    match match_forward(area.pattern, area.lines, area.cursor, false) {
        Some(target) => area.with_cursor(target),
        None => area,
    }
}

/// The cursor of the searched text on the previous match, if there is one.
pub open spec fn at_previous_match(area: TextState) -> TextState {
    match match_back(area.pattern, area.lines, area.cursor, false) {
        Some(target) => area.with_cursor(target),
        None => area,
    }
}

/// The box in which a search is typed. While on show it consumes every
/// command: typing edits the query, `Up` and `Down` walk the matches in the
/// searched text, `Search` and `Cancel` close the box.
#[derive(Debug)]
pub struct SearchBoxComponent {
    pub text_area: Option<TextInput>,
    pub error: bool,
    pub regex: bool,
    pub effect_runner: EffectRunner,
}

impl SearchBoxComponent {
    /// The text typed into the box while it is on show.
    pub open spec fn input(self) -> Option<TextState> {
        match self.text_area {
            Some(text) => Some(text@),
            None => None,
        }
    }

    /// The query that the box stands for: its first line, taken literally
    /// unless the box is in regular-expression mode.
    pub open spec fn query(self) -> Seq<char> {
        match self.input() {
            Some(state) => if self.regex {
                first_line(state)
            } else {
                escaped(first_line(state))
            },
            None => Seq::<char>::empty(),
        }
    }

    /// A hidden search box.
    pub fn new() -> (r: Self)
        ensures
            r.input() is None,
            !r.error,
            !r.regex,
            !r.effect_runner.running(),
    {
        SearchBoxComponent {
            text_area: None,
            error: false,
            regex: false,
            effect_runner: EffectRunner::new(),
        }
    }

    /// Opens the box with an empty query, or closes it.
    pub fn toggle(&mut self, out: &mut Outbox)
        ensures
            final(self).input() == if old(self).input() is Some {
                None
            } else {
                Some(TextState::empty())
            },
            final(self).error == old(self).error,
            final(self).regex == old(self).regex,
            old(self).input() is Some ==> final(out).same_as(*old(out)) && final(self).effect_runner == old(self).effect_runner,
            old(self).input() is None ==> final(self).effect_runner.running() && final(out).extends(
                *old(out),
                seq![],
                seq![AsyncAction::StartAnimation],
                seq![Request::PlayTransition(Transition::FloatingEnter)],
            ),
    {
        if self.text_area.is_some() {
            self.text_area = None;
        } else {
            self.text_area = Some(TextInput::new());
            self.effect_runner.add_effect(Transition::FloatingEnter, out);
            self.update_text_area_placeholder();
        }
    }

    pub fn visible(&self) -> (r: bool)
        ensures
            r == self.input() is Some,
    {
        self.text_area.is_some()
    }

    pub fn is_error(&self) -> (r: bool)
        ensures
            r == self.error,
    {
        self.error
    }

    /// Hands the query to the searched text. A hidden box clears the search.
    /// A query that is refused marks the box as in error.
    pub fn apply_search_pattern(&mut self, search_area: &mut TextInput)
        ensures
            final(search_area)@ == searching(old(search_area)@, old(self).query()),
            final(self).input() == old(self).input(),
            final(self).regex == old(self).regex,
            final(self).effect_runner == old(self).effect_runner,
            final(self).error == if old(self).input() is Some {
                !accepts(old(self).query())
            } else {
                old(self).error
            },
    {
        proof {
            reveal_strlit("");
            assert(escaped(Seq::<char>::empty()) =~= Seq::<char>::empty());
        }
        match self.text_area.take() {
            None => {
                let _ = search_area.set_search_pattern("");
            },
            Some(mut search_text_area) => {
                let lines = search_text_area.lines();
                proof {
                    assert(lines.deep_view().len() == lines@.len());
                    if lines@.len() > 0 {
                        assert(lines.deep_view()[0] == lines@[0]@);
                    }
                }
                let accepted = if lines.len() > 0 {
                    if self.regex {
                        search_area.set_search_pattern(lines[0].as_str())
                    } else {
                        let literal = escape_pattern(lines[0].as_str());
                        search_area.set_search_pattern(literal.as_str())
                    }
                } else {
                    search_area.set_search_pattern("")
                };
                self.error = !accepted;
                proof {
                    reveal_strlit(" Search ");
                    reveal_strlit(" \u{ea9a} \u{eaa1} select ");
                }
                if self.error {
                    search_text_area.set_alarm_frame(" Search ", " \u{ea9a} \u{eaa1} select ");
                } else {
                    search_text_area.set_frame(" Search ", " \u{ea9a} \u{eaa1} select ");
                }
                self.text_area = Some(search_text_area);
            },
        }
    }

    /// Closes the box and forgets its mode.
    pub fn stop_search(&mut self)
        ensures
            final(self).input() is None,
            !final(self).error,
            !final(self).regex,
            final(self).effect_runner == old(self).effect_runner,
    {
        self.error = false;
        self.text_area = None;
        self.regex = false;
    }

    /// The hint of a search box in a mode: what kind of query it takes.
    pub open spec fn mode_hint(regex: bool) -> Seq<char> {
        if regex {
            "Regex"@
        } else {
            "Text"@
        }
    }

    /// Whether the box is dressed for its mode: it shows the hint of the
    /// mode in dark gray, and is framed as the search box, without alarm.
    pub open spec fn dressed(self) -> bool {
        &&& self.text_area is Some
        &&& area_hint(self.text_area->0) == Self::mode_hint(self.regex)
        &&& area_hint_dim(self.text_area->0)
        &&& area_frame(self.text_area->0) == Some(
            (" Search "@, " \u{ea9a} \u{eaa1} select "@, false),
        )
    }

    /// Dresses the box for its mode. What was typed stays.
    fn update_text_area_placeholder(&mut self)
        requires
            old(self).input() is Some,
        ensures
            final(self).dressed(),
            final(self).input() == old(self).input(),
            final(self).error == old(self).error,
            final(self).regex == old(self).regex,
            final(self).effect_runner == old(self).effect_runner,
    {
        let mut text_area = self.text_area.take().unwrap();
        let placeholder = if self.regex {
            "Regex"
        } else {
            "Text"
        };
        text_area.set_placeholder_text(placeholder);
        text_area.set_placeholder_style();
        proof {
            reveal_strlit(" Search ");
            reveal_strlit(" \u{ea9a} \u{eaa1} select ");
        }
        text_area.set_frame(" Search ", " \u{ea9a} \u{eaa1} select ");
        self.text_area = Some(text_area);
    }

    /// Edits the text of the box as the command asks.
    fn edit(&mut self, action: &Action) -> (changed: bool)
        requires
            old(self).input() is Some,
        ensures
            final(self).input() == Some(typed(old(self).input()->0, *action)),
            final(self).error == old(self).error,
            final(self).regex == old(self).regex,
            final(self).effect_runner == old(self).effect_runner,
            *action is Delete || *action is Backspace ==> changed == (final(self).input()->0.lines
                != old(self).input()->0.lines),
    {
        let mut text_area = self.text_area.take().unwrap();
        let changed = match action {
            Action::SelectRight => {
                if !text_area.is_selecting() {
                    text_area.start_selection();
                }
                text_area.move_cursor(CursorStep::Forward);
                false
            },
            Action::SelectLeft => {
                if !text_area.is_selecting() {
                    text_area.start_selection();
                }
                text_area.move_cursor(CursorStep::Back);
                false
            },
            Action::Left => {
                if text_area.is_selecting() {
                    text_area.cancel_selection();
                }
                text_area.move_cursor(CursorStep::Back);
                false
            },
            Action::Right => {
                if text_area.is_selecting() {
                    text_area.cancel_selection();
                }
                text_area.move_cursor(CursorStep::Forward);
                false
            },
            Action::EndOfWord => {
                text_area.move_cursor(CursorStep::WordEnd);
                false
            },
            Action::StartOfWord => {
                text_area.move_cursor(CursorStep::WordBack);
                false
            },
            Action::Character(c) => {
                text_area.insert_char(*c);
                false
            },
            Action::Delete => text_area.delete_next_char(),
            Action::Backspace => text_area.delete_char(),
            _ => false,
        };
        self.text_area = Some(text_area);
        changed
    }

    /// The box after a command, before the search is renewed.
    pub open spec fn received(self, action: Action, after: SearchBoxComponent) -> bool {
        &&& after.input() == if closes(action) {
            None
        } else {
            Some(typed(self.input()->0, action))
        }
        &&& after.regex == if action is Cancel {
            false
        } else if action is ToggleSearchRegex {
            !self.regex
        } else {
            self.regex
        }
        &&& after.error == if action is Cancel {
            false
        } else {
            self.error
        }
        &&& after.effect_runner == self.effect_runner
    }

    /// The answer of a box on show to a command other than `Up` and `Down`:
    /// everything is consumed; a redraw is due unless nothing was deleted or
    /// the command means nothing to the box.
    pub open spec fn reception(self, action: Action) -> ActionResult {
        match action {
            Action::SelectRight | Action::SelectLeft | Action::Left | Action::Right
            | Action::EndOfWord | Action::StartOfWord | Action::Character(_) | Action::Search
            | Action::ToggleSearchRegex | Action::Cancel => ActionResult::Consumed {
                rerender: true,
            },
            Action::Delete | Action::Backspace => ActionResult::Consumed {
                rerender: typed(self.input()->0, action).lines != self.input()->0.lines,
            },
            _ => ActionResult::Consumed { rerender: false },
        }
    }

    fn receive_action(&mut self, action: &Action) -> (r: (ActionResult, bool))
        requires
            old(self).input() is Some,
        ensures
            old(self).received(*action, *final(self)),
            r.0 == old(self).reception(*action),
            r.1 == renews_search(*action),
    {
        match action {
            Action::SelectRight | Action::SelectLeft | Action::Left | Action::Right
            | Action::EndOfWord | Action::StartOfWord => {
                self.edit(action);
                (ActionResult::consumed(true), false)
            },
            Action::Character(_) => {
                self.edit(action);
                (ActionResult::consumed(true), true)
            },
            Action::Delete | Action::Backspace => {
                let deleted = self.edit(action);
                (ActionResult::consumed(deleted), true)
            },
            Action::Search => {
                self.text_area = None;
                (ActionResult::consumed(true), true)
            },
            Action::ToggleSearchRegex => {
                self.regex = !self.regex;
                self.update_text_area_placeholder();
                (ActionResult::consumed(true), true)
            },
            Action::Cancel => {
                self.stop_search();
                (ActionResult::consumed(true), true)
            },
            _ => {
                self.edit(action);
                (ActionResult::consumed(false), false)
            },
        }
    }

    /// The searched text after a command went to a box on show.
    pub open spec fn searched(self, action: Action, area: TextState, after: SearchBoxComponent) -> TextState {
        match action {
            Action::Down => at_next_match(area),
            Action::Up => at_previous_match(area),
            _ => if renews_search(action) {
                searching(area, after.query())
            } else {
                area
            },
        }
    }

    /// The answer of the box to a command.
    pub open spec fn answer(self, action: Action, area: TextState) -> ActionResult {
        if self.input() is None {
            ActionResult::NotConsumed { rerender: false }
        } else {
            match action {
                Action::Down => ActionResult::Consumed {
                    rerender: match_forward(area.pattern, area.lines, area.cursor, false) is Some,
                },
                Action::Up => ActionResult::Consumed {
                    rerender: match_back(area.pattern, area.lines, area.cursor, false) is Some,
                },
                _ => self.reception(action),
            }
        }
    }

    /// What a command does to a box on show and to the searched text.
    pub open spec fn handled(
        self,
        action: Action,
        area: TextState,
        after: SearchBoxComponent,
        area_after: TextState,
    ) -> bool {
        &&& area_after == self.searched(action, area, after)
        &&& if action is Up || action is Down {
            after == self
        } else {
            &&& after.input() == if closes(action) {
                None
            } else {
                Some(typed(self.input()->0, action))
            }
            &&& after.regex == if action is Cancel {
                false
            } else if action is ToggleSearchRegex {
                !self.regex
            } else {
                self.regex
            }
            &&& after.error == if !renews_search(action) {
                self.error
            } else if closes(action) {
                action is Search && self.error
            } else {
                !accepts(after.query())
            }
            &&& after.effect_runner == self.effect_runner
        }
    }

    /// Offers a command to the box, with the text that is searched. A hidden
    /// box consumes nothing and changes nothing.
    pub fn handle_action(&mut self, action: &Action, text_area: &mut TextInput) -> (r: ActionResult)
        ensures
            r == old(self).answer(*action, old(text_area)@),
            old(self).input() is None ==> *final(self) == *old(self) && *final(text_area) == *old(text_area),
            old(self).input() is Some ==> old(self).handled(
                *action,
                old(text_area)@,
                *final(self),
                final(text_area)@,
            ),
    {
        if !self.visible() {
            return ActionResult::not_consumed(false);
        }
        match action {
            Action::Down => ActionResult::consumed(text_area.search_forward(false)),
            Action::Up => ActionResult::consumed(text_area.search_back(false)),
            _ => {
                let (res, update_search) = self.receive_action(action);
                if res.is_consumed() && update_search {
                    self.apply_search_pattern(text_area);
                }
                res
            },
        }
    }
}

} // verus!
