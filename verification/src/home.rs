use vstd::prelude::*;
use vstd::string::StringExecFns;

use crate::action::{Action, ActionResult, AsyncAction, SelectorType};
use crate::component::AppComponent;
use crate::config::{config_file_name, get_config_file_dir, Config};
use crate::file_history::{FileHistoryComponent, FileHistoryKeybinds};
use crate::file_selector::FileSelectorComponent;
use crate::paths::joined;
use crate::runtime::{Completion, Outbox, Request, Transition};

verus! {

/// The entries of the home menu, in the order in which they are listed.
#[derive(Clone, Copy, Debug, PartialEq, Eq, Structural)]
pub enum HomeOptions {
    NewFile,
    OpenFile,
    FileHistory,
    Config,
    Quit,
}

/// The number of entries of the home menu.
pub const HOME_OPTIONS_COUNT: usize = 5;

impl HomeOptions {
    /// The entry at a place of the menu.
    pub open spec fn at(index: int) -> Option<HomeOptions> {
        if index == 0 {
            Some(HomeOptions::NewFile)
        } else if index == 1 {
            Some(HomeOptions::OpenFile)
        } else if index == 2 {
            Some(HomeOptions::FileHistory)
        } else if index == 3 {
            Some(HomeOptions::Config)
        } else if index == 4 {
            Some(HomeOptions::Quit)
        } else {
            None
        }
    }

    pub fn get(index: usize) -> (r: Option<HomeOptions>)
        ensures
            r == Self::at(index as int),
    {
        match index {
            0 => Some(HomeOptions::NewFile),
            1 => Some(HomeOptions::OpenFile),
            2 => Some(HomeOptions::FileHistory),
            3 => Some(HomeOptions::Config),
            4 => Some(HomeOptions::Quit),
            _ => None,
        }
    }

    /// The caption of the entry.
    pub open spec fn caption(self) -> Seq<char> {
        match self {
            HomeOptions::NewFile => "New File"@,
            HomeOptions::OpenFile => "Open File"@,
            HomeOptions::FileHistory => "File History"@,
            HomeOptions::Config => "Config"@,
            HomeOptions::Quit => "Quit"@,
        }
    }

    pub fn title(&self) -> (r: &'static str)
        ensures
            r@ == self.caption(),
    {
        match self {
            HomeOptions::NewFile => "New File",
            HomeOptions::OpenFile => "Open File",
            HomeOptions::FileHistory => "File History",
            HomeOptions::Config => "Config",
            HomeOptions::Quit => "Quit",
        }
    }

    /// The command that does what the entry stands for.
    pub open spec fn command(self) -> Action {
        match self {
            HomeOptions::NewFile => Action::NewFile,
            HomeOptions::OpenFile => Action::OpenFile,
            HomeOptions::FileHistory => Action::FileHistory,
            HomeOptions::Config => Action::Config,
            HomeOptions::Quit => Action::Quit,
        }
    }
}

/// The labels of the keys that the home screen names.
#[derive(Debug)]
pub struct HomeKeybinds {
    pub up: String,
    pub down: String,
    pub cancel: String,
    pub confirm: String,
    pub new_file: String,
    pub open_file: String,
    pub file_history: String,
    pub config: String,
    pub quit: String,
}

impl HomeKeybinds {
    pub fn new() -> (r: Self)
        ensures
            r.up@.len() == 0,
            r.down@.len() == 0,
            r.cancel@.len() == 0,
            r.confirm@.len() == 0,
            r.new_file@.len() == 0,
            r.open_file@.len() == 0,
            r.file_history@.len() == 0,
            r.config@.len() == 0,
            r.quit@.len() == 0,
    {
        HomeKeybinds {
            up: String::new(),
            down: String::new(),
            cancel: String::new(),
            confirm: String::new(),
            new_file: String::new(),
            open_file: String::new(),
            file_history: String::new(),
            config: String::new(),
            quit: String::new(),
        }
    }

    /// Whether the labels are those that the configuration gives the screen's keys.
    pub open spec fn taken_from(self, config: Config, screen: AppComponent) -> bool {
        &&& self.up@ == FileHistoryKeybinds::label_of(config, screen, Action::Up)
        &&& self.down@ == FileHistoryKeybinds::label_of(config, screen, Action::Down)
        &&& self.confirm@ == FileHistoryKeybinds::label_of(config, screen, Action::Confirm)
        &&& self.cancel@ == FileHistoryKeybinds::label_of(config, screen, Action::Cancel)
        &&& self.quit@ == FileHistoryKeybinds::label_of(config, screen, Action::Quit)
        &&& self.new_file@ == FileHistoryKeybinds::label_of(config, screen, Action::NewFile)
        &&& self.open_file@ == FileHistoryKeybinds::label_of(config, screen, Action::OpenFile)
        &&& self.file_history@ == FileHistoryKeybinds::label_of(
            config,
            screen,
            Action::FileHistory,
        )
        &&& self.config@ == FileHistoryKeybinds::label_of(config, screen, Action::Config)
    }

    pub fn setup(&mut self, app_component: &AppComponent, config: &Config)
        ensures
            final(self).taken_from(*config, *app_component),
    {
        let keybinds = &config.keybindings;
        self.up = keybinds.get_key_string_or_default(&Action::Up, app_component);
        self.down = keybinds.get_key_string_or_default(&Action::Down, app_component);
        self.confirm = keybinds.get_key_string_or_default(&Action::Confirm, app_component);
        self.cancel = keybinds.get_key_string_or_default(&Action::Cancel, app_component);
        self.quit = keybinds.get_key_string_or_default(&Action::Quit, app_component);
        self.new_file = keybinds.get_key_string_or_default(&Action::NewFile, app_component);
        self.open_file = keybinds.get_key_string_or_default(&Action::OpenFile, app_component);
        self.file_history = keybinds.get_key_string_or_default(&Action::FileHistory, app_component);
        self.config = keybinds.get_key_string_or_default(&Action::Config, app_component);
    }

    /// The label of the key for an entry of the menu.
    pub fn option_key(&self, option: HomeOptions) -> (r: &String)
        ensures
            *r == match option {
                HomeOptions::NewFile => self.new_file,
                HomeOptions::OpenFile => self.open_file,
                HomeOptions::FileHistory => self.file_history,
                HomeOptions::Config => self.config,
                HomeOptions::Quit => self.quit,
            },
    {
        match option {
            HomeOptions::NewFile => &self.new_file,
            HomeOptions::OpenFile => &self.open_file,
            HomeOptions::FileHistory => &self.file_history,
            HomeOptions::Config => &self.config,
            HomeOptions::Quit => &self.quit,
        }
    }
}

/// Holds of every selector, answer and outbox; it names the stage at which
/// the file selector has answered.
pub open spec fn selector_answered(
    shown: FileSelectorComponent,
    dialog: ActionResult,
    out_mid: Outbox,
) -> bool {
    true
}

/// Holds of every dialog, answer and outbox; it names the stage at which
/// the history dialog has answered.
pub open spec fn history_answered(
    listed: FileHistoryComponent,
    history: ActionResult,
    out_late: Outbox,
    own: ActionResult,
) -> bool {
    true
}

/// The home screen: a menu, and the dialogs that open a file.
#[derive(Debug)]
pub struct HomeComponent {
    /// The entry that the menu cursor is on.
    pub selected: Option<usize>,
    pub file_selector_component: FileSelectorComponent,
    pub file_history_component: FileHistoryComponent,
    pub keybinds: HomeKeybinds,
    /// The directory at which the file selector starts.
    pub working_dir: String,
    /// The file that the `Config` entry opens.
    pub config_file: String,
}

impl HomeComponent {
    /// Whether this is a home screen as it is made: the menu cursor on no
    /// entry, both dialogs as they are made, no key named, and no directory
    /// or configuration file known.
    pub open spec fn is_new(self) -> bool {
        &&& self.selected is None
        &&& self.file_selector_component.is_new()
        &&& self.file_history_component.is_new()
        &&& self.keybinds.up@.len() == 0
        &&& self.keybinds.down@.len() == 0
        &&& self.keybinds.cancel@.len() == 0
        &&& self.keybinds.confirm@.len() == 0
        &&& self.keybinds.new_file@.len() == 0
        &&& self.keybinds.open_file@.len() == 0
        &&& self.keybinds.file_history@.len() == 0
        &&& self.keybinds.config@.len() == 0
        &&& self.keybinds.quit@.len() == 0
        &&& self.working_dir@.len() == 0
        &&& self.config_file@.len() == 0
    }

    /// A home screen with nothing on show and nothing configured.
    pub fn new() -> (r: Self)
        ensures
            r.is_new(),
    {
        HomeComponent {
            selected: None,
            file_selector_component: FileSelectorComponent::new(),
            file_history_component: FileHistoryComponent::new(),
            keybinds: HomeKeybinds::new(),
            working_dir: String::new(),
            config_file: String::new(),
        }
    }

    /// Whether `after` is this screen with the configuration taken.
    pub open spec fn registered(self, config: Config, after: HomeComponent) -> bool {
        &&& after.keybinds.taken_from(config, AppComponent::HomeScreen)
        &&& after.working_dir == config.config.working_dir
        &&& after.config_file@ == joined(config.config.config_dir@, config_file_name())
        &&& after.selected == self.selected
        &&& after.file_selector_component == self.file_selector_component
        &&& self.file_history_component.registered(
            config,
            AppComponent::HomeScreen,
            after.file_history_component,
        )
    }

    /// Takes the directories and the labels of the keys that the screen names.
    pub fn register_config(&mut self, config: &Config)
        ensures
            old(self).registered(*config, *final(self)),
    {
        self.file_history_component.register_config(config, &AppComponent::HomeScreen);
        self.keybinds.setup(&AppComponent::HomeScreen, config);
        self.working_dir = config.config.working_dir.clone();
        self.config_file = get_config_file_dir(config.config.config_dir.as_str());
    }

    /// The screen whose key bindings are in force: that of file dialogs
    /// while one of the dialogs is on show, else the home screen's.
    pub open spec fn keybind_id(self) -> AppComponent {
        if self.file_selector_component.visible || self.file_history_component.opened {
            AppComponent::FileDialog
        } else {
            AppComponent::HomeScreen
        }
    }

    pub fn override_keybind_id(&self) -> (r: Option<AppComponent>)
        ensures
            r == Some(self.keybind_id()),
    {
        if let Some(a) = self.file_selector_component.override_keybind_id() {
            return Some(a);
        }
        if let Some(a) = self.file_history_component.override_keybind_id() {
            return Some(a);
        }
        Some(AppComponent::HomeScreen)
    }

    /// The entry that the menu cursor goes to on `Up` or `Down`, if it
    /// moves: one entry up or down, and from no entry to the last or the first.
    pub open spec fn cursor_target(self, action: Action) -> Option<usize> {
        match (action, self.selected) {
            (Action::Up, Some(index)) => if index > 0 {
                Some((index - 1) as usize)
            } else {
                None
            },
            (Action::Up, None) => Some((HOME_OPTIONS_COUNT - 1) as usize),
            (Action::Down, Some(index)) => if index + 1 < HOME_OPTIONS_COUNT {
                Some((index + 1) as usize)
            } else {
                None
            },
            (Action::Down, None) => Some(0),
            _ => None,
        }
    }

    /// The command that a command comes to: `Confirm` stands for the command
    /// of the entry that the menu cursor is on.
    pub open spec fn meant(self, action: Action) -> Option<Action> {
        match action {
            Action::Confirm => match self.selected {
                Some(index) => match HomeOptions::at(index as int) {
                    Some(option) => Some(option.command()),
                    None => None,
                },
                None => None,
            },
            Action::NewFile | Action::OpenFile | Action::FileHistory | Action::Config => Some(
                action,
            ),
            _ => None,
        }
    }

    /// What one of the menu's commands does: a new file and the
    /// configuration file are opened by going to the editor, the dialogs are
    /// put on show, and quitting is passed on as a command.
    pub open spec fn performed(
        self,
        command: Action,
        after: HomeComponent,
        out_before: Outbox,
        out_after: Outbox,
    ) -> bool {
        match command {
            Action::NewFile => after == self && out_after.extends(
                out_before,
                seq![],
                seq![AsyncAction::Navigate(Some(AppComponent::Editor))],
                seq![],
            ),
            Action::Config => after == self && out_after.extends(
                out_before,
                seq![],
                seq![AsyncAction::Navigate(Some(AppComponent::OpenedEditor(self.config_file)))],
                seq![],
            ),
            Action::Quit => after == self && out_after.extends(
                out_before,
                seq![Action::Quit],
                seq![],
                seq![],
            ),
            Action::OpenFile => {
                &&& after.selected == self.selected
                &&& after.file_history_component == self.file_history_component
                &&& after.keybinds == self.keybinds
                &&& after.working_dir == self.working_dir
                &&& after.config_file == self.config_file
                &&& after.file_selector_component.visible
                &&& after.file_selector_component.input.selector_type == SelectorType::PickFile
                &&& after.file_selector_component.input.filtering() == Some(
                    crate::text::TextState::empty(),
                )
                &&& after.file_selector_component.input.name()
                    == self.file_selector_component.input.name()
                &&& after.file_selector_component.current_path
                    == self.file_selector_component.current_path
                &&& after.file_selector_component.children == self.file_selector_component.children
                &&& after.file_selector_component.filtered_paths
                    == self.file_selector_component.filtered_paths
                &&& after.file_selector_component.selected == self.file_selector_component.selected
                &&& after.file_selector_component.preview_component
                    == self.file_selector_component.preview_component
                &&& out_after.extends(
                    out_before,
                    seq![],
                    seq![AsyncAction::StartAnimation],
                    seq![
                        Request::ListDirectory { path: self.working_dir, fallback: None },
                        Request::PlayTransition(Transition::DialogEnter),
                    ],
                )
            },
            Action::FileHistory => {
                &&& after.selected == self.selected
                &&& after.file_selector_component == self.file_selector_component
                &&& after.keybinds == self.keybinds
                &&& after.working_dir == self.working_dir
                &&& after.config_file == self.config_file
                &&& after.file_history_component == (FileHistoryComponent {
                    opened: true,
                    effect_runner: after.file_history_component.effect_runner,
                    ..self.file_history_component
                })
                &&& after.file_history_component.effect_runner.running()
                &&& out_after.extends(
                    out_before,
                    seq![],
                    seq![AsyncAction::StartAnimation],
                    seq![Request::PlayTransition(Transition::DialogEnter)]
                        + self.file_history_component.load_requests(),
                )
            },
            _ => after == self && out_after.same_as(out_before),
        }
    }

    fn perform(&mut self, command: &Action, out: &mut Outbox)
        ensures
            old(self).performed(*command, *final(self), *old(out), *final(out)),
            final(out).actions@ == old(out).actions@ || final(out).actions@ == old(out).actions@.push(Action::Quit),
    {
        match command {
            Action::NewFile => {
                out.send_async(AsyncAction::Navigate(Some(AppComponent::Editor)));
            },
            Action::Config => {
                let comp = AppComponent::OpenedEditor(self.config_file.clone());
                out.send_async(AsyncAction::Navigate(Some(comp)));
            },
            Action::Quit => {
                out.send_action(Action::Quit);
            },
            Action::OpenFile => {
                self.file_selector_component.show(
                    self.working_dir.clone(),
                    None,
                    SelectorType::PickFile,
                    out,
                );
            },
            Action::FileHistory => {
                self.file_history_component.show(out);
            },
            _ => {},
        }
    }

    /// What a command does to a home screen whose dialogs have let it pass.
    pub open spec fn own_handled(
        self,
        action: Action,
        after: HomeComponent,
        r: ActionResult,
        out_before: Outbox,
        out_after: Outbox,
    ) -> bool {
        match action {
            Action::Up | Action::Down => {
                &&& out_after.same_as(out_before)
                &&& match self.cursor_target(action) {
                    Some(index) => after == (HomeComponent { selected: Some(index), ..self }) && r
                        == (ActionResult::Consumed { rerender: true }),
                    None => after == self && r == (ActionResult::NotConsumed { rerender: false }),
                }
            },
            Action::Cancel => {
                &&& out_after.same_as(out_before)
                &&& after == (HomeComponent { selected: None, ..self })
                &&& r == if self.selected is Some {
                    (ActionResult::Consumed { rerender: true })
                } else {
                    (ActionResult::NotConsumed { rerender: false })
                }
            },
            _ => match self.meant(action) {
                Some(command) => {
                    &&& self.performed(command, after, out_before, out_after)
                    &&& r == (ActionResult::Consumed { rerender: true })
                },
                None => {
                    &&& after == self
                    &&& out_after.same_as(out_before)
                    &&& r == (ActionResult::NotConsumed { rerender: false })
                },
            },
        }
    }

    /// Handles a command that the dialogs have let pass.
    pub fn handle_own_action(&mut self, action: &Action, out: &mut Outbox) -> (r: ActionResult)
        ensures
            old(self).own_handled(*action, *final(self), r, *old(out), *final(out)),
            final(out).actions@ == old(out).actions@ || final(out).actions@ == old(out).actions@.push(Action::Quit),
    {
        match action {
            Action::Up => {
                if let Some(index) = self.selected {
                    if index > 0 {
                        self.selected = Some(index - 1);
                        return ActionResult::consumed(true);
                    }
                } else {
                    self.selected = Some(HOME_OPTIONS_COUNT - 1);
                    return ActionResult::consumed(true);
                }
            },
            Action::Down => {
                if let Some(index) = self.selected {
                    if index < HOME_OPTIONS_COUNT - 1 {
                        self.selected = Some(index + 1);
                        return ActionResult::consumed(true);
                    }
                } else {
                    self.selected = Some(0);
                    return ActionResult::consumed(true);
                }
            },
            Action::Confirm => {
                if let Some(index) = self.selected {
                    if let Some(option) = HomeOptions::get(index) {
                        match option {
                            HomeOptions::NewFile => self.perform(&Action::NewFile, out),
                            HomeOptions::OpenFile => self.perform(&Action::OpenFile, out),
                            HomeOptions::FileHistory => self.perform(&Action::FileHistory, out),
                            HomeOptions::Quit => self.perform(&Action::Quit, out),
                            HomeOptions::Config => self.perform(&Action::Config, out),
                        }
                        return ActionResult::consumed(true);
                    }
                }
            },
            Action::Cancel => {
                if self.selected.is_some() {
                    self.selected = None;
                    return ActionResult::consumed(true);
                }
            },
            Action::NewFile | Action::OpenFile | Action::FileHistory | Action::Config => {
                self.perform(action, out);
                return ActionResult::consumed(true);
            },
            _ => {},
        }
        ActionResult::default()
    }

    /// What a command does to the home screen: the file selector gets it
    /// first, then the history dialog; what neither consumes, the screen
    /// handles itself. A redraw that a dialog asked for without consuming
    /// the command stays asked for.
    pub open spec fn handled(
        self,
        action: Action,
        after: HomeComponent,
        r: ActionResult,
        out_before: Outbox,
        out_after: Outbox,
    ) -> bool {
        exists|
            shown: FileSelectorComponent,
            dialog: ActionResult,
            out_mid: Outbox,
            listed: FileHistoryComponent,
            history: ActionResult,
            out_late: Outbox,
            own: ActionResult,
        |
            {
                let mid = HomeComponent { file_selector_component: shown, ..self };
                let late = HomeComponent { file_history_component: listed, ..mid };
                &&& #[trigger] selector_answered(shown, dialog, out_mid)
                &&& #[trigger] history_answered(listed, history, out_late, own)
                &&& if self.file_selector_component.visible {
                    self.file_selector_component.handled(action, shown, dialog, out_before, out_mid)
                } else {
                    &&& shown == self.file_selector_component
                    &&& dialog == (ActionResult::NotConsumed { rerender: false })
                    &&& out_mid.same_as(out_before)
                }
                &&& if dialog is Consumed {
                    &&& r == dialog
                    &&& after == mid
                    &&& out_after.same_as(out_mid)
                    &&& own == r
                } else {
                    &&& if self.file_history_component.opened {
                        self.file_history_component.handled(
                            action,
                            listed,
                            history,
                            out_mid,
                            out_late,
                        )
                    } else {
                        &&& listed == self.file_history_component
                        &&& history == (ActionResult::NotConsumed { rerender: false })
                        &&& out_late.same_as(out_mid)
                    }
                    &&& if history is Consumed {
                        &&& r == history.joined(dialog)
                        &&& after == late
                        &&& out_after.same_as(out_late)
                        &&& own == r
                    } else {
                        &&& late.own_handled(action, after, own, out_late, out_after)
                        &&& r == own.joined(dialog).joined(history)
                    }
                }
            }
    }

    /// Offers a command to the home screen. The only command that it
    /// issues in answer is `Quit`.
    pub fn handle_action(&mut self, action: &Action, out: &mut Outbox) -> (r: ActionResult)
        ensures
            old(self).handled(*action, *final(self), r, *old(out), *final(out)),
            final(out).actions@ == old(out).actions@ || final(out).actions@ == old(out).actions@.push(Action::Quit),
    {
        let r = self.file_selector_component.handle_action(action, out);
        let ghost dialog = r;
        let ghost out_mid = *out;
        let ghost mid = *self;
        assert(selector_answered(mid.file_selector_component, dialog, out_mid));
        if r.is_consumed() {
            assert(history_answered(mid.file_history_component, r, out_mid, r));
            assert(out.same_as(out_mid));
            return r;
        }
        let first = r;
        let r = self.file_history_component.handle_action(action, out);
        let ghost history = r;
        let ghost out_late = *out;
        let ghost late = *self;
        if r.is_consumed() {
            let r = r.after(first);
            assert(history_answered(late.file_history_component, history, out_late, r));
            assert(out.same_as(out_late));
            return r;
        }
        let second = r;
        let own = self.handle_own_action(action, out);
        assert(history_answered(late.file_history_component, history, out_late, own));
        assert(late.own_handled(*action, *self, own, out_late, *out));
        own.after(first).after(second)
    }

    /// What a result does to the home screen. The previews of the dialogs
    /// take the contents read for them, the selector first; a selected path
    /// is opened by going to the editor, and is not consumed with a redraw.
    pub open spec fn async_handled(
        self,
        action: AsyncAction,
        after: HomeComponent,
        r: ActionResult,
        out_before: Outbox,
        out_after: Outbox,
    ) -> bool {
        match action {
            AsyncAction::PreviewContents(contents) => {
                &&& after == (HomeComponent {
                    file_selector_component: FileSelectorComponent {
                        preview_component: crate::preview::PreviewComponent {
                            contents,
                            ..self.file_selector_component.preview_component
                        },
                        ..self.file_selector_component
                    },
                    ..self
                })
                &&& r == (ActionResult::Consumed { rerender: true })
                &&& out_after.same_as(out_before)
            },
            AsyncAction::SelectPath(path, _) => {
                &&& after == self
                &&& r == (ActionResult::Consumed { rerender: false })
                &&& out_after.extends(
                    out_before,
                    seq![],
                    seq![AsyncAction::Navigate(Some(AppComponent::OpenedEditor(path)))],
                    seq![],
                )
            },
            _ => {
                &&& after == self
                &&& r == (ActionResult::NotConsumed { rerender: false })
                &&& out_after.same_as(out_before)
            },
        }
    }

    pub fn handle_async_action(&mut self, action: &AsyncAction, out: &mut Outbox) -> (r:
        ActionResult)
        ensures
            crate::runtime::load(final(out).async_actions@) < crate::runtime::load(
                old(out).async_actions@,
            ) + crate::runtime::weight(*action),
            old(self).async_handled(*action, *final(self), r, *old(out), *final(out)),
    {
        let f = self.file_selector_component.handle_async_action(action);
        if f.is_consumed() {
            return f;
        }
        let r = self.file_history_component.handle_async_action(action);
        if r.is_consumed() {
            return r;
        }
        if let AsyncAction::SelectPath(path, _) = action {
            let editor = AppComponent::OpenedEditor(path.clone());
            proof {
                crate::runtime::lemma_load_push(
                    out.async_actions@,
                    AsyncAction::Navigate(Some(editor)),
                );
                assert(out.async_actions@ + seq![AsyncAction::Navigate(Some(editor))]
                    =~= out.async_actions@.push(AsyncAction::Navigate(Some(editor))));
            }
            out.send_async(AsyncAction::Navigate(Some(editor)));
            return ActionResult::consumed(false);
        }
        ActionResult::default()
    }

    /// What the outcome of a request does to the home screen: a listing goes
    /// to the file selector, the history to the history dialog.
    pub open spec fn completed(
        self,
        completion: Completion,
        after: HomeComponent,
        r: ActionResult,
        out_before: Outbox,
        out_after: Outbox,
    ) -> bool {
        match completion {
            Completion::DirectoryListed { path, entries } => {
                &&& after == (HomeComponent {
                    file_selector_component: after.file_selector_component,
                    ..self
                })
                &&& self.file_selector_component.listed(
                    path,
                    entries,
                    after.file_selector_component,
                    out_before,
                    out_after,
                )
                &&& r == (ActionResult::Consumed { rerender: entries is Some })
            },
            Completion::HistoryRead(lines) => {
                &&& after.selected == self.selected
                &&& after.file_selector_component == self.file_selector_component
                &&& after.keybinds == self.keybinds
                &&& after.working_dir == self.working_dir
                &&& after.config_file == self.config_file
                &&& self.file_history_component.history_taken(lines, after.file_history_component)
                &&& r == (ActionResult::Consumed { rerender: lines is Some })
                &&& out_after.same_as(out_before)
            },
            _ => {
                &&& after == self
                &&& r == (ActionResult::NotConsumed { rerender: false })
                &&& out_after.same_as(out_before)
            },
        }
    }

    pub fn handle_completion(&mut self, completion: &Completion, out: &mut Outbox) -> (r:
        ActionResult)
        ensures
            old(self).completed(*completion, *final(self), r, *old(out), *final(out)),
    {
        match completion {
            Completion::DirectoryListed { path, entries } => {
                self.file_selector_component.directory_listed(path, entries, out);
                ActionResult::consumed(entries.is_some())
            },
            Completion::HistoryRead(lines) => {
                self.file_history_component.history_read(lines);
                ActionResult::consumed(lines.is_some())
            },
            _ => ActionResult::default(),
        }
    }
}

} // verus!
