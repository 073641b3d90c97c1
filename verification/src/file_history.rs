use vstd::prelude::*;

use crate::action::{Action, ActionResult, AsyncAction, SelectorType};
use crate::component::AppComponent;
use crate::config::Config;
use crate::path_child::{extension_or_empty, file_name_or_empty, icon_of, label_for_file, labelled};
use crate::paths::{parent_of, path_parent, reads_as};
use crate::preview::PreviewComponent;
use crate::runtime::{EffectRunner, HistoryLine, Outbox, Request, Transition};

verus! {

/// The name of the file, under the data directory, that keeps the history.
pub const HISTORY_FILE_NAME: &'static str = "file_history.txt";

/// The labels of the keys that the history dialog names in its frame.
#[derive(Debug)]
pub struct FileHistoryKeybinds {
    pub up: String,
    pub down: String,
    pub confirm: String,
    pub cancel: String,
}

impl FileHistoryKeybinds {
    pub fn new() -> (r: Self)
        ensures
            r.up@.len() == 0,
            r.down@.len() == 0,
            r.confirm@.len() == 0,
            r.cancel@.len() == 0,
    {
        FileHistoryKeybinds {
            up: String::new(),
            down: String::new(),
            confirm: String::new(),
            cancel: String::new(),
        }
    }

    /// The label of the key that issues a command on a screen, or the empty text.
    pub open spec fn label_of(config: Config, screen: AppComponent, action: Action) -> Seq<char> {
        match config.keybindings.key_of(screen, action) {
            Some(binding) => binding.label@,
            None => Seq::<char>::empty(),
        }
    }

    pub fn register_keybinds(&mut self, app_component: &AppComponent, config: &Config)
        ensures
            final(self).up@ == Self::label_of(*config, *app_component, Action::Up),
            final(self).down@ == Self::label_of(*config, *app_component, Action::Down),
            final(self).confirm@ == Self::label_of(*config, *app_component, Action::Confirm),
            final(self).cancel@ == Self::label_of(*config, *app_component, Action::Cancel),
    {
        let keybinds = &config.keybindings;
        self.up = keybinds.get_key_string_or_default(&Action::Up, app_component);
        self.down = keybinds.get_key_string_or_default(&Action::Down, app_component);
        self.confirm = keybinds.get_key_string_or_default(&Action::Confirm, app_component);
        self.cancel = keybinds.get_key_string_or_default(&Action::Cancel, app_component);
    }
}

/// A file of the history, as the dialog lists it.
#[derive(Debug)]
pub struct FileHistory {
    pub label: String,
    pub path: String,
    pub parent_label: Option<String>,
}

impl FileHistory {
    /// Whether this is the entry for a path: the path itself, its label,
    /// and the directory it lies in.
    pub open spec fn is_for(self, path: Seq<char>) -> bool {
        &&& self.path@ == path
        &&& self.label@ == labelled(
            icon_of(file_name_or_empty(path), extension_or_empty(path)),
            file_name_or_empty(path),
        )
        &&& reads_as(self.parent_label, parent_of(path))
    }
}

/// The paths of the history lines that name a file, in their order.
pub open spec fn files_of(lines: Seq<HistoryLine>) -> Seq<Seq<char>> {
    lines.filter(|line: HistoryLine| line.is_file).map_values(|line: HistoryLine| line.path@)
}

/// Whether the entries are those for the paths, in their order.
pub open spec fn entries_for(files: Seq<FileHistory>, paths: Seq<Seq<char>>) -> bool {
    &&& files.len() == paths.len()
    &&& forall|i: int| 0 <= i < files.len() ==> (#[trigger] files[i]).is_for(paths[i])
}

/// The dialog that lists the files opened before and opens the one picked.
/// It is hidden until shown, and consumes commands only while on show.
#[derive(Debug)]
pub struct FileHistoryComponent {
    pub opened: bool,
    pub data_dir: String,
    pub files: Vec<FileHistory>,
    pub preview_component: PreviewComponent,
    /// The row that the list cursor is on.
    pub selected: Option<usize>,
    pub effect_runner: EffectRunner,
    pub keybinds: FileHistoryKeybinds,
}

impl FileHistoryComponent {
    /// Whether this is a dialog as it is made: hidden, for no data
    /// directory, with no files, the list cursor on no row, the preview
    /// switched on and on no file, no transition playing, and no key named.
    pub open spec fn is_new(self) -> bool {
        &&& !self.opened
        &&& self.data_dir@.len() == 0
        &&& self.files@.len() == 0
        &&& self.selected is None
        &&& self.preview_component.path_buf@.len() == 0
        &&& self.preview_component.contents is None
        &&& self.preview_component.lines == 0
        &&& self.preview_component.visible
        &&& !self.effect_runner.running()
        &&& self.keybinds.up@.len() == 0
        &&& self.keybinds.down@.len() == 0
        &&& self.keybinds.confirm@.len() == 0
        &&& self.keybinds.cancel@.len() == 0
    }

    /// A hidden dialog that has listed nothing.
    pub fn new() -> (r: Self)
        ensures
            r.is_new(),
    {
        FileHistoryComponent {
            opened: false,
            data_dir: String::new(),
            files: Vec::new(),
            preview_component: PreviewComponent::default(),
            selected: None,
            effect_runner: EffectRunner::new(),
            keybinds: FileHistoryKeybinds::new(),
        }
    }

    /// The requests that load the history: one for the history file, unless
    /// files are listed already.
    pub open spec fn load_requests(self) -> Seq<Request> {
        if self.files@.len() > 0 {
            seq![]
        } else {
            seq![Request::ReadHistory(self.data_dir)]
        }
    }

    /// Puts the dialog on show and asks for the history, unless it is listed already.
    pub fn show(&mut self, out: &mut Outbox)
        ensures
            *final(self) == (FileHistoryComponent {
                opened: true,
                effect_runner: final(self).effect_runner,
                ..*old(self)
            }),
            final(self).effect_runner.running(),
            final(out).extends(
                *old(out),
                seq![],
                seq![AsyncAction::StartAnimation],
                seq![Request::PlayTransition(Transition::DialogEnter)] + old(self).load_requests(),
            ),
    {
        self.opened = true;
        self.effect_runner.add_effect(Transition::DialogEnter, out);
        self.load_files(out);
    }

    /// Hides the dialog and forgets the files listed.
    pub fn close(&mut self)
        ensures
            !final(self).opened,
            final(self).files@.len() == 0,
            final(self).data_dir == old(self).data_dir,
            final(self).preview_component == old(self).preview_component,
            final(self).selected == old(self).selected,
            final(self).effect_runner == old(self).effect_runner,
            final(self).keybinds == old(self).keybinds,
    {
        self.files.clear();
        self.opened = false;
    }

    pub fn showing(&self) -> (r: bool)
        ensures
            r == self.opened,
    {
        self.opened
    }

    /// Forgets the files listed and asks for the history anew.
    pub fn reload_history(&mut self, out: &mut Outbox)
        ensures
            final(self).files@.len() == 0,
            final(self).opened == old(self).opened,
            final(self).data_dir == old(self).data_dir,
            final(self).preview_component == old(self).preview_component,
            final(self).selected == old(self).selected,
            final(self).effect_runner == old(self).effect_runner,
            final(self).keybinds == old(self).keybinds,
            final(out).extends(
                *old(out),
                seq![],
                seq![],
                seq![Request::ReadHistory(old(self).data_dir)],
            ),
    {
        self.files.clear();
        self.load_files(out);
    }

    fn load_files(&mut self, out: &mut Outbox)
        ensures
            *final(self) == *old(self),
            final(out).extends(*old(out), seq![], seq![], old(self).load_requests()),
    {
        if self.files.len() > 0 {
            return ;
        }
        out.request(Request::ReadHistory(self.data_dir.clone()));
    }

    /// What the lines of the history file do to the dialog.
    pub open spec fn history_taken(
        self,
        lines: Option<Vec<HistoryLine>>,
        after: FileHistoryComponent,
    ) -> bool {
        &&& after.opened == self.opened
        &&& after.data_dir == self.data_dir
        &&& after.preview_component == self.preview_component
        &&& after.selected == self.selected
        &&& after.effect_runner == self.effect_runner
        &&& after.keybinds == self.keybinds
        &&& match lines {
            Some(list) if self.files@.len() == 0 => entries_for(after.files@, files_of(list@)),
            _ => after.files == self.files,
        }
    }

    /// Takes the lines of the history file: each line that names a file
    /// becomes an entry, in the order of the file. Nothing changes where
    /// files are listed already, or where the history could not be read.
    pub fn history_read(&mut self, lines: &Option<Vec<HistoryLine>>)
        ensures
            old(self).history_taken(*lines, *final(self)),
    {
        if self.files.len() > 0 {
            return ;
        }
        let list = match lines {
            None => {
                return ;
            },
            Some(list) => list,
        };
        let mut i: usize = 0;
        let ghost is_file = |line: HistoryLine| line.is_file;
        let ghost path_of = |line: HistoryLine| line.path@;
        assert(list@.subrange(0, 0).filter(is_file) =~= Seq::<HistoryLine>::empty()) by {
            reveal(Seq::filter);
        }
        while i < list.len()
            invariant
                i <= list@.len(),
                is_file == |line: HistoryLine| line.is_file,
                path_of == |line: HistoryLine| line.path@,
                entries_for(
                    self.files@,
                    list@.subrange(0, i as int).filter(is_file).map_values(path_of),
                ),
                self.opened == old(self).opened,
                self.data_dir == old(self).data_dir,
                self.preview_component == old(self).preview_component,
                self.selected == old(self).selected,
                self.effect_runner == old(self).effect_runner,
                self.keybinds == old(self).keybinds,
            decreases list@.len() - i,
        {
            let line = &list[i];
            proof {
                let prefix = list@.subrange(0, i as int);
                assert(list@.subrange(0, i + 1) =~= prefix.push(list@[i as int]));
                assert(prefix.push(list@[i as int]).drop_last() =~= prefix);
                reveal(Seq::filter);
                if line.is_file {
                    assert(list@.subrange(0, i + 1).filter(is_file).map_values(path_of)
                        =~= prefix.filter(is_file).map_values(path_of).push(line.path@));
                }
            }
            if line.is_file {
                let file = FileHistory {
                    label: label_for_file(line.path.as_str()),
                    path: line.path.clone(),
                    parent_label: path_parent(line.path.as_str()),
                };
                self.files.push(file);
            }
            i += 1;
        }
        assert(list@.subrange(0, i as int) =~= list@);
    }

    /// The dialog with the list cursor on a row and the preview on its file.
    pub open spec fn cursor_on(self, index: usize) -> FileHistoryComponent {
        FileHistoryComponent {
            selected: Some(index),
            preview_component: PreviewComponent {
                path_buf: self.files@[index as int].path,
                contents: None,
                ..self.preview_component
            },
            ..self
        }
    }

    /// The row that the list cursor goes to on `Up` or `Down`, if it moves.
    pub open spec fn cursor_target(self, action: Action) -> Option<usize> {
        let len = self.files@.len();
        if len == 0 {
            None
        } else {
            match (action, self.selected) {
                (Action::Up, Some(index)) => if index == 0 || index > len {
                    None
                } else {
                    Some((index - 1) as usize)
                },
                (Action::Up, None) => Some((len - 1) as usize),
                (Action::Down, Some(index)) => if index + 1 >= len {
                    None
                } else {
                    Some((index + 1) as usize)
                },
                (Action::Down, None) => Some(0),
                _ => None,
            }
        }
    }

    /// What `Up` and `Down` do: the list cursor goes to its target, with a
    /// redraw; where it has none, nothing changes.
    pub open spec fn cursor_moved(
        self,
        action: Action,
        after: FileHistoryComponent,
        r: ActionResult,
        out_before: Outbox,
        out_after: Outbox,
    ) -> bool {
        match self.cursor_target(action) {
            Some(index) => {
                &&& after == self.cursor_on(index)
                &&& r == (ActionResult::Consumed { rerender: true })
                &&& out_after.extends(out_before, seq![], seq![], seq![Request::CancelPreview])
            },
            None => {
                &&& after == self
                &&& r == (ActionResult::Consumed { rerender: false })
                &&& out_after.same_as(out_before)
            },
        }
    }

    fn update_preview(&mut self, index: usize, out: &mut Outbox)
        requires
            index < old(self).files@.len(),
        ensures
            *final(self) == (FileHistoryComponent {
                selected: old(self).selected,
                ..old(self).cursor_on(index)
            }),
            final(out).extends(*old(out), seq![], seq![], seq![Request::CancelPreview]),
    {
        let path = self.files[index].path.clone();
        self.preview_component.change_dir(Some(path), out);
    }

    fn move_down(&mut self, out: &mut Outbox) -> (r: ActionResult)
        ensures
            old(self).cursor_moved(Action::Down, *final(self), r, *old(out), *final(out)),
    {
        let len = self.files.len();
        if len == 0 {
            return ActionResult::consumed(false);
        }
        if let Some(selected) = self.selected {
            if selected >= len - 1 {
                return ActionResult::consumed(false);
            }
            let i = selected + 1;
            self.update_preview(i, out);
            self.selected = Some(i);
            return ActionResult::consumed(true);
        }
        self.update_preview(0, out);
        self.selected = Some(0);
        ActionResult::consumed(true)
    }

    fn move_up(&mut self, out: &mut Outbox) -> (r: ActionResult)
        ensures
            old(self).cursor_moved(Action::Up, *final(self), r, *old(out), *final(out)),
    {
        let len = self.files.len();
        if len == 0 {
            return ActionResult::consumed(false);
        }
        if let Some(selected) = self.selected {
            if selected == 0 || selected > len {
                return ActionResult::consumed(false);
            }
            let i = selected - 1;
            self.update_preview(i, out);
            self.selected = Some(i);
            return ActionResult::consumed(true);
        }
        let last_index = len - 1;
        self.update_preview(last_index, out);
        self.selected = Some(last_index);
        ActionResult::consumed(true)
    }

    /// The file that confirming opens: the one that the list cursor is on.
    pub open spec fn picked(self) -> Option<String> {
        match self.selected {
            Some(index) => if index < self.files@.len() {
                Some(self.files@[index as int].path)
            } else {
                None
            },
            None => None,
        }
    }

    /// The dialog once closed.
    pub open spec fn closed(self, after: FileHistoryComponent) -> bool {
        &&& !after.opened
        &&& after.files@.len() == 0
        &&& after.data_dir == self.data_dir
        &&& after.preview_component == self.preview_component
        &&& after.selected == self.selected
        &&& after.effect_runner == self.effect_runner
        &&& after.keybinds == self.keybinds
    }

    /// What `Confirm` does: the file that the list cursor is on is announced
    /// as the selected path, to be opened, and the dialog closes. With the
    /// list cursor on no file the command is not consumed.
    pub open spec fn confirmed(
        self,
        after: FileHistoryComponent,
        r: ActionResult,
        out_before: Outbox,
        out_after: Outbox,
    ) -> bool {
        match self.picked() {
            Some(path) => {
                &&& self.closed(after)
                &&& r == (ActionResult::Consumed { rerender: true })
                &&& out_after.extends(
                    out_before,
                    seq![],
                    seq![AsyncAction::SelectPath(path, SelectorType::PickFile)],
                    seq![],
                )
            },
            None => {
                &&& after == self
                &&& r == (ActionResult::NotConsumed { rerender: false })
                &&& out_after.same_as(out_before)
            },
        }
    }

    fn select(&mut self, out: &mut Outbox) -> (r: ActionResult)
        ensures
            old(self).confirmed(*final(self), r, *old(out), *final(out)),
    {
        let selected = match self.selected {
            None => {
                return ActionResult::not_consumed(false);
            },
            Some(selected) => selected,
        };
        if selected >= self.files.len() {
            return ActionResult::not_consumed(false);
        }
        let path = self.files[selected].path.clone();
        out.send_async(AsyncAction::SelectPath(path, SelectorType::PickFile));
        self.close();
        ActionResult::consumed(true)
    }

    /// What `Cancel` does: it takes the list cursor off its row, or else
    /// closes the dialog.
    pub open spec fn cancelled(self, after: FileHistoryComponent) -> bool {
        if self.selected is Some {
            after == (FileHistoryComponent { selected: None, ..self })
        } else {
            self.closed(after)
        }
    }

    fn cancel(&mut self) -> (r: ActionResult)
        ensures
            old(self).cancelled(*final(self)),
            r == (ActionResult::Consumed { rerender: true }),
    {
        if self.selected.is_some() {
            self.selected = None;
        } else {
            self.close();
        }
        ActionResult::consumed(true)
    }

    /// Whether `after` is this dialog with the data directory and the
    /// labels of the keys named in its frame taken from the configuration.
    pub open spec fn registered(
        self,
        config: Config,
        parent_comp: AppComponent,
        after: FileHistoryComponent,
    ) -> bool {
        &&& after.data_dir == config.config.data_dir
        &&& after.keybinds.up@ == FileHistoryKeybinds::label_of(config, parent_comp, Action::Up)
        &&& after.keybinds.down@ == FileHistoryKeybinds::label_of(
            config,
            parent_comp,
            Action::Down,
        )
        &&& after.keybinds.confirm@ == FileHistoryKeybinds::label_of(
            config,
            parent_comp,
            Action::Confirm,
        )
        &&& after.keybinds.cancel@ == FileHistoryKeybinds::label_of(
            config,
            parent_comp,
            Action::Cancel,
        )
        &&& after.opened == self.opened
        &&& after.files == self.files
        &&& after.preview_component == self.preview_component
        &&& after.selected == self.selected
        &&& after.effect_runner == self.effect_runner
    }

    /// Takes the data directory and the labels of the keys named in the frame.
    pub fn register_config(&mut self, config: &Config, parent_comp: &AppComponent)
        ensures
            old(self).registered(*config, *parent_comp, *final(self)),
    {
        self.data_dir = config.config.data_dir.clone();
        self.keybinds.register_keybinds(parent_comp, config);
    }

    /// While on show, the dialog claims the key bindings of file dialogs.
    pub fn override_keybind_id(&self) -> (r: Option<AppComponent>)
        ensures
            r == if self.opened {
                Some(AppComponent::FileDialog)
            } else {
                None
            },
    {
        if self.opened {
            Some(AppComponent::FileDialog)
        } else {
            None
        }
    }

    /// What a command does to a dialog on show: everything is consumed.
    pub open spec fn handled(
        self,
        action: Action,
        after: FileHistoryComponent,
        r: ActionResult,
        out_before: Outbox,
        out_after: Outbox,
    ) -> bool {
        match action {
            Action::TogglePreview | Action::ReloadPreview => {
                &&& after == (FileHistoryComponent {
                    preview_component: self.preview_component.after(action),
                    ..self
                })
                &&& r == (ActionResult::Consumed { rerender: true })
                &&& out_after.extends(
                    out_before,
                    seq![],
                    seq![],
                    self.preview_component.asked(action),
                )
            },
            Action::Resize(_, _) => {
                &&& after == (FileHistoryComponent {
                    preview_component: self.preview_component.after(action),
                    ..self
                })
                &&& r == (ActionResult::Consumed { rerender: true })
                &&& out_after.extends(
                    out_before,
                    seq![],
                    seq![],
                    self.preview_component.asked(action),
                )
            },
            Action::Up | Action::Down => self.cursor_moved(action, after, r, out_before, out_after),
            Action::Confirm => self.confirmed(after, r, out_before, out_after),
            Action::Cancel => self.cancelled(after) && r == (ActionResult::Consumed {
                rerender: true,
            }) && out_after.same_as(out_before),
            _ => after == self && r == (ActionResult::Consumed { rerender: false })
                && out_after.same_as(out_before),
        }
    }

    /// Offers a command to the dialog. A hidden dialog consumes nothing and
    /// changes nothing.
    pub fn handle_action(&mut self, action: &Action, out: &mut Outbox) -> (r: ActionResult)
        ensures
            !old(self).opened ==> *final(self) == *old(self) && *final(out) == *old(out) && r == (
            ActionResult::NotConsumed { rerender: false }),
            old(self).opened ==> old(self).handled(
                *action,
                *final(self),
                r,
                *old(out),
                *final(out),
            ),
            final(out).actions@ == old(out).actions@,
    {
        if !self.showing() {
            return ActionResult::not_consumed(false);
        }
        let prev = self.preview_component.handle_action(action, out);
        if prev.is_consumed() {
            return prev;
        }
        let r = match action {
            Action::Up => self.move_up(out),
            Action::Down => self.move_down(out),
            Action::Confirm => self.select(out),
            Action::Cancel => self.cancel(),
            _ => ActionResult::consumed(false),
        };
        r.after(prev)
    }

    /// While on show, the preview takes the contents that were read for it.
    pub fn handle_async_action(&mut self, action: &AsyncAction) -> (r: ActionResult)
        ensures
            match *action {
                AsyncAction::PreviewContents(contents) if old(self).opened => {
                    &&& *final(self) == (FileHistoryComponent {
                        preview_component: PreviewComponent {
                            contents,
                            ..old(self).preview_component
                        },
                        ..*old(self)
                    })
                    &&& r == (ActionResult::Consumed { rerender: true })
                },
                _ => *final(self) == *old(self) && r == (ActionResult::NotConsumed {
                    rerender: false,
                }),
            },
    {
        if !self.showing() {
            return ActionResult::not_consumed(false);
        }
        self.preview_component.handle_async_action(action)
    }
}

} // verus!
