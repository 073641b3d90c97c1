use vstd::prelude::*;

use crate::action::{Action, ActionResult, AsyncAction, SelectorType};
use crate::chars::{lowercase, lowercased};
use crate::component::AppComponent;
use crate::path_child::{extension_or_empty, icon_of, PathChild};
use crate::paths::{joined, parent_of, path_join, path_parent, reads_as};
use crate::preview::PreviewComponent;
use crate::runtime::{DirectoryEntry, EffectRunner, Outbox, Request, Transition};
use crate::selector_input::{entered, FileSelectorInput};
use crate::text::CursorStep;

verus! {

/// What a row of a listing shows.
pub enum Row {
    File { name: Seq<char>, icon: Option<Seq<char>> },
    Folder(Seq<char>),
    MoveUp,
}

impl View for PathChild {
    type V = Row;

    open spec fn view(&self) -> Row {
        match *self {
            PathChild::File { full_file_name, icon } => Row::File {
                name: full_file_name@,
                icon: match icon {
                    Some(i) => Some(i@),
                    None => None,
                },
            },
            PathChild::Folder(name) => Row::Folder(name@),
            PathChild::MoveUp => Row::MoveUp,
        }
    }
}

/// What the rows show.
pub open spec fn rows(children: Seq<PathChild>) -> Seq<Row> {
    children.map_values(|c: PathChild| c@)
}

/// The rows for the children of a directory, in their order: a folder for
/// each directory and, where files are shown, a file for everything else.
pub open spec fn rows_of(path: Seq<char>, entries: Seq<DirectoryEntry>, show_files: bool) -> Seq<
    Row,
>
    decreases entries.len(),
{
    if entries.len() == 0 {
        seq![]
    } else {
        let entry = entries.last();
        let before = rows_of(path, entries.drop_last(), show_files);
        if entry.is_dir {
            before.push(Row::Folder(entry.name@))
        } else if show_files {
            before.push(
                Row::File {
                    name: entry.name@,
                    icon: icon_of(entry.name@, extension_or_empty(joined(path, entry.name@))),
                },
            )
        } else {
            before
        }
    }
}

/// The listing of a directory: the row that leads upwards, then its children.
pub open spec fn listing(path: Seq<char>, entries: Seq<DirectoryEntry>, show_files: bool) -> Seq<
    Row,
> {
    seq![Row::MoveUp] + rows_of(path, entries, show_files)
}

/// The rows that pass a filter, which is compared in lower case.
pub open spec fn passing(children: Seq<PathChild>, filter: Seq<char>) -> Seq<PathChild> {
    children.filter(|c: PathChild| c.passes(lowercased(filter)))
}

/// The path that a row stands for under a directory; the row that leads
/// upwards stands for none.
pub open spec fn path_under(directory: Seq<char>, child: PathChild) -> Option<Seq<char>> {
    match child {
        PathChild::File { full_file_name, icon } => Some(joined(directory, full_file_name@)),
        PathChild::Folder(name) => Some(joined(directory, name@)),
        PathChild::MoveUp => None,
    }
}

/// The dialog that lists a directory and lets the user pick a file, a
/// folder, or the place of a new file. It is hidden until shown, and
/// consumes commands only while on show.
#[derive(Debug)]
pub struct FileSelectorComponent {
    pub current_path: String,
    pub children: Vec<PathChild>,
    pub filtered_paths: Option<Vec<PathChild>>,
    pub input: FileSelectorInput,
    pub visible: bool,
    /// The row that the list cursor is on.
    pub selected: Option<usize>,
    pub preview_component: PreviewComponent,
    pub effect_runner: EffectRunner,
}

impl FileSelectorComponent {
    /// Whether this is a selector as it is made: hidden, on no directory,
    /// with no rows, no filter and no input, for opening a file, the list
    /// cursor on no row, the preview switched on and on no file, and no
    /// transition playing.
    pub open spec fn is_new(self) -> bool {
        &&& !self.visible
        &&& self.current_path@.len() == 0
        &&& self.children@.len() == 0
        &&& self.filtered_paths is None
        &&& self.selected is None
        &&& self.input.name() is None
        &&& self.input.filtering() is None
        &&& self.input.selector_type == SelectorType::PickFile
        &&& self.preview_component.path_buf@.len() == 0
        &&& self.preview_component.contents is None
        &&& self.preview_component.lines == 0
        &&& self.preview_component.visible
        &&& !self.effect_runner.running()
    }

    /// A hidden selector that has listed nothing.
    pub fn new() -> (r: Self)
        ensures
            r.is_new(),
    {
        FileSelectorComponent {
            current_path: String::new(),
            children: Vec::new(),
            filtered_paths: None,
            input: FileSelectorInput::new(),
            visible: false,
            selected: None,
            preview_component: PreviewComponent::default(),
            effect_runner: EffectRunner::new(),
        }
    }

    /// The rows on show: those that pass the filter while one is in force,
    /// else all.
    pub open spec fn active(self) -> Seq<PathChild> {
        match self.filtered_paths {
            Some(list) => list@,
            None => self.children@,
        }
    }

    /// Everything but the inputs, the list cursor, the preview and the filtered rows is as in `before`.
    pub open spec fn same_listing(self, before: FileSelectorComponent) -> bool {
        &&& self.current_path == before.current_path
        &&& self.children == before.children
        &&& self.visible == before.visible
        &&& self.effect_runner == before.effect_runner
    }

    /// Puts the selector on show for picking as `selector_type` says, and
    /// asks for the listing of `dir`, or of `fallback` where `dir` is no directory.
    pub fn show(
        &mut self,
        dir: String,
        fallback: Option<String>,
        selector_type: SelectorType,
        out: &mut Outbox,
    )
        ensures
            final(self).visible,
            final(self).input.selector_type == selector_type,
            final(self).input.filtering() == if selector_type == SelectorType::NewFile {
                old(self).input.filtering()
            } else {
                Some(crate::text::TextState::empty())
            },
            final(self).input.name() == if selector_type == SelectorType::NewFile {
                Some(crate::text::TextState::empty())
            } else {
                old(self).input.name()
            },
            final(self).current_path == old(self).current_path,
            final(self).children == old(self).children,
            final(self).filtered_paths == old(self).filtered_paths,
            final(self).selected == old(self).selected,
            final(self).preview_component == old(self).preview_component,
            final(self).effect_runner.running(),
            final(out).extends(
                *old(out),
                seq![],
                seq![AsyncAction::StartAnimation],
                seq![
                    Request::ListDirectory { path: dir, fallback },
                    Request::PlayTransition(Transition::DialogEnter),
                ],
            ),
    {
        self.input.change_type(selector_type);
        self.visible = true;
        out.request(Request::ListDirectory { path: dir, fallback });
        self.effect_runner.add_effect(Transition::DialogEnter, out);
    }

    /// Asks for the listing of a directory. The selector turns to it when
    /// the listing arrives.
    pub fn select_dir(&mut self, dir: String, out: &mut Outbox)
        ensures
            *final(self) == *old(self),
            final(out).extends(
                *old(out),
                seq![],
                seq![],
                seq![Request::ListDirectory { path: dir, fallback: None }],
            ),
    {
        out.request(Request::ListDirectory { path: dir, fallback: None });
    }

    /// What the listing of a directory does to the selector.
    pub open spec fn listed(
        self,
        path: String,
        entries: Option<Vec<DirectoryEntry>>,
        after: FileSelectorComponent,
        out_before: Outbox,
        out_after: Outbox,
    ) -> bool {
        match entries {
            None => after == self && out_after.same_as(out_before),
            Some(list) => {
                &&& after.current_path == path
                &&& rows(after.children@) == listing(
                    path@,
                    list@,
                    self.input.selector_type == SelectorType::PickFile,
                )
                &&& after.selected is None
                &&& after.filters_by_input()
                &&& after.input == self.input
                &&& after.visible == self.visible
                &&& after.effect_runner == self.effect_runner
                &&& after.preview_component == (PreviewComponent {
                    contents: None,
                    ..self.preview_component
                })
                &&& out_after.extends(out_before, seq![], seq![], seq![Request::CancelPreview])
            },
        }
    }

    /// Takes the listing of a directory: the selector turns to it, with the
    /// list cursor on no row and no preview, and filters the rows anew. A
    /// directory that could not be read changes nothing.
    pub fn directory_listed(
        &mut self,
        path: &String,
        entries: &Option<Vec<DirectoryEntry>>,
        out: &mut Outbox,
    )
        ensures
            old(self).listed(*path, *entries, *final(self), *old(out), *final(out)),
    {
        let list = match entries {
            None => {
                return ;
            },
            Some(list) => list,
        };
        self.preview_component.change_dir(None, out);
        self.selected = None;
        let show_files = self.input.selector_type().show_files();
        let mut children: Vec<PathChild> = Vec::new();
        children.push(PathChild::MoveUp);
        let mut i: usize = 0;
        assert(rows(children@) =~= listing(path@, list@.subrange(0, 0), show_files));
        while i < list.len()
            invariant
                i <= list@.len(),
                rows(children@) == listing(path@, list@.subrange(0, i as int), show_files),
            decreases list@.len() - i,
        {
            let entry = &list[i];
            let ghost before = children@;
            proof {
                let next = list@.subrange(0, i + 1);
                assert(next.drop_last() =~= list@.subrange(0, i as int));
                assert(next.last() == list@[i as int]);
            }
            if entry.is_dir {
                children.push(PathChild::Folder(entry.name.clone()));
                assert(rows(children@) =~= rows(before).push(Row::Folder(entry.name@)));
            } else if show_files {
                let full = path_join(path.as_str(), entry.name.as_str());
                let child = PathChild::file(entry.name.clone(), full.as_str());
                children.push(child);
                assert(rows(children@) =~= rows(before).push(child@));
            }
            i += 1;
            assert(rows(children@) =~= listing(path@, list@.subrange(0, i as int), show_files));
        }
        assert(list@.subrange(0, i as int) =~= list@);
        self.children = children;
        self.current_path = path.clone();
        self.refresh_filtered_items();
    }

    pub fn close(&mut self)
        ensures
            !final(self).visible,
            final(self).input.name() is None,
            final(self).input.filtering() is None,
            final(self).input.selector_type == old(self).input.selector_type,
            final(self).selected is None,
            final(self).current_path == old(self).current_path,
            final(self).children == old(self).children,
            final(self).filtered_paths == old(self).filtered_paths,
            final(self).preview_component == old(self).preview_component,
            final(self).effect_runner == old(self).effect_runner,
    {
        self.visible = false;
        self.input.clear();
        self.selected = None;
    }

    /// The row on show at an index.
    fn active_child(&self, index: usize) -> (r: Option<&PathChild>)
        ensures
            match r {
                Some(child) => index < self.active().len() && *child == self.active()[index as int],
                None => index >= self.active().len(),
            },
    {
        match &self.filtered_paths {
            Some(list) => if index < list.len() {
                Some(&list[index])
            } else {
                None
            },
            None => if index < self.children.len() {
                Some(&self.children[index])
            } else {
                None
            },
        }
    }

    /// The path of the row at an index, where the row stands for one.
    pub open spec fn path_at(self, index: int) -> Option<Seq<char>> {
        if 0 <= index < self.active().len() {
            path_under(self.current_path@, self.active()[index])
        } else {
            None
        }
    }

    fn child_path(&self, index: usize) -> (r: Option<String>)
        ensures
            reads_as(r, self.path_at(index as int)),
    {
        match self.active_child(index) {
            Some(PathChild::File { full_file_name, icon: _ }) => Some(
                path_join(self.current_path.as_str(), full_file_name.as_str()),
            ),
            Some(PathChild::Folder(name)) => Some(
                path_join(self.current_path.as_str(), name.as_str()),
            ),
            _ => None,
        }
    }

    /// The path that is picked while the list cursor is on no row: the
    /// directory on show, with the typed name under it where one was typed.
    pub open spec fn typed_path(self) -> Seq<char> {
        match entered(self.input.name()) {
            Some(name) => joined(self.current_path@, name),
            None => self.current_path@,
        }
    }

    /// What confirming does, `folder` telling whether a folder may be the choice.
    pub open spec fn picks(self, folder: bool) -> Pick {
        match self.selected {
            None => Pick::Path(self.typed_path()),
            Some(index) => if index >= self.active().len() {
                Pick::Nothing
            } else {
                match self.active()[index as int] {
                    PathChild::File { full_file_name, icon } => Pick::PathAndClose(
                        joined(self.current_path@, full_file_name@),
                    ),
                    PathChild::Folder(name) => if folder && self.input.selector_type
                        != SelectorType::PickFile {
                        Pick::PathAndClose(joined(self.current_path@, name@))
                    } else {
                        Pick::Descend(joined(self.current_path@, name@))
                    },
                    PathChild::MoveUp => match parent_of(self.current_path@) {
                        Some(parent) => Pick::Descend(parent),
                        None => Pick::Nothing,
                    },
                }
            },
        }
    }

    /// Confirms the row that the list cursor is on, or the typed name where
    /// it is on none. A file, or a folder that may be the choice, is
    /// announced as the selected path and closes the selector; any other
    /// folder, and the row that leads upwards, is listed instead.
    pub fn select(&mut self, folder: bool, out: &mut Outbox) -> (r: ActionResult)
        ensures
            old(self).confirmed(folder, *final(self), r, *old(out), *final(out)),
    {
        let index = match self.selected {
            None => {
                let path = match self.input.current_text_area() {
                    Some(name) => path_join(self.current_path.as_str(), name.as_str()),
                    None => self.current_path.clone(),
                };
                out.send_async(AsyncAction::SelectPath(path, self.input.selector_type()));
                return ActionResult::consumed(true);
            },
            Some(index) => index,
        };
        let can_pick_folder = folder && self.input.selector_type().can_pick_folder();
        let path = match self.active_child(index) {
            None => {
                return ActionResult::consumed(false);
            },
            Some(PathChild::File { full_file_name, icon: _ }) => path_join(
                self.current_path.as_str(),
                full_file_name.as_str(),
            ),
            Some(PathChild::Folder(name)) => {
                let path = path_join(self.current_path.as_str(), name.as_str());
                if !can_pick_folder {
                    self.select_dir(path, out);
                    return ActionResult::consumed(true);
                }
                path
            },
            Some(PathChild::MoveUp) => {
                return match path_parent(self.current_path.as_str()) {
                    Some(parent) => {
                        self.select_dir(parent, out);
                        ActionResult::consumed(true)
                    },
                    None => ActionResult::consumed(false),
                };
            },
        };
        self.close();
        out.send_async(AsyncAction::SelectPath(path, self.input.selector_type()));
        ActionResult::consumed(true)
    }

    /// The selector once closed: hidden, its inputs gone, the list cursor on no row.
    pub open spec fn closed(self, after: FileSelectorComponent) -> bool {
        &&& !after.visible
        &&& after.input.name() is None
        &&& after.input.filtering() is None
        &&& after.input.selector_type == self.input.selector_type
        &&& after.selected is None
        &&& after.current_path == self.current_path
        &&& after.children == self.children
        &&& after.filtered_paths == self.filtered_paths
        &&& after.preview_component == self.preview_component
        &&& after.effect_runner == self.effect_runner
    }

    /// Whether the filtered rows are those that the typed filter lets pass.
    pub open spec fn filters_by_input(self) -> bool {
        match entered(self.input.filtering()) {
            Some(filter) => self.filtered_paths is Some && self.filtered_paths->0@ == passing(
                self.children@,
                filter,
            ),
            None => self.filtered_paths is None,
        }
    }

    /// Filters the rows by what is typed into the filter. The answer asks
    /// for a redraw where a filter is in force.
    fn refresh_filtered_items(&mut self) -> (r: ActionResult)
        ensures
            final(self).filters_by_input(),
            final(self).same_listing(*old(self)),
            final(self).input == old(self).input,
            final(self).selected == old(self).selected,
            final(self).preview_component == old(self).preview_component,
            r == (ActionResult::Consumed { rerender: final(self).filtered_paths is Some }),
    {
        self.filtered_paths = None;
        let filter = match self.input.current_filter() {
            None => {
                return ActionResult::consumed(false);
            },
            Some(filter) => filter,
        };
        let filter = lowercase(filter.as_str());
        let mut list: Vec<PathChild> = Vec::new();
        let mut i: usize = 0;
        let ghost pred = |c: PathChild| c.passes(filter@);
        while i < self.children.len()
            invariant
                i <= self.children@.len(),
                pred == |c: PathChild| c.passes(filter@),
                list@ == self.children@.subrange(0, i as int).filter(pred),
            decreases self.children@.len() - i,
        {
            let child = &self.children[i];
            proof {
                let prefix = self.children@.subrange(0, i as int);
                assert(self.children@.subrange(0, i + 1) =~= prefix.push(self.children@[i as int]));
                assert(prefix.push(self.children@[i as int]).drop_last() =~= prefix);
                reveal(Seq::filter);
            }
            if child.filter(filter.as_str()) {
                list.push(child.clone());
            }
            i += 1;
        }
        assert(self.children@.subrange(0, i as int) =~= self.children@);
        self.filtered_paths = Some(list);
        ActionResult::consumed(true)
    }

    /// The selector after typing went to its inputs: where an input took
    /// it, the rows are filtered anew.
    pub open spec fn retyped(self, after: FileSelectorComponent, took: bool, r: ActionResult) -> bool {
        &&& after.same_listing(self)
        &&& after.selected == self.selected
        &&& after.preview_component == self.preview_component
        &&& if took {
            after.filters_by_input() && r == (ActionResult::Consumed { rerender: true })
        } else {
            after.filtered_paths == self.filtered_paths && r == (ActionResult::NotConsumed {
                rerender: false,
            })
        }
    }

    /// Types a character into the name or the filter.
    pub fn handle_character(&mut self, character: char) -> (r: ActionResult)
        ensures
            old(self).input.edited(
                final(self).input,
                crate::text::after_insert_char(old(self).input.name()->0, character),
                crate::text::after_insert_char(old(self).input.filtering()->0, character),
            ),
            old(self).retyped(*final(self), old(self).input.accepts_typing(), r),
    {
        if self.input.handle_character(character) {
            self.refresh_filtered_items();
            return ActionResult::consumed(true);
        }
        ActionResult::default()
    }

    /// Deletes the character before the cursor of the name or the filter.
    pub fn handle_backspace(&mut self) -> (r: ActionResult)
        ensures
            old(self).input.edited(
                final(self).input,
                crate::text::after_backspace(old(self).input.name()->0),
                crate::text::after_backspace(old(self).input.filtering()->0),
            ),
            old(self).retyped(
                *final(self),
                final(self).input.typed_lines() != old(self).input.typed_lines(),
                r,
            ),
    {
        if self.input.backspace() {
            self.refresh_filtered_items();
            return ActionResult::consumed(true);
        }
        ActionResult::default()
    }

    /// Deletes the character under the cursor of the name or the filter.
    pub fn handle_delete(&mut self) -> (r: ActionResult)
        ensures
            old(self).input.edited(
                final(self).input,
                crate::text::after_delete(old(self).input.name()->0),
                crate::text::after_delete(old(self).input.filtering()->0),
            ),
            old(self).retyped(
                *final(self),
                final(self).input.typed_lines() != old(self).input.typed_lines(),
                r,
            ),
    {
        if self.input.delete() {
            self.refresh_filtered_items();
            return ActionResult::consumed(true);
        }
        ActionResult::default()
    }

    /// The selector with the cursor of its input moved.
    pub open spec fn input_moved(self, after: FileSelectorComponent, step: CursorStep) -> bool {
        &&& after.same_listing(self)
        &&& after.selected == self.selected
        &&& after.preview_component == self.preview_component
        &&& after.filtered_paths == self.filtered_paths
        &&& after.input.selector_type == self.input.selector_type
        &&& after.input.filtering() == match self.input.filtering() {
            Some(state) => Some(state.stepped(step)),
            None => None,
        }
        &&& after.input.name() == match (self.input.filtering(), self.input.name()) {
            (None, Some(state)) => Some(state.stepped(step)),
            _ => self.input.name(),
        }
    }

    fn move_cursor_right(&mut self) -> (r: ActionResult)
        ensures
            old(self).input_moved(*final(self), CursorStep::Forward),
            r == (ActionResult::Consumed { rerender: true }),
    {
        self.input.move_cursor(CursorStep::Forward);
        ActionResult::consumed(true)
    }

    fn move_cursor_left(&mut self) -> (r: ActionResult)
        ensures
            old(self).input_moved(*final(self), CursorStep::Back),
            r == (ActionResult::Consumed { rerender: true }),
    {
        self.input.move_cursor(CursorStep::Back);
        ActionResult::consumed(true)
    }

    /// The selector with the list cursor on a row: the preview turns to the
    /// path of the row, where it stands for one, and drops what it showed.
    pub open spec fn cursor_on(self, after: FileSelectorComponent, index: usize) -> bool {
        &&& after.same_listing(self)
        &&& after.input == self.input
        &&& after.filtered_paths == self.filtered_paths
        &&& after.selected == Some(index)
        &&& after.preview_component.path_buf@ == match self.path_at(index as int) {
            Some(path) => path,
            None => self.preview_component.path_buf@,
        }
        &&& after.preview_component.contents is None
        &&& after.preview_component.lines == self.preview_component.lines
        &&& after.preview_component.visible == self.preview_component.visible
    }

    fn update_preview(&mut self, index: usize, out: &mut Outbox)
        ensures
            old(self).cursor_on(
                FileSelectorComponent { selected: Some(index), ..*final(self) },
                index,
            ),
            final(self).selected == old(self).selected,
            final(out).extends(*old(out), seq![], seq![], seq![Request::CancelPreview]),
    {
        let path = self.child_path(index);
        self.preview_component.change_dir(path, out);
    }

    /// The row that the list cursor goes to on `Up` or `Down`, if it moves:
    /// one row up or down, and from no row to the last or the first.
    pub open spec fn cursor_target(self, action: Action) -> Option<usize> {
        let len = self.active().len();
        match (action, self.selected) {
            (Action::Up, Some(index)) => if index == 0 {
                None
            } else {
                Some((index - 1) as usize)
            },
            (Action::Up, None) => if len > 0 {
                Some((len - 1) as usize)
            } else {
                None
            },
            (Action::Down, Some(index)) => if index + 1 >= len {
                None
            } else {
                Some((index + 1) as usize)
            },
            (Action::Down, None) => if len > 0 {
                Some(0)
            } else {
                None
            },
            _ => None,
        }
    }

    /// What `Up` and `Down` do: the list cursor goes to its target, with a
    /// redraw; where it has none, nothing changes, and the command is
    /// consumed exactly when the list cursor is on a row.
    pub open spec fn cursor_moved(
        self,
        action: Action,
        after: FileSelectorComponent,
        r: ActionResult,
        out_before: Outbox,
        out_after: Outbox,
    ) -> bool {
        match self.cursor_target(action) {
            Some(index) => {
                &&& self.cursor_on(after, index)
                &&& r == (ActionResult::Consumed { rerender: true })
                &&& out_after.extends(out_before, seq![], seq![], seq![Request::CancelPreview])
            },
            None => {
                &&& after == self
                &&& out_after.same_as(out_before)
                &&& r == if self.selected is Some {
                    (ActionResult::Consumed { rerender: false })
                } else {
                    (ActionResult::NotConsumed { rerender: false })
                }
            },
        }
    }

    fn move_cursor_up(&mut self, out: &mut Outbox) -> (r: ActionResult)
        ensures
            old(self).cursor_moved(Action::Up, *final(self), r, *old(out), *final(out)),
    {
        let len = match &self.filtered_paths {
            Some(list) => list.len(),
            None => self.children.len(),
        };
        if let Some(index) = self.selected {
            if index == 0 {
                return ActionResult::consumed(false);
            }
            let i = index - 1;
            self.update_preview(i, out);
            self.selected = Some(i);
            return ActionResult::consumed(true);
        } else if len > 0 {
            let i = len - 1;
            self.update_preview(i, out);
            self.selected = Some(i);
            return ActionResult::consumed(true);
        }
        ActionResult::default()
    }

    fn move_cursor_down(&mut self, out: &mut Outbox) -> (r: ActionResult)
        ensures
            old(self).cursor_moved(Action::Down, *final(self), r, *old(out), *final(out)),
    {
        let len = match &self.filtered_paths {
            Some(list) => list.len(),
            None => self.children.len(),
        };
        if let Some(index) = self.selected {
            if index >= len || index + 1 >= len {
                return ActionResult::consumed(false);
            }
            let i = index + 1;
            self.update_preview(i, out);
            self.selected = Some(i);
            return ActionResult::consumed(true);
        } else if len > 0 {
            self.update_preview(0, out);
            self.selected = Some(0);
            return ActionResult::consumed(true);
        }
        ActionResult::default()
    }

    /// What `Cancel` does, one stage at a time and never two, in every
    /// mode: it clears the filter where one is in force, and all rows are
    /// on show again; else it takes the list cursor off its row; else it
    /// closes the selector.
    pub open spec fn cancelled(
        self,
        after: FileSelectorComponent,
        out_before: Outbox,
        out_after: Outbox,
    ) -> bool {
        if self.input.filter_in_force() {
            &&& after.same_listing(self)
            &&& after.selected == self.selected
            &&& after.preview_component == self.preview_component
            &&& after.input.selector_type == self.input.selector_type
            &&& after.input.name() == self.input.name()
            &&& after.input.filtering() == self.input.cleared_filter()
            &&& after.filtered_paths is None
            &&& out_after.same_as(out_before)
        } else if self.selected is Some {
            &&& after == (FileSelectorComponent {
                selected: None,
                preview_component: PreviewComponent { contents: None, ..self.preview_component },
                ..self
            })
            &&& out_after.extends(out_before, seq![], seq![], seq![Request::CancelPreview])
        } else {
            &&& self.closed(after)
            &&& out_after.same_as(out_before)
        }
    }

    fn handle_cancel(&mut self, out: &mut Outbox) -> (r: ActionResult)
        ensures
            old(self).cancelled(*final(self), *old(out), *final(out)),
            r == (ActionResult::Consumed { rerender: true }),
    {
        if self.input.cancel() {
            self.refresh_filtered_items();
            return ActionResult::consumed(true);
        }
        if self.selected.is_some() {
            self.preview_component.change_dir(None, out);
            self.selected = None;
            return ActionResult::consumed(true);
        }
        self.close();
        ActionResult::consumed(true)
    }

    /// What confirming does to the selector and the outbox.
    pub open spec fn confirmed(
        self,
        folder: bool,
        after: FileSelectorComponent,
        r: ActionResult,
        out_before: Outbox,
        out_after: Outbox,
    ) -> bool {
        match self.picks(folder) {
            Pick::Nothing => {
                &&& after == self
                &&& out_after.same_as(out_before)
                &&& r == (ActionResult::Consumed { rerender: false })
            },
            Pick::Path(path) => {
                &&& after == self
                &&& r == (ActionResult::Consumed { rerender: true })
                &&& exists|picked: String|
                    #![auto]
                    picked@ == path && out_after.extends(
                        out_before,
                        seq![],
                        seq![AsyncAction::SelectPath(picked, self.input.selector_type)],
                        seq![],
                    )
            },
            Pick::PathAndClose(path) => {
                &&& self.closed(after)
                &&& r == (ActionResult::Consumed { rerender: true })
                &&& exists|picked: String|
                    #![auto]
                    picked@ == path && out_after.extends(
                        out_before,
                        seq![],
                        seq![AsyncAction::SelectPath(picked, self.input.selector_type)],
                        seq![],
                    )
            },
            Pick::Descend(path) => {
                &&& after == self
                &&& r == (ActionResult::Consumed { rerender: true })
                &&& exists|dir: String|
                    #![auto]
                    dir@ == path && out_after.extends(
                        out_before,
                        seq![],
                        seq![],
                        seq![Request::ListDirectory { path: dir, fallback: None }],
                    )
            },
        }
    }

    /// What a command does to a selector on show.
    pub open spec fn handled(
        self,
        action: Action,
        after: FileSelectorComponent,
        r: ActionResult,
        out_before: Outbox,
        out_after: Outbox,
    ) -> bool {
        match action {
            Action::TogglePreview | Action::ReloadPreview => {
                &&& after == (FileSelectorComponent {
                    preview_component: self.preview_component.after(action),
                    ..self
                })
                &&& r == (ActionResult::Consumed { rerender: true })
                &&& out_after.extends(
                    out_before,
                    seq![],
                    seq![],
                    self.preview_component.asked(action),
                )
            },
            Action::Resize(_, _) => {
                &&& after == (FileSelectorComponent {
                    preview_component: self.preview_component.after(action),
                    ..self
                })
                &&& r == (ActionResult::NotConsumed { rerender: true })
                &&& out_after.extends(
                    out_before,
                    seq![],
                    seq![],
                    self.preview_component.asked(action),
                )
            },
            Action::Up | Action::Down => self.cursor_moved(action, after, r, out_before, out_after),
            Action::Left => self.input_moved(after, CursorStep::Back) && r == (
            ActionResult::Consumed { rerender: true }) && out_after.same_as(out_before),
            Action::Right => self.input_moved(after, CursorStep::Forward) && r == (
            ActionResult::Consumed { rerender: true }) && out_after.same_as(out_before),
            Action::Confirm => self.confirmed(false, after, r, out_before, out_after),
            Action::Select => self.confirmed(true, after, r, out_before, out_after),
            Action::Cancel => self.cancelled(after, out_before, out_after) && r == (
            ActionResult::Consumed { rerender: true }),
            Action::Backspace => {
                &&& self.input.edited(
                    after.input,
                    crate::text::after_backspace(self.input.name()->0),
                    crate::text::after_backspace(self.input.filtering()->0),
                )
                &&& self.retyped(after, after.input.typed_lines() != self.input.typed_lines(), r)
                &&& out_after.same_as(out_before)
            },
            Action::Delete => {
                &&& self.input.edited(
                    after.input,
                    crate::text::after_delete(self.input.name()->0),
                    crate::text::after_delete(self.input.filtering()->0),
                )
                &&& self.retyped(after, after.input.typed_lines() != self.input.typed_lines(), r)
                &&& out_after.same_as(out_before)
            },
            Action::Character(c) => {
                &&& self.input.edited(
                    after.input,
                    crate::text::after_insert_char(self.input.name()->0, c),
                    crate::text::after_insert_char(self.input.filtering()->0, c),
                )
                &&& self.retyped(after, self.input.accepts_typing(), r)
                &&& out_after.same_as(out_before)
            },
            Action::Search => {
                &&& out_after.same_as(out_before)
                &&& if self.input.selector_type == SelectorType::PickFolder {
                    after == self && r == (ActionResult::NotConsumed { rerender: false })
                } else {
                    &&& after.same_listing(self)
                    &&& after.selected == self.selected
                    &&& after.preview_component == self.preview_component
                    &&& after.filtered_paths == self.filtered_paths
                    &&& after.input.selector_type == self.input.selector_type
                    &&& after.input.name() == self.input.name()
                    &&& after.input.filtering() == Some(crate::text::TextState::empty())
                    &&& r == (ActionResult::Consumed { rerender: true })
                }
            },
            _ => after == self && r == (ActionResult::NotConsumed { rerender: false })
                && out_after.same_as(out_before),
        }
    }

    /// Offers a command to the selector. A hidden selector consumes nothing
    /// and changes nothing.
    pub fn handle_action(&mut self, action: &Action, out: &mut Outbox) -> (r: ActionResult)
        ensures
            !old(self).visible ==> *final(self) == *old(self) && *final(out) == *old(out) && r == (
            ActionResult::NotConsumed { rerender: false }),
            old(self).visible ==> old(self).handled(
                *action,
                *final(self),
                r,
                *old(out),
                *final(out),
            ),
            final(out).actions@ == old(out).actions@,
    {
        if !self.visible {
            return ActionResult::default();
        }
        let p = self.preview_component.handle_action(action, out);
        if p.is_consumed() {
            return p;
        }
        let r = match action {
            Action::Up => self.move_cursor_up(out),
            Action::Down => self.move_cursor_down(out),
            Action::Left => self.move_cursor_left(),
            Action::Right => self.move_cursor_right(),
            Action::Confirm => self.select(false, out),
            Action::Select => self.select(true, out),
            Action::Cancel => self.handle_cancel(out),
            Action::Backspace => self.handle_backspace(),
            Action::Search => {
                if self.input.toggle_filter() {
                    ActionResult::consumed(true)
                } else {
                    ActionResult::not_consumed(false)
                }
            },
            Action::Delete => self.handle_delete(),
            Action::Character(c) => self.handle_character(*c),
            _ => ActionResult::default(),
        };
        r.after(p)
    }

    /// While on show, the selector claims the key bindings of file dialogs.
    pub fn override_keybind_id(&self) -> (r: Option<AppComponent>)
        ensures
            r == if self.visible {
                Some(AppComponent::FileDialog)
            } else {
                None
            },
    {
        if self.visible {
            Some(AppComponent::FileDialog)
        } else {
            None
        }
    }

    /// The preview takes the contents that were read for it.
    pub fn handle_async_action(&mut self, action: &AsyncAction) -> (r: ActionResult)
        ensures
            match *action {
                AsyncAction::PreviewContents(contents) => {
                    &&& *final(self) == (FileSelectorComponent {
                        preview_component: PreviewComponent {
                            contents,
                            ..old(self).preview_component
                        },
                        ..*old(self)
                    })
                    &&& r == (ActionResult::Consumed { rerender: true })
                },
                _ => *final(self) == *old(self) && r == (ActionResult::NotConsumed {
                    rerender: false,
                }),
            },
    {
        self.preview_component.handle_async_action(action)
    }
}

/// What confirming a row comes to.
pub enum Pick {
    /// Nothing: the list cursor is past the rows, or there is no way up.
    Nothing,
    /// The path is announced; the selector stays on show.
    Path(Seq<char>),
    /// The path is announced and the selector closes.
    PathAndClose(Seq<char>),
    /// The directory is listed in place of the one on show.
    Descend(Seq<char>),
}

} // verus!
