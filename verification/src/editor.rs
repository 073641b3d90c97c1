use vstd::prelude::*;
use vstd::string::StringExecFns;

use crate::action::{Action, ActionResult, AsyncAction, SaveFileResult, SelectorType};
use crate::buffer::Buffer;
use crate::chars::same_lines;
use crate::component::AppComponent;
use crate::config::Config;
use crate::confirm_dialog::ConfirmDialogComponent;
use crate::file_selector::FileSelectorComponent;
use crate::help::HelpComponent;
use crate::notification::NotificationComponent;
use crate::runtime::{ClipboardUse, Completion, Outbox, Request, Transition};
use crate::search_box::{plainly_moved, select_moved, SearchBoxComponent};
use crate::text::{
    after_backspace, after_copy, after_cut, after_delete, after_insert_char, after_insert_str,
    after_newline, after_tab, area_redo, area_undo, joined_lines, lines_back,
    typed_plainly, with_char, without_line_returns, CursorStep, TextState,
};

verus! {

/// Joins the lines by line feeds.
fn join_lines(lines: &Vec<String>) -> (r: String)
    ensures
        r@ == joined_lines(lines.deep_view()),
{
    let mut text = String::new();
    let mut i: usize = 0;
    assert(lines.deep_view().len() == lines@.len());
    assert(lines.deep_view().take(0) =~= Seq::<Seq<char>>::empty());
    while i < lines.len()
        invariant
            i <= lines@.len(),
            lines.deep_view().len() == lines@.len(),
            text@ == joined_lines(lines.deep_view().take(i as int)),
        decreases lines@.len() - i,
    {
        proof {
            let next = lines.deep_view().take(i + 1);
            assert(next.drop_last() =~= lines.deep_view().take(i as int));
            assert(next.last() == lines@[i as int]@);
        }
        if i > 0 {
            text.append("\n");
        }
        text.append(lines[i].as_str());
        i += 1;
    }
    assert(lines.deep_view().take(i as int) =~= lines.deep_view());
    text
}

/// The cursor step of a command that moves the cursor.
pub open spec fn step_of(action: Action) -> CursorStep {
    match action {
        Action::Left | Action::SelectLeft => CursorStep::Back,
        Action::Right | Action::SelectRight => CursorStep::Forward,
        Action::Up | Action::SelectUp => CursorStep::Up,
        Action::Down | Action::SelectDown | Action::PageDown => CursorStep::Down,
        Action::PageUp => CursorStep::Top,
        Action::EndOfWord => CursorStep::WordForward,
        _ => CursorStep::WordBack,
    }
}

/// The text with a selection replaced by nothing, the yanked text kept:
/// what typing a character starts from.
pub open spec fn selection_dropped(state: TextState) -> TextState {
    if state.selecting() {
        TextState { yank: without_line_returns(state.yank), ..after_cut(state).with_selection(None) }
    } else {
        state
    }
}

/// What a command does to the text of the editor, for the commands whose
/// effect depends on the text alone.
pub open spec fn edited(state: TextState, action: Action) -> TextState {
    match action {
        Action::Character(c) => after_insert_char(selection_dropped(state), c),
        Action::Backspace => after_backspace(state),
        Action::NewLine => after_newline(state),
        Action::Tab => after_tab(state),
        Action::Delete => after_delete(state),
        Action::Left | Action::Right | Action::Up | Action::Down => plainly_moved(
            state,
            step_of(action),
        ),
        Action::SelectLeft | Action::SelectRight | Action::SelectUp | Action::SelectDown => select_moved(
            state,
            step_of(action),
        ),
        Action::PageUp | Action::PageDown | Action::EndOfWord | Action::StartOfWord => state.stepped(
            step_of(action),
        ),
        Action::Cancel => state.with_selection(None),
        Action::Copy => after_copy(state),
        Action::Cut => after_cut(state).with_selection(None),
        Action::PasteText(text) => after_insert_str(state, text@),
        Action::SelectAll => state.all_selected(),
        Action::ToggleLineNumber => TextState { numbered: !state.numbered, ..state },
        _ => state,
    }
}

/// Whether a command counts as changing the text, given the text before and after.
pub open spec fn modifies(action: Action, before: TextState, after: TextState) -> bool {
    match action {
        Action::Character(_) | Action::Backspace | Action::NewLine | Action::Tab => true,
        Action::Delete | Action::Cut | Action::PasteText(_) => after.lines != before.lines,
        _ => false,
    }
}

/// Whether a command puts text in place of the selection, or takes the
/// selection away: after it no selection is in progress.
pub open spec fn replaces_selection(action: Action) -> bool {
    action is Character || action is Backspace || action is NewLine || action is Tab
        || action is Delete || action is PasteText || action is Cut || action is Copy
}

/// What is put on show where a command needs the clipboard and none is at hand.
pub open spec fn clipboard_unavailable() -> Seq<char> {
    "Clipboard is unavailable"@
}

/// Holds of every answer and outbox; it names the stage at which the file
/// dialog has answered.
pub open spec fn passed_on(dialog: ActionResult, out_mid: Outbox) -> bool {
    true
}

/// Holds of every editor, answer and outbox; it names the stage at which
/// the overlays have answered.
pub open spec fn offered(
    mid: EditorComponent,
    child: ActionResult,
    out_mid: Outbox,
    own: ActionResult,
) -> bool {
    true
}

/// The editor screen: the buffer, and the overlays that sit on it. A command
/// is offered to the overlays first, in a fixed order, and reaches the
/// buffer only where none of them consumes it.
#[derive(Debug)]
pub struct EditorComponent {
    pub buffer: Buffer,
    pub loading: bool,
    pub saving_file: bool,
    pub insert: bool,
    pub config: Config,
    pub notification: NotificationComponent,
    pub help_component: HelpComponent,
    pub file_dialog: FileSelectorComponent,
    pub confirm_dialog_component: ConfirmDialogComponent,
    pub search_box_component: SearchBoxComponent,
}

impl EditorComponent {
    /// The text of the buffer.
    pub open spec fn text(self) -> TextState {
        self.buffer.text_area@
    }

    /// Whether all but the buffer is as in `before`.
    pub open spec fn same_overlays(self, before: EditorComponent) -> bool {
        &&& self.loading == before.loading
        &&& self.saving_file == before.saving_file
        &&& self.insert == before.insert
        &&& self.config == before.config
        &&& self.notification == before.notification
        &&& self.help_component == before.help_component
        &&& self.file_dialog == before.file_dialog
        &&& self.confirm_dialog_component == before.confirm_dialog_component
        &&& self.search_box_component == before.search_box_component
    }

    /// Whether only the text, and with it the modified flag, differ from `before`.
    pub open spec fn same_but_text(self, before: EditorComponent) -> bool {
        &&& self.same_overlays(before)
        &&& self.buffer.file_path == before.buffer.file_path
        &&& self.buffer.current_path_string == before.buffer.current_path_string
    }

    /// Whether this is `before` with the text as given, and modified where
    /// the command counts as changing the text.
    pub open spec fn retexted(self, before: EditorComponent, action: Action, text: TextState) -> bool {
        &&& self.same_but_text(before)
        &&& self.text() == text
        &&& self.buffer.modified == (before.buffer.modified || modifies(
            action,
            before.text(),
            text,
        ))
    }

    fn with_buffer(buffer: Buffer) -> (r: Self)
        ensures
            r.buffer == buffer,
            !r.loading,
            !r.saving_file,
            !r.insert,
            r.config.keybindings@.len() == 0,
            r.notification.shown() is None,
            !r.help_component.visible,
            !r.file_dialog.visible,
            !r.confirm_dialog_component.is_visible(),
            r.search_box_component.input() is None,
    {
        EditorComponent {
            buffer,
            loading: false,
            saving_file: false,
            insert: false,
            config: Config::default(),
            notification: NotificationComponent::empty(),
            help_component: HelpComponent::default(),
            file_dialog: FileSelectorComponent::new(),
            confirm_dialog_component: ConfirmDialogComponent::new(),
            search_box_component: SearchBoxComponent::new(),
        }
    }

    /// An editor on an empty buffer for the file. Nothing is loaded before [`EditorComponent::init`].
    pub fn new(file: &str) -> (r: Self)
        ensures
            r.buffer.file_path is Some,
            r.buffer.file_path->0@ == file@,
            r.text() == TextState::empty(),
            !r.buffer.modified,
            r.quiet(),
    {
        Self::with_buffer(Buffer::new(Some(String::from_str(file))))
    }

    /// An editor on an empty buffer without a file.
    pub fn empty() -> (r: Self)
        ensures
            r.buffer.file_path is None,
            r.text() == TextState::empty(),
            !r.buffer.modified,
            r.quiet(),
    {
        Self::with_buffer(Buffer::new(None))
    }

    /// No overlay is on show, and nothing is being loaded or saved.
    pub open spec fn quiet(self) -> bool {
        &&& !self.loading
        &&& !self.saving_file
        &&& !self.insert
        &&& self.notification.shown() is None
        &&& !self.help_component.visible
        &&& !self.file_dialog.visible
        &&& !self.confirm_dialog_component.is_visible()
        &&& self.search_box_component.input() is None
    }

    /// The requests that load the buffer's file.
    pub open spec fn load_requests(self) -> Seq<Request> {
        match self.buffer.file_path {
            Some(path) => seq![Request::LoadFile(path)],
            None => seq![],
        }
    }

    /// Asks for the buffer's file to be read, and counts as loading until
    /// the contents arrive. A buffer without a file loads nothing.
    pub fn load_file(&mut self, out: &mut Outbox)
        ensures
            *final(self) == (EditorComponent {
                loading: old(self).loading || old(self).buffer.file_path is Some,
                ..*old(self)
            }),
            final(out).extends(*old(out), seq![], seq![], old(self).load_requests()),
    {
        let path = match &self.buffer.file_path {
            Some(path) => path.clone(),
            None => {
                return ;
            },
        };
        self.loading = true;
        out.request(Request::LoadFile(path));
    }

    /// Starts the editor: the buffer's file is loaded.
    pub fn init(&mut self, out: &mut Outbox)
        ensures
            *final(self) == (EditorComponent {
                loading: old(self).loading || old(self).buffer.file_path is Some,
                ..*old(self)
            }),
            final(out).extends(*old(out), seq![], seq![], old(self).load_requests()),
    {
        self.load_file(out);
    }

    /// Whether the file dialog was opened from `before` to pick as
    /// `selector_type` says, starting at the buffer's directory.
    pub open spec fn dialog_opened(
        self,
        before: EditorComponent,
        selector_type: SelectorType,
        out_before: Outbox,
        out_after: Outbox,
    ) -> bool {
        &&& self.buffer == before.buffer
        &&& self.loading == before.loading
        &&& self.saving_file == before.saving_file
        &&& self.insert == before.insert
        &&& self.config == before.config
        &&& self.notification == before.notification
        &&& self.help_component == before.help_component
        &&& self.confirm_dialog_component == before.confirm_dialog_component
        &&& self.search_box_component == before.search_box_component
        &&& self.file_dialog.visible
        &&& self.file_dialog.input.selector_type == selector_type
        &&& self.file_dialog.input.filtering() == if selector_type == SelectorType::NewFile {
            before.file_dialog.input.filtering()
        } else {
            Some(TextState::empty())
        }
        &&& self.file_dialog.input.name() == if selector_type == SelectorType::NewFile {
            Some(TextState::empty())
        } else {
            before.file_dialog.input.name()
        }
        &&& self.file_dialog.current_path == before.file_dialog.current_path
        &&& self.file_dialog.children == before.file_dialog.children
        &&& self.file_dialog.filtered_paths == before.file_dialog.filtered_paths
        &&& self.file_dialog.selected == before.file_dialog.selected
        &&& self.file_dialog.preview_component == before.file_dialog.preview_component
        &&& exists|dir: String, fallback: Option<String>|
            #![auto]
            {
                &&& before.starts_at(dir, fallback)
                &&& out_after.extends(
                    out_before,
                    seq![],
                    seq![AsyncAction::StartAnimation],
                    seq![
                        Request::ListDirectory { path: dir, fallback },
                        Request::PlayTransition(Transition::DialogEnter),
                    ],
                )
            }
    }

    /// Whether a file dialog for this editor starts at `dir`, falling back to `fallback`.
    pub open spec fn starts_at(self, dir: String, fallback: Option<String>) -> bool {
        match self.buffer.file_path {
            Some(path) => dir == path && fallback is Some && fallback->0@ == match crate::paths::parent_of(
                path@,
            ) {
                Some(parent) => parent,
                None => "/"@,
            },
            None => dir@ == self.config.config.working_dir@ && fallback is None,
        }
    }

    fn open_file_dialog(&mut self, selector_type: SelectorType, out: &mut Outbox) -> (r:
        ActionResult)
        ensures
            crate::runtime::at_most_animated(*old(out), *final(out)),
            final(self).dialog_opened(*old(self), selector_type, *old(out), *final(out)),
            r == (ActionResult::Consumed { rerender: true }),
    {
        let (dir, fallback) = self.buffer.current_directory(self.config.config.working_dir.as_str());
        let ghost start = (dir, fallback);
        self.file_dialog.show(dir, fallback, selector_type, out);
        assert(old(self).starts_at(start.0, start.1) && final(out).extends(
            *old(out),
            seq![],
            seq![AsyncAction::StartAnimation],
            seq![
                Request::ListDirectory { path: start.0, fallback: start.1 },
                Request::PlayTransition(Transition::DialogEnter),
            ],
        ));
        ActionResult::consumed(true)
    }

    /// Whether the buffer was turned to `path` and its writing asked for.
    /// The file dialog closes; the buffer stays modified until the file is saved.
    pub open spec fn save_started(
        self,
        before: EditorComponent,
        path: String,
        overwrite: bool,
        out_before: Outbox,
        out_after: Outbox,
    ) -> bool {
        &&& self.buffer.file_path == Some(path)
        &&& self.buffer.current_path_string is Some
        &&& self.buffer.current_path_string->0@ == crate::buffer::shown_path(
            path@,
            crate::buffer::MAX_PATH_STRING_DEPTH as nat,
        )
        &&& self.buffer.text_area == before.buffer.text_area
        &&& self.buffer.modified == before.buffer.modified
        &&& self.saving_file
        &&& self.loading == before.loading
        &&& self.insert == before.insert
        &&& self.config == before.config
        &&& self.notification == before.notification
        &&& self.help_component == before.help_component
        &&& self.confirm_dialog_component == before.confirm_dialog_component
        &&& self.search_box_component == before.search_box_component
        &&& before.file_dialog.closed(self.file_dialog)
        &&& exists|contents: String|
            #![auto]
            {
                &&& contents@ == joined_lines(before.text().lines)
                &&& out_after.extends(
                    out_before,
                    seq![],
                    seq![],
                    seq![Request::WriteFile { path, contents, overwrite }],
                )
            }
    }

    fn save_file_at(&mut self, path: String, overwrite: bool, out: &mut Outbox) -> (r:
        ActionResult)
        ensures
            crate::runtime::at_most_animated(*old(out), *final(out)),
            final(self).save_started(*old(self), path, overwrite, *old(out), *final(out)),
            r == (ActionResult::Consumed { rerender: true }),
    {
        self.buffer.change_path(path.clone());
        let lines = self.buffer.text_area.lines();
        let contents = join_lines(&lines);
        self.saving_file = true;
        self.file_dialog.close();
        out.request(Request::WriteFile { path, contents, overwrite });
        ActionResult::consumed(true)
    }

    /// What `Save` does: nothing, unconsumed, for an unmodified buffer that
    /// has a file; the file dialog opens for a buffer without a file; else
    /// the buffer is written to its file, which may be written over.
    pub open spec fn save_handled(
        self,
        after: EditorComponent,
        r: ActionResult,
        out_before: Outbox,
        out_after: Outbox,
    ) -> bool {
        match self.buffer.file_path {
            Some(path) => if !self.buffer.modified {
                &&& after == self
                &&& r == (ActionResult::NotConsumed { rerender: false })
                &&& out_after.same_as(out_before)
            } else {
                &&& after.save_started(self, path, true, out_before, out_after)
                &&& r == (ActionResult::Consumed { rerender: true })
            },
            None => {
                &&& after.dialog_opened(self, SelectorType::NewFile, out_before, out_after)
                &&& r == (ActionResult::Consumed { rerender: true })
            },
        }
    }

    fn handle_save_file(&mut self, out: &mut Outbox) -> (r: ActionResult)
        ensures
            crate::runtime::at_most_animated(*old(out), *final(out)),
            old(self).save_handled(*final(self), r, *old(out), *final(out)),
    {
        if !self.buffer.modified && self.buffer.file_path.is_some() {
            return ActionResult::not_consumed(false);
        }
        let path = match &self.buffer.file_path {
            Some(path) => path.clone(),
            None => {
                return self.open_file_dialog(SelectorType::NewFile, out);
            },
        };
        self.save_file_at(path, true, out)
    }

    fn handle_save_to(&mut self, out: &mut Outbox) -> (r: ActionResult)
        ensures
            final(self).dialog_opened(*old(self), SelectorType::NewFile, *old(out), *final(out)),
            r == (ActionResult::Consumed { rerender: true }),
    {
        self.open_file_dialog(SelectorType::NewFile, out)
    }

    /// What a command does to an editor whose overlays have let it pass.
    ///
    /// - Typing and deleting edit the text; the buffer counts as modified
    ///   once text was typed, or deleted text has gone. A character typed
    ///   where nothing is selected goes into the line at the cursor.
    /// - A plain arrow cancels a selection in progress, then moves the
    ///   cursor; a selecting arrow starts a selection unless one is in
    ///   progress, then moves the cursor.
    /// - `Cancel` ends a selection, or else the insert mode; it is not
    ///   consumed where there is neither.
    /// - Typing, deleting, pasting, cutting and copying leave no selection
    ///   in progress.
    /// - `Copy` and `Cut` yank the selection and ask for the yanked text, if
    ///   any, to be put on the clipboard; `Paste` asks for the clipboard's
    ///   text. Where no clipboard is at hand, each of the three puts that on
    ///   show as an error and does nothing else: text and yanked text stay.
    /// - `Undo` and `Redo` bring back the lines and the cursor of the edit
    ///   taken back or repeated, and are consumed where there was one; they
    ///   change nothing otherwise. What one of them did, the other takes back.
    /// - A character typed where nothing was selected is the edit that
    ///   `Undo` takes back next.
    /// - `Return` announces the way back and is not consumed.
    pub open spec fn own_handled(
        self,
        action: Action,
        after: EditorComponent,
        r: ActionResult,
        out_before: Outbox,
        out_after: Outbox,
    ) -> bool {
        &&& action is Character && typed_plainly(self.text(), action->Character_0) ==> after.text()
            == with_char(self.text(), action->Character_0)
        &&& action is Character && !self.text().selecting() ==> area_undo(after.buffer.text_area)
            == Some((self.text().lines, self.text().cursor))
        &&& replaces_selection(action) && !self.clipboard_missing_for(action) ==> !after.text().selecting()
        &&& if self.clipboard_missing_for(action) {
            &&& self.notified(after, clipboard_unavailable(), true)
            &&& r == (ActionResult::Consumed { rerender: true })
            &&& out_after.same_as(out_before)
        } else {
            self.own_handled_with_clipboard(action, after, r, out_before, out_after)
        }
    }

    /// Whether the command needs the clipboard and none is at hand.
    pub open spec fn clipboard_missing_for(self, action: Action) -> bool {
        (action is Cut || action is Copy || action is Paste)
            && !self.config.config.clipboard_available
    }

    /// What a command does to an editor whose overlays have let it pass,
    /// where the clipboard is at hand or not needed.
    pub open spec fn own_handled_with_clipboard(
        self,
        action: Action,
        after: EditorComponent,
        r: ActionResult,
        out_before: Outbox,
        out_after: Outbox,
    ) -> bool {
        match action {
            Action::Tick => {
                &&& after.notification.shown() == self.notification.ticked()
                &&& after.buffer == self.buffer
                &&& after.loading == self.loading
                &&& after.saving_file == self.saving_file
                &&& after.insert == self.insert
                &&& after.config == self.config
                &&& after.help_component == self.help_component
                &&& after.file_dialog == self.file_dialog
                &&& after.confirm_dialog_component == self.confirm_dialog_component
                &&& after.search_box_component == self.search_box_component
                &&& r == if self.notification.shown() is Some {
                    (ActionResult::Consumed { rerender: true })
                } else {
                    (ActionResult::NotConsumed { rerender: false })
                }
                &&& out_after.same_as(out_before)
            },
            Action::Character(_) | Action::Backspace | Action::NewLine | Action::Tab
            | Action::Left | Action::Right | Action::Up | Action::Down | Action::SelectLeft
            | Action::SelectRight | Action::SelectUp | Action::SelectDown | Action::PageUp
            | Action::PageDown | Action::EndOfWord | Action::StartOfWord | Action::SelectAll
            | Action::ToggleLineNumber => {
                &&& after.retexted(self, action, edited(self.text(), action))
                &&& r == (ActionResult::Consumed { rerender: true })
                &&& out_after.same_as(out_before)
            },
            Action::Delete => {
                &&& after.retexted(self, action, edited(self.text(), action))
                &&& r == if after.text().lines != self.text().lines {
                    (ActionResult::Consumed { rerender: true })
                } else {
                    (ActionResult::NotConsumed { rerender: false })
                }
                &&& out_after.same_as(out_before)
            },
            Action::PasteText(text) => {
                &&& after.retexted(self, action, edited(self.text(), action))
                &&& r == (ActionResult::Consumed { rerender: modifies(action, self.text(), after.text()) })
                &&& out_after.same_as(out_before)
            },
            Action::Insert => {
                &&& after == (EditorComponent { insert: true, ..self })
                &&& r == (ActionResult::Consumed { rerender: true })
                &&& out_after.same_as(out_before)
            },
            Action::Cancel => {
                &&& out_after.same_as(out_before)
                &&& if self.text().selecting() {
                    &&& after.retexted(self, action, edited(self.text(), action))
                    &&& r == (ActionResult::Consumed { rerender: true })
                } else if self.insert {
                    &&& after == (EditorComponent { insert: false, ..self })
                    &&& r == (ActionResult::Consumed { rerender: true })
                } else {
                    &&& after == self
                    &&& r == (ActionResult::NotConsumed { rerender: false })
                }
            },
            Action::Copy | Action::Cut => {
                &&& after.retexted(self, action, edited(self.text(), action))
                &&& r == (ActionResult::Consumed {
                    rerender: action is Cut || after.text().yank.len() > 0,
                })
                &&& if after.text().yank.len() == 0 {
                    out_after.same_as(out_before)
                } else {
                    exists|text: String|
                        #![auto]
                        text@ == after.text().yank && out_after.extends(
                            out_before,
                            seq![],
                            seq![],
                            seq![
                                Request::WriteClipboard {
                                    text,
                                    purpose: if action is Cut {
                                        ClipboardUse::Cut
                                    } else {
                                        ClipboardUse::Copy
                                    },
                                },
                            ],
                        )
                }
            },
            Action::Paste => {
                &&& after == self
                &&& r == (ActionResult::Consumed { rerender: false })
                &&& out_after.extends(out_before, seq![], seq![], seq![Request::ReadClipboard])
            },
            Action::Undo | Action::Redo => {
                let target = if action is Undo {
                    area_undo(self.buffer.text_area)
                } else {
                    area_redo(self.buffer.text_area)
                };
                let back = if action is Undo {
                    area_redo(after.buffer.text_area)
                } else {
                    area_undo(after.buffer.text_area)
                };
                &&& after.same_but_text(self)
                &&& out_after.same_as(out_before)
                &&& after.text() == self.buffer.text_area.restored(target)
                &&& after.buffer.modified == (self.buffer.modified || target is Some)
                &&& r == if target is Some {
                    (ActionResult::Consumed { rerender: true })
                } else {
                    (ActionResult::NotConsumed { rerender: false })
                }
                &&& target is Some ==> lines_back(back) == Some(self.text().lines)
            },
            Action::Search => {
                &&& after.buffer == self.buffer
                &&& after.loading == self.loading
                &&& after.saving_file == self.saving_file
                &&& after.insert == self.insert
                &&& after.config == self.config
                &&& after.notification == self.notification
                &&& after.help_component == self.help_component
                &&& after.file_dialog == self.file_dialog
                &&& after.confirm_dialog_component == self.confirm_dialog_component
                &&& after.search_box_component.input() == if self.search_box_component.input() is Some {
                    None
                } else {
                    Some(TextState::empty())
                }
                &&& after.search_box_component.error == self.search_box_component.error
                &&& after.search_box_component.regex == self.search_box_component.regex
                &&& r == (ActionResult::Consumed { rerender: true })
                &&& if self.search_box_component.input() is Some {
                    out_after.same_as(out_before)
                } else {
                    out_after.extends(
                        out_before,
                        seq![],
                        seq![AsyncAction::StartAnimation],
                        seq![Request::PlayTransition(Transition::FloatingEnter)],
                    )
                }
            },
            Action::Save => self.save_handled(after, r, out_before, out_after),
            Action::SaveTo => after.dialog_opened(self, SelectorType::NewFile, out_before, out_after)
                && r == (ActionResult::Consumed { rerender: true }),
            Action::OpenFile => after.dialog_opened(
                self,
                SelectorType::PickFile,
                out_before,
                out_after,
            ) && r == (ActionResult::Consumed { rerender: true }),
            Action::Return => {
                &&& after == self
                &&& r == (ActionResult::NotConsumed { rerender: false })
                &&& out_after.extends(
                    out_before,
                    seq![],
                    seq![AsyncAction::Navigate(None)],
                    seq![],
                )
            },
            _ => {
                &&& after == self
                &&& r == (ActionResult::NotConsumed { rerender: false })
                &&& out_after.same_as(out_before)
            },
        }
    }

    /// Takes a cursor step, after the selection was ended or begun as the command asks.
    fn move_cursor(&mut self, action: &Action) -> (r: ActionResult)
        requires
            *action is Left || *action is Right || *action is Up || *action is Down
                || *action is SelectLeft || *action is SelectRight || *action is SelectUp
                || *action is SelectDown || *action is PageUp || *action is PageDown
                || *action is EndOfWord || *action is StartOfWord,
        ensures
            final(self).retexted(*old(self), *action, edited(old(self).text(), *action)),
            r == (ActionResult::Consumed { rerender: true }),
    {
        let step = match action {
            Action::Left | Action::SelectLeft => CursorStep::Back,
            Action::Right | Action::SelectRight => CursorStep::Forward,
            Action::Up | Action::SelectUp => CursorStep::Up,
            Action::Down | Action::SelectDown | Action::PageDown => CursorStep::Down,
            Action::PageUp => CursorStep::Top,
            Action::EndOfWord => CursorStep::WordForward,
            _ => CursorStep::WordBack,
        };
        match action {
            Action::Left | Action::Right | Action::Up | Action::Down => {
                self.buffer.text_area.cancel_selection();
            },
            Action::SelectLeft | Action::SelectRight | Action::SelectUp | Action::SelectDown => {
                if !self.buffer.text_area.is_selecting() {
                    self.buffer.text_area.start_selection();
                }
            },
            _ => {},
        }
        self.buffer.text_area.move_cursor(step);
        ActionResult::consumed(true)
    }

    fn add_char(&mut self, c: char) -> (r: ActionResult)
        ensures
            final(self).retexted(
                *old(self),
                Action::Character(c),
                edited(old(self).text(), Action::Character(c)),
            ),
            !final(self).text().selecting(),
            !old(self).text().selecting() ==> area_undo(final(self).buffer.text_area) == Some(
                (old(self).text().lines, old(self).text().cursor),
            ),
            typed_plainly(old(self).text(), c) ==> final(self).text() == with_char(
                old(self).text(),
                c,
            ),
            r == (ActionResult::Consumed { rerender: true }),
    {
        if self.buffer.text_area.is_selecting() {
            let previous_yank = self.buffer.text_area.yank_text();
            self.buffer.text_area.cut();
            self.buffer.text_area.cancel_selection();
            self.buffer.text_area.set_yank_text(previous_yank);
        }
        self.buffer.text_area.insert_char(c);
        self.buffer.modified = true;
        ActionResult::consumed(true)
    }

    /// Yanks the selection, by cutting or copying it, and asks for the
    /// yanked text to be put on the clipboard.
    fn yank_selection(&mut self, action: &Action, out: &mut Outbox) -> (r: ActionResult)
        requires
            *action is Cut || *action is Copy,
            old(self).config.config.clipboard_available,
        ensures
            old(self).own_handled(*action, *final(self), r, *old(out), *final(out)),
    {
        let purpose = match action {
            Action::Cut => {
                if self.buffer.text_area.cut() {
                    self.buffer.modified = true;
                }
                ClipboardUse::Cut
            },
            _ => {
                self.buffer.text_area.copy();
                ClipboardUse::Copy
            },
        };
        let yanked = self.buffer.text_area.yank_text();
        self.buffer.text_area.cancel_selection();
        let ghost text_after = self.text();
        proof {
            assert(text_after == edited(old(self).text(), *action));
        }
        if yanked.as_str().unicode_len() == 0 {
            return match purpose {
                ClipboardUse::Cut => ActionResult::consumed(true),
                ClipboardUse::Copy => ActionResult::consumed(false),
            };
        }
        let ghost sent = yanked;
        out.request(Request::WriteClipboard { text: yanked, purpose });
        assert(sent@ == text_after.yank && final(out).extends(
            *old(out),
            seq![],
            seq![],
            seq![Request::WriteClipboard { text: sent, purpose }],
        ));
        ActionResult::consumed(true)
    }

    /// Inserts a text at the cursor, in place of the selection. The buffer
    /// counts as modified, and a redraw is asked for, where the lines are no
    /// longer what they were: also where only the selection has gone.
    fn paste_text(&mut self, text: &str) -> (r: ActionResult)
        ensures
            final(self).same_but_text(*old(self)),
            final(self).text() == after_insert_str(old(self).text(), text@),
            !final(self).text().selecting(),
            final(self).buffer.modified == (old(self).buffer.modified || final(self).text().lines
                != old(self).text().lines),
            r == (ActionResult::Consumed {
                rerender: final(self).text().lines != old(self).text().lines,
            }),
    {
        let before = self.buffer.text_area.lines();
        self.buffer.text_area.insert_str(text);
        let after = self.buffer.text_area.lines();
        let changed = !same_lines(&before, &after);
        if changed {
            self.buffer.modified = true;
        }
        ActionResult::consumed(changed)
    }

    /// Handles a command that the overlays have let pass.
    pub fn handle_own_action(&mut self, action: &Action, out: &mut Outbox) -> (r: ActionResult)
        ensures
            old(self).own_handled(*action, *final(self), r, *old(out), *final(out)),
            final(out).actions@ == old(out).actions@,
            final(self).confirm_dialog_component == old(self).confirm_dialog_component,
    {
        match action {
            Action::Tick => self.notification.handle_tick_action(),
            Action::Character(c) => self.add_char(*c),
            Action::Backspace => {
                self.buffer.text_area.delete_char();
                self.buffer.modified = true;
                ActionResult::consumed(true)
            },
            Action::NewLine => {
                self.buffer.text_area.insert_newline();
                self.buffer.modified = true;
                ActionResult::consumed(true)
            },
            Action::Tab => {
                self.buffer.text_area.insert_tab();
                self.buffer.modified = true;
                ActionResult::consumed(true)
            },
            Action::Delete => {
                if self.buffer.text_area.delete_next_char() {
                    self.buffer.modified = true;
                    ActionResult::consumed(true)
                } else {
                    ActionResult::not_consumed(false)
                }
            },
            Action::Insert => {
                self.insert = true;
                ActionResult::consumed(true)
            },
            Action::Left | Action::Right | Action::Up | Action::Down | Action::SelectLeft
            | Action::SelectRight | Action::SelectUp | Action::SelectDown | Action::PageUp
            | Action::PageDown | Action::EndOfWord | Action::StartOfWord => self.move_cursor(
                action,
            ),
            Action::Cancel => {
                if self.buffer.text_area.is_selecting() {
                    self.buffer.text_area.cancel_selection();
                    return ActionResult::consumed(true);
                }
                if self.insert {
                    self.insert = false;
                    return ActionResult::consumed(true);
                }
                ActionResult::default()
            },
            Action::Search => {
                self.search_box_component.toggle(out);
                ActionResult::consumed(true)
            },
            Action::Copy | Action::Cut | Action::Paste => {
                if !self.config.config.clipboard_available {
                    self.notification.notify_error("Clipboard is unavailable");
                    return ActionResult::consumed(true);
                }
                match action {
                    Action::Paste => {
                        out.request(Request::ReadClipboard);
                        ActionResult::consumed(false)
                    },
                    _ => self.yank_selection(action, out),
                }
            },
            Action::PasteText(text) => self.paste_text(text.as_str()),
            Action::SelectAll => {
                self.buffer.text_area.select_all();
                ActionResult::consumed(true)
            },
            Action::Save => self.handle_save_file(out),
            Action::SaveTo => self.handle_save_to(out),
            Action::Redo => {
                if self.buffer.text_area.redo() {
                    self.buffer.modified = true;
                    return ActionResult::consumed(true);
                }
                ActionResult::default()
            },
            Action::Undo => {
                if self.buffer.text_area.undo() {
                    self.buffer.modified = true;
                    return ActionResult::consumed(true);
                }
                ActionResult::default()
            },
            Action::Return => {
                out.send_async(AsyncAction::Navigate(None));
                ActionResult::default()
            },
            Action::OpenFile => self.open_file_dialog(SelectorType::PickFile, out),
            Action::ToggleLineNumber => {
                if self.buffer.text_area.is_numbered() {
                    self.buffer.text_area.hide_line_numbers();
                } else {
                    self.buffer.text_area.show_line_numbers();
                }
                ActionResult::consumed(true)
            },
            _ => ActionResult::default(),
        }
    }

    /// Whether what the overlays never touch is as in `before`.
    pub open spec fn same_core(self, before: EditorComponent) -> bool {
        &&& self.loading == before.loading
        &&& self.saving_file == before.saving_file
        &&& self.insert == before.insert
        &&& self.config == before.config
        &&& self.buffer.file_path == before.buffer.file_path
        &&& self.buffer.modified == before.buffer.modified
        &&& self.buffer.current_path_string == before.buffer.current_path_string
    }

    /// What a command does once the file dialog has let it pass, with the
    /// answer `earlier`: the search box gets it while on show, and consumes
    /// it; else the help overlay does. A redraw that the file dialog asked
    /// for stays asked for.
    pub open spec fn search_handled(
        self,
        action: Action,
        after: EditorComponent,
        r: ActionResult,
        earlier: ActionResult,
        out_before: Outbox,
        out_after: Outbox,
    ) -> bool {
        if self.search_box_component.input() is Some {
            &&& self.search_box_component.handled(
                action,
                self.text(),
                after.search_box_component,
                after.text(),
            )
            &&& r == self.search_box_component.answer(action, self.text()).joined(earlier)
            &&& after.help_component == self.help_component
            &&& out_after.same_as(out_before)
        } else {
            &&& after.search_box_component == self.search_box_component
            &&& after.buffer.text_area == self.buffer.text_area
            &&& self.help_component.handled(action, after.help_component, out_before, out_after)
            &&& r == if self.help_component.answer(action) is Consumed {
                self.help_component.answer(action).joined(earlier)
            } else {
                (ActionResult::NotConsumed { rerender: earlier.rerender() })
            }
        }
    }

    /// What a command does once the notification and the confirm dialog
    /// have let it pass: the file dialog gets it while on show; what it does
    /// not consume goes on to the search box and the help overlay.
    pub open spec fn dialog_handled(
        self,
        action: Action,
        after: EditorComponent,
        r: ActionResult,
        out_before: Outbox,
        out_after: Outbox,
    ) -> bool {
        exists|dialog: ActionResult, out_mid: Outbox|
            {
                &&& #[trigger] passed_on(dialog, out_mid)
                &&& if self.file_dialog.visible {
                    self.file_dialog.handled(action, after.file_dialog, dialog, out_before, out_mid)
                } else {
                    &&& after.file_dialog == self.file_dialog
                    &&& dialog == (ActionResult::NotConsumed { rerender: false })
                    &&& out_mid.same_as(out_before)
                }
                &&& if dialog is Consumed {
                    &&& r == dialog
                    &&& after.search_box_component == self.search_box_component
                    &&& after.help_component == self.help_component
                    &&& after.buffer.text_area == self.buffer.text_area
                    &&& out_after.same_as(out_mid)
                } else {
                    self.search_handled(action, after, r, dialog, out_mid, out_after)
                }
            }
    }

    /// What offering a command to the overlays does. They get it in this
    /// order: notification, confirm dialog, file dialog, search box, help
    /// overlay. The first that consumes it ends the round, and its answer is
    /// the answer; where none does, the answer is unconsumed, with the
    /// redraw that the file dialog may have asked for.
    pub open spec fn children_handled(
        self,
        action: Action,
        after: EditorComponent,
        r: ActionResult,
        out_before: Outbox,
        out_after: Outbox,
    ) -> bool {
        &&& after.same_core(self)
        &&& after.notification.shown() == self.notification.after(action)
        &&& !(action is Tick || action is Cancel) ==> after.notification == self.notification
        &&& if self.notification.answer(action) is Consumed {
            &&& r == self.notification.answer(action)
            &&& after.confirm_dialog_component == self.confirm_dialog_component
            &&& after.file_dialog == self.file_dialog
            &&& after.search_box_component == self.search_box_component
            &&& after.help_component == self.help_component
            &&& after.buffer.text_area == self.buffer.text_area
            &&& out_after.same_as(out_before)
        } else {
            &&& after.confirm_dialog_component == self.confirm_dialog_component.after(action)
            &&& if self.confirm_dialog_component.is_visible() {
                &&& r == self.confirm_dialog_component.answer(action)
                &&& after.file_dialog == self.file_dialog
                &&& after.search_box_component == self.search_box_component
                &&& after.help_component == self.help_component
                &&& after.buffer.text_area == self.buffer.text_area
                &&& out_after.extends(
                    out_before,
                    self.confirm_dialog_component.issued(action),
                    seq![],
                    seq![],
                )
            } else {
                self.dialog_handled(action, after, r, out_before, out_after)
            }
        }
    }

    /// The commands that the editor issues in answer to a command: the
    /// command that the confirm dialog holds, when it is confirmed.
    pub open spec fn issued(self, action: Action) -> Seq<Action> {
        if self.notification.answer(action) is Consumed {
            seq![]
        } else {
            self.confirm_dialog_component.issued(action)
        }
    }

    /// How many commands the editor may still issue by itself: one while
    /// the confirm dialog is on show.
    pub open spec fn potential(self) -> nat {
        if self.confirm_dialog_component.is_visible() {
            1
        } else {
            0
        }
    }

    /// Offers a command to the overlays.
    pub fn child_handle_action(&mut self, action: &Action, out: &mut Outbox) -> (r: ActionResult)
        ensures
            old(self).children_handled(*action, *final(self), r, *old(out), *final(out)),
            final(out).actions@ == old(out).actions@ + old(self).issued(*action),
    {
        let res = self.notification.handle_action(action);
        if res.is_consumed() {
            return res;
        }
        let res = self.confirm_dialog_component.handle_action(action, out);
        if res.is_consumed() {
            return res;
        }
        let res = self.file_dialog.handle_action(action, out);
        let ghost dialog = res;
        let ghost out_mid = *out;
        assert(passed_on(dialog, out_mid));
        if res.is_consumed() {
            assert(out.same_as(out_mid));
            assert(old(self).dialog_handled(*action, *self, res, *old(out), *out));
            return res;
        }
        let earlier = res;
        let res = self.search_box_component.handle_action(action, &mut self.buffer.text_area);
        if res.is_consumed() {
            let r = res.after(earlier);
            assert(out.same_as(out_mid));
            assert(old(self).search_handled(*action, *self, r, dialog, out_mid, *out));
            assert(old(self).dialog_handled(*action, *self, r, *old(out), *out));
            return r;
        }
        let res = self.help_component.handle_action(action, out);
        let r = if res.is_consumed() {
            res.after(earlier)
        } else {
            ActionResult::not_consumed(earlier.should_rerender())
        };
        assert(old(self).search_handled(*action, *self, r, dialog, out_mid, *out));
        assert(old(self).dialog_handled(*action, *self, r, *old(out), *out));
        r
    }

    /// What a command does to the editor: the overlays get it first; what
    /// none of them consumes, the editor handles itself. A redraw that an
    /// overlay asked for without consuming the command stays asked for.
    pub open spec fn handled(
        self,
        action: Action,
        after: EditorComponent,
        r: ActionResult,
        out_before: Outbox,
        out_after: Outbox,
    ) -> bool {
        exists|mid: EditorComponent, child: ActionResult, out_mid: Outbox, own: ActionResult|
            {
                &&& #[trigger] offered(mid, child, out_mid, own)
                &&& self.children_handled(action, mid, child, out_before, out_mid)
                &&& if child is Consumed {
                    after == mid && r == child && out_after.same_as(out_mid)
                } else {
                    &&& mid.own_handled(action, after, own, out_mid, out_after)
                    &&& r == own.joined(child)
                }
            }
    }

    /// Offers a command to the editor. The only commands that it issues
    /// in answer are those that its confirm dialog held.
    pub fn handle_action(&mut self, action: &Action, out: &mut Outbox) -> (r: ActionResult)
        ensures
            old(self).handled(*action, *final(self), r, *old(out), *final(out)),
            final(out).actions@ == old(out).actions@ + old(self).issued(*action),
            final(self).potential() + old(self).issued(*action).len() <= old(self).potential(),
    {
        let child = self.child_handle_action(action, out);
        let ghost mid = *self;
        let ghost out_mid = *out;
        if child.is_consumed() {
            assert(offered(mid, child, out_mid, child));
            assert(out.same_as(out_mid));
            assert(old(self).children_handled(*action, mid, child, *old(out), out_mid));
            return child;
        }
        let own = self.handle_own_action(action, out);
        assert(offered(mid, child, out_mid, own));
        assert(old(self).children_handled(*action, mid, child, *old(out), out_mid)
            && mid.own_handled(*action, *self, own, out_mid, *out));
        own.after(child)
    }

    /// The screen whose key bindings are in force: that of file dialogs
    /// while the file dialog is on show, else that of dialogs while the
    /// confirm dialog is, else the editor's.
    pub open spec fn keybind_id(self) -> AppComponent {
        if self.file_dialog.visible {
            AppComponent::FileDialog
        } else if self.confirm_dialog_component.is_visible() {
            AppComponent::Dialog
        } else {
            AppComponent::Editor
        }
    }

    pub fn override_keybind_id(&self) -> (r: Option<AppComponent>)
        ensures
            r == Some(self.keybind_id()),
    {
        if let Some(a) = self.file_dialog.override_keybind_id() {
            return Some(a);
        }
        if let Some(a) = self.confirm_dialog_component.override_keybind_id() {
            return Some(a);
        }
        Some(AppComponent::Editor)
    }

    /// Whether `after` is this editor with the configuration taken: the
    /// editor keeps a copy, and the overlays take the labels of their keys.
    pub open spec fn registered(self, config: Config, after: EditorComponent) -> bool {
        &&& after.config.config == config.config
        &&& after.config.keybindings@ == config.keybindings@
        &&& after.buffer == self.buffer
        &&& after.loading == self.loading
        &&& after.saving_file == self.saving_file
        &&& after.insert == self.insert
        &&& after.notification == self.notification
        &&& after.file_dialog == self.file_dialog
        &&& after.search_box_component == self.search_box_component
        &&& self.confirm_dialog_component.registered(config, after.confirm_dialog_component)
        &&& self.help_component.registered(config, AppComponent::Editor, after.help_component)
    }

    /// Takes the configuration, for itself and for the overlays that name keys.
    pub fn register_config(&mut self, config: &Config)
        ensures
            old(self).registered(*config, *final(self)),
    {
        self.confirm_dialog_component.register_config(config);
        self.help_component.register_config(config, &AppComponent::Editor);
        self.config = config.clone();
    }

    /// Takes the contents of the buffer's file: the text is replaced by
    /// them, with no selection, and counts as unmodified; the loading is over.
    fn load_file_contents(&mut self, contents: &str) -> (r: ActionResult)
        ensures
            old(self).loaded(*final(self), contents@),
            r == (ActionResult::Consumed { rerender: true }),
    {
        self.loading = false;
        self.buffer.clear_text();
        self.buffer.text_area.insert_str(contents);
        self.buffer.text_area.cancel_selection();
        ActionResult::consumed(true)
    }

    /// The editor once the contents of its file have arrived: its lines,
    /// joined by line feeds, read as the contents do, but for carriage
    /// returns before a line feed or at the very end, which are dropped.
    pub open spec fn loaded(self, after: EditorComponent, contents: Seq<char>) -> bool {
        &&& after.text() == after_insert_str(TextState::empty(), contents).with_selection(None)
        &&& joined_lines(after.text().lines) == without_line_returns(contents)
        &&& !after.buffer.modified
        &&& !after.loading
        &&& after.buffer.file_path == self.buffer.file_path
        &&& after.buffer.current_path_string == self.buffer.current_path_string
        &&& after.saving_file == self.saving_file
        &&& after.insert == self.insert
        &&& after.config == self.config
        &&& after.notification == self.notification
        &&& after.help_component == self.help_component
        &&& after.file_dialog == self.file_dialog
        &&& after.confirm_dialog_component == self.confirm_dialog_component
        &&& after.search_box_component == self.search_box_component
    }

    /// The editor with a notification put on show, and nothing else changed.
    pub open spec fn notified(self, after: EditorComponent, text: Seq<char>, error: bool) -> bool {
        &&& after.notification.shows(text, error, crate::component::TICKS_UNTIL_REMOVE_POPUP as nat)
        &&& after.buffer == self.buffer
        &&& after.loading == self.loading
        &&& after.saving_file == self.saving_file
        &&& after.insert == self.insert
        &&& after.config == self.config
        &&& after.help_component == self.help_component
        &&& after.file_dialog == self.file_dialog
        &&& after.confirm_dialog_component == self.confirm_dialog_component
        &&& after.search_box_component == self.search_box_component
    }

    /// What the end of a save does. An editor that awaits none ignores it.
    /// Else the wait is over, and:
    ///
    /// - saved: the buffer belongs to the path, counts as unmodified, and
    ///   `File saved` is put on show;
    /// - failed: the failure is put on show as an error;
    /// - no name: the file dialog opens, for naming a new file;
    /// - the file exists: the confirm dialog opens, and issues `Save` on confirmation.
    pub open spec fn file_saved(
        self,
        result: SaveFileResult,
        after: EditorComponent,
        r: ActionResult,
        out_before: Outbox,
        out_after: Outbox,
    ) -> bool {
        let waited = EditorComponent { saving_file: false, ..self };
        if !self.saving_file {
            &&& after == self
            &&& r == (ActionResult::NotConsumed { rerender: false })
            &&& out_after.same_as(out_before)
        } else {
            &&& r == (ActionResult::Consumed { rerender: true })
            &&& match result {
                SaveFileResult::Saved(path) => {
                    &&& after.notification.shows(
                        "File saved"@,
                        false,
                        crate::component::TICKS_UNTIL_REMOVE_POPUP as nat,
                    )
                    &&& after.buffer.file_path == Some(path)
                    &&& after.buffer.current_path_string is Some
                    &&& after.buffer.current_path_string->0@ == crate::buffer::shown_path(
                        path@,
                        crate::buffer::MAX_PATH_STRING_DEPTH as nat,
                    )
                    &&& !after.buffer.modified
                    &&& after.buffer.text_area == self.buffer.text_area
                    &&& !after.saving_file
                    &&& after.loading == self.loading
                    &&& after.insert == self.insert
                    &&& after.config == self.config
                    &&& after.help_component == self.help_component
                    &&& after.file_dialog == self.file_dialog
                    &&& after.confirm_dialog_component == self.confirm_dialog_component
                    &&& after.search_box_component == self.search_box_component
                    &&& out_after.same_as(out_before)
                },
                SaveFileResult::Error(failure) => waited.notified(after, failure@, true)
                    && out_after.same_as(out_before),
                SaveFileResult::MissingName => after.dialog_opened(
                    waited,
                    SelectorType::NewFile,
                    out_before,
                    out_after,
                ),
                SaveFileResult::ConfirmOverwrite => {
                    &&& after.confirm_dialog_component.action_on_confirm == Some(Action::Save)
                    &&& after.confirm_dialog_component.title@ == " File already exists "@
                    &&& after.confirm_dialog_component.message@
                        == "Are you sure you want to overwrite it?"@
                    &&& after.confirm_dialog_component.cancel_key
                        == self.confirm_dialog_component.cancel_key
                    &&& after.confirm_dialog_component.confirm_key
                        == self.confirm_dialog_component.confirm_key
                    &&& after.buffer == self.buffer
                    &&& !after.saving_file
                    &&& after.loading == self.loading
                    &&& after.insert == self.insert
                    &&& after.config == self.config
                    &&& after.notification == self.notification
                    &&& after.help_component == self.help_component
                    &&& after.file_dialog == self.file_dialog
                    &&& after.search_box_component == self.search_box_component
                    &&& out_after.extends(
                        out_before,
                        seq![],
                        seq![AsyncAction::StartAnimation],
                        seq![Request::PlayTransition(Transition::NotificationEnter)],
                    )
                },
            }
        }
    }

    fn handle_file_saved(&mut self, result: &SaveFileResult, out: &mut Outbox) -> (r: ActionResult)
        ensures
            crate::runtime::at_most_animated(*old(out), *final(out)),
            old(self).file_saved(*result, *final(self), r, *old(out), *final(out)),
    {
        if !self.saving_file {
            return ActionResult::default();
        }
        self.saving_file = false;
        match result {
            SaveFileResult::Saved(path) => {
                self.notification.notify_text("File saved");
                self.buffer.change_path(path.clone());
                self.buffer.modified = false;
                ActionResult::consumed(true)
            },
            SaveFileResult::Error(error) => {
                self.notification.notify_error(error.as_str());
                ActionResult::consumed(true)
            },
            SaveFileResult::MissingName => self.open_file_dialog(SelectorType::NewFile, out),
            SaveFileResult::ConfirmOverwrite => self.show_confirm_overwrite(out),
        }
    }

    fn show_confirm_overwrite(&mut self, out: &mut Outbox) -> (r: ActionResult)
        ensures
            crate::runtime::at_most_animated(*old(out), *final(out)),
            final(self).confirm_dialog_component.action_on_confirm == Some(Action::Save),
            final(self).confirm_dialog_component.title@ == " File already exists "@,
            final(self).confirm_dialog_component.message@
                == "Are you sure you want to overwrite it?"@,
            final(self).confirm_dialog_component.cancel_key == old(self).confirm_dialog_component.cancel_key,
            final(self).confirm_dialog_component.confirm_key == old(self).confirm_dialog_component.confirm_key,
            final(self).buffer == old(self).buffer,
            final(self).saving_file == old(self).saving_file,
            final(self).loading == old(self).loading,
            final(self).insert == old(self).insert,
            final(self).config == old(self).config,
            final(self).notification == old(self).notification,
            final(self).help_component == old(self).help_component,
            final(self).file_dialog == old(self).file_dialog,
            final(self).search_box_component == old(self).search_box_component,
            final(out).extends(
                *old(out),
                seq![],
                seq![AsyncAction::StartAnimation],
                seq![Request::PlayTransition(Transition::NotificationEnter)],
            ),
            r == (ActionResult::Consumed { rerender: true }),
    {
        self.confirm_dialog_component.show(
            " File already exists ",
            "Are you sure you want to overwrite it?",
            Action::Save,
            out,
        );
        ActionResult::consumed(true)
    }

    /// What the choice of a path does: a folder or a new file is where the
    /// buffer is saved, and only a folder may be written over without
    /// asking; a file to open replaces the buffer's file, which is loaded.
    pub open spec fn path_selected(
        self,
        path: String,
        selector_type: SelectorType,
        after: EditorComponent,
        out_before: Outbox,
        out_after: Outbox,
    ) -> bool {
        match selector_type {
            SelectorType::PickFolder => after.save_started(self, path, true, out_before, out_after),
            SelectorType::NewFile => after.save_started(self, path, false, out_before, out_after),
            SelectorType::PickFile => {
                &&& after.buffer.file_path == Some(path)
                &&& after.buffer.current_path_string is Some
                &&& after.buffer.current_path_string->0@ == crate::buffer::shown_path(
                    path@,
                    crate::buffer::MAX_PATH_STRING_DEPTH as nat,
                )
                &&& after.buffer.text_area == self.buffer.text_area
                &&& after.buffer.modified == self.buffer.modified
                &&& after.loading
                &&& after.saving_file == self.saving_file
                &&& after.insert == self.insert
                &&& after.config == self.config
                &&& after.notification == self.notification
                &&& after.help_component == self.help_component
                &&& after.file_dialog == self.file_dialog
                &&& after.confirm_dialog_component == self.confirm_dialog_component
                &&& after.search_box_component == self.search_box_component
                &&& out_after.extends(out_before, seq![], seq![], seq![Request::LoadFile(path)])
            },
        }
    }

    fn handle_selector(&mut self, path: String, selector_type: SelectorType, out: &mut Outbox) -> (r:
        ActionResult)
        ensures
            crate::runtime::at_most_animated(*old(out), *final(out)),
            old(self).path_selected(path, selector_type, *final(self), *old(out), *final(out)),
            r == (ActionResult::Consumed { rerender: true }),
    {
        match selector_type {
            SelectorType::PickFolder => self.save_file_at(path, true, out),
            SelectorType::NewFile => self.save_file_at(path, false, out),
            SelectorType::PickFile => {
                self.buffer.change_path(path);
                self.load_file(out);
                ActionResult::consumed(true)
            },
        }
    }

    /// What a result does to the editor. The preview of the file dialog
    /// takes the contents read for it; everything else is the editor's own.
    /// An error is put on show, and ends the wait for a file being loaded.
    pub open spec fn async_handled(
        self,
        action: AsyncAction,
        after: EditorComponent,
        r: ActionResult,
        out_before: Outbox,
        out_after: Outbox,
    ) -> bool {
        match action {
            AsyncAction::PreviewContents(contents) => {
                &&& after == (EditorComponent {
                    file_dialog: FileSelectorComponent {
                        preview_component: crate::preview::PreviewComponent {
                            contents,
                            ..self.file_dialog.preview_component
                        },
                        ..self.file_dialog
                    },
                    ..self
                })
                &&& r == (ActionResult::Consumed { rerender: true })
                &&& out_after.same_as(out_before)
            },
            AsyncAction::LoadFileContents(contents) => {
                &&& self.loaded(after, contents@)
                &&& r == (ActionResult::Consumed { rerender: true })
                &&& out_after.same_as(out_before)
            },
            AsyncAction::SavedFile(result) => self.file_saved(
                result,
                after,
                r,
                out_before,
                out_after,
            ),
            AsyncAction::Error(message) => {
                &&& (EditorComponent { loading: false, ..self }).notified(after, message@, true)
                &&& r == (ActionResult::Consumed { rerender: true })
                &&& out_after.same_as(out_before)
            },
            AsyncAction::SelectPath(path, selector_type) => {
                &&& self.path_selected(path, selector_type, after, out_before, out_after)
                &&& r == (ActionResult::Consumed { rerender: true })
            },
            _ => {
                &&& after == self
                &&& r == (ActionResult::NotConsumed { rerender: false })
                &&& out_after.same_as(out_before)
            },
        }
    }

    pub fn handle_async_action(&mut self, action: &AsyncAction, out: &mut Outbox) -> (r:
        ActionResult)
        ensures
            crate::runtime::load(final(out).async_actions@) < crate::runtime::load(
                old(out).async_actions@,
            ) + crate::runtime::weight(*action),
            old(self).async_handled(*action, *final(self), r, *old(out), *final(out)),
    {
        proof {
            crate::runtime::lemma_load_push(out.async_actions@, AsyncAction::StartAnimation);
        }
        let f = self.file_dialog.handle_async_action(action);
        if f.is_consumed() {
            return f;
        }
        match action {
            AsyncAction::LoadFileContents(contents) => self.load_file_contents(contents.as_str()),
            AsyncAction::SavedFile(result) => self.handle_file_saved(result, out),
            AsyncAction::Error(message) => {
                self.loading = false;
                self.notification.notify_error(message.as_str());
                ActionResult::consumed(true)
            },
            AsyncAction::SelectPath(path, selector) => self.handle_selector(
                path.clone(),
                *selector,
                out,
            ),
            _ => ActionResult::default(),
        }
    }

    /// What the outcome of a request does to the editor.
    ///
    /// - A listing goes to the file dialog.
    /// - A text put on the clipboard is announced as `Cut` or `Copied`; a
    ///   failure to put it there is put on show as an error.
    /// - The clipboard's text is inserted at the cursor; an unavailable
    ///   clipboard changes nothing.
    pub open spec fn completed(
        self,
        completion: Completion,
        after: EditorComponent,
        r: ActionResult,
        out_before: Outbox,
        out_after: Outbox,
    ) -> bool {
        match completion {
            Completion::DirectoryListed { path, entries } => {
                &&& after.buffer == self.buffer
                &&& after.loading == self.loading
                &&& after.saving_file == self.saving_file
                &&& after.insert == self.insert
                &&& after.config == self.config
                &&& after.notification == self.notification
                &&& after.help_component == self.help_component
                &&& after.confirm_dialog_component == self.confirm_dialog_component
                &&& after.search_box_component == self.search_box_component
                &&& self.file_dialog.listed(path, entries, after.file_dialog, out_before, out_after)
                &&& r == (ActionResult::Consumed { rerender: entries is Some })
            },
            Completion::ClipboardWritten { purpose, failure } => {
                &&& self.notified(
                    after,
                    match failure {
                        Some(message) => message@,
                        None => match purpose {
                            ClipboardUse::Cut => "Cut"@,
                            ClipboardUse::Copy => "Copied"@,
                        },
                    },
                    failure is Some,
                )
                &&& r == (ActionResult::Consumed { rerender: true })
                &&& out_after.same_as(out_before)
            },
            Completion::ClipboardRead(Some(text)) => {
                &&& after.retexted(
                    self,
                    Action::PasteText(text),
                    edited(self.text(), Action::PasteText(text)),
                )
                &&& !after.text().selecting()
                &&& r == (ActionResult::Consumed { rerender: after.text().lines != self.text().lines })
                &&& out_after.same_as(out_before)
            },
            Completion::ClipboardRead(None) => {
                &&& after == self
                &&& r == (ActionResult::Consumed { rerender: false })
                &&& out_after.same_as(out_before)
            },
            Completion::HistoryRead(_) => {
                &&& after == self
                &&& r == (ActionResult::NotConsumed { rerender: false })
                &&& out_after.same_as(out_before)
            },
        }
    }

    pub fn handle_completion(&mut self, completion: &Completion, out: &mut Outbox) -> (r:
        ActionResult)
        ensures
            old(self).completed(*completion, *final(self), r, *old(out), *final(out)),
    {
        match completion {
            Completion::DirectoryListed { path, entries } => {
                self.file_dialog.directory_listed(path, entries, out);
                ActionResult::consumed(entries.is_some())
            },
            Completion::ClipboardWritten { purpose, failure } => {
                match failure {
                    Some(message) => self.notification.notify_error(message.as_str()),
                    None => match purpose {
                        ClipboardUse::Cut => self.notification.notify_text("Cut"),
                        ClipboardUse::Copy => self.notification.notify_text("Copied"),
                    },
                }
                ActionResult::consumed(true)
            },
            Completion::ClipboardRead(contents) => match contents {
                Some(text) => self.paste_text(text.as_str()),
                None => ActionResult::consumed(false),
            },
            Completion::HistoryRead(_) => ActionResult::default(),
        }
    }

    /// The caption of the mode that the editor is in.
    pub fn mode_title(&self) -> (r: &'static str)
        ensures
            r@ == if self.insert {
                " Insert "@
            } else {
                " Normal "@
            },
    {
        if self.insert {
            " Insert "
        } else {
            " Normal "
        }
    }
}

} // verus!
