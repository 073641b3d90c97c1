use vstd::prelude::*;

use crate::action::{Action, ActionResult, AsyncAction, SaveFileResult, SelectorType};
use crate::component::AppComponent;
use crate::confirm_dialog::ConfirmDialogComponent;
use crate::editor::{step_of, EditorComponent};
use crate::navigator::NavigatorComponent;
use crate::file_selector::FileSelectorComponent;
use crate::runtime::{Outbox, Request, Transition};
use crate::text::{
    cursor_after, joined_lines, typed_plainly, with_char, without_line_returns, TextState,
};

verus! {

/// Whether no overlay of the editor can take an arrow: the dialogs and the
/// search box are hidden, and so is the help overlay.
pub open spec fn overlays_idle(editor: EditorComponent) -> bool {
    &&& !editor.confirm_dialog_component.is_visible()
    &&& !editor.file_dialog.visible
    &&& editor.search_box_component.input() is None
    &&& !editor.help_component.visible
}

/// After any command that is no plain arrow, a plain arrow that the
/// overlays let pass leaves no selection in progress and the cursor where
/// the step takes it from where it stood; the text stays as it was.
pub proof fn law_plain_arrow_ends_selection(
    start: EditorComponent,
    first: Action,
    between: EditorComponent,
    arrow: Action,
    end: EditorComponent,
    first_answer: ActionResult,
    answer: ActionResult,
    out_start: Outbox,
    out_between: Outbox,
    out_end: Outbox,
)
    requires
        !(first is Up || first is Down || first is Left || first is Right),
        arrow is Up || arrow is Down || arrow is Left || arrow is Right,
        start.handled(first, between, first_answer, out_start, out_between),
        between.handled(arrow, end, answer, out_between, out_end),
        overlays_idle(between),
    ensures
        !end.text().selecting(),
        end.text().lines == between.text().lines,
        end.text().cursor == cursor_after(
            between.text().lines,
            between.text().cursor,
            step_of(arrow),
        ),
        answer == (ActionResult::Consumed { rerender: true }),
        out_end.same_as(out_between),
{
    let (mid, child, out_mid, own) = choose|
        mid: EditorComponent,
        child: ActionResult,
        out_mid: Outbox,
        own: ActionResult,
    |
        {
            &&& #[trigger] crate::editor::offered(mid, child, out_mid, own)
            &&& between.children_handled(arrow, mid, child, out_between, out_mid)
            &&& if child is Consumed {
                end == mid && answer == child && out_end.same_as(out_mid)
            } else {
                &&& mid.own_handled(arrow, end, own, out_mid, out_end)
                &&& answer == own.joined(child)
            }
        };
    assert(between.dialog_handled(arrow, mid, child, out_between, out_mid));
    assert(mid.text() == between.text());
    assert(child == (ActionResult::NotConsumed { rerender: false }));
    assert(mid.own_handled(arrow, end, own, out_mid, out_end));
}

/// `Cancel` does nothing to a hidden confirm dialog, however often it is
/// dispatched: the dialog stays as it is, issues nothing, and does not
/// consume the command.
pub proof fn law_cancel_on_hidden_dialog(dialog: ConfirmDialogComponent)
    requires
        !dialog.is_visible(),
    ensures
        dialog.after(Action::Cancel) == dialog,
        dialog.after(Action::Cancel).after(Action::Cancel) == dialog,
        dialog.answer(Action::Cancel) == (ActionResult::NotConsumed { rerender: false }),
        dialog.issued(Action::Cancel) == Seq::<Action>::empty(),
{
}

/// Going twice in a row to one screen, whichever, changes the screen once:
/// the second time nothing happens. Nothing is constructed, started or
/// asked for, and the way back stays as it was.
pub proof fn law_navigate_twice(
    start: NavigatorComponent,
    target: AppComponent,
    once: NavigatorComponent,
    twice: NavigatorComponent,
    out_start: Outbox,
    out_once: Outbox,
    out_twice: Outbox,
)
    requires
        !start.deferred,
        start.navigated(target, once, out_start, out_once),
        once.navigated(target, twice, out_once, out_twice),
    ensures
        twice == once,
        out_twice == out_once,
{
}

/// Where changes of screen wait for the leave transition: once the change
/// to a screen has taken place, going there again does nothing.
pub proof fn law_navigate_twice_deferred(
    start: NavigatorComponent,
    target: AppComponent,
    leaving: NavigatorComponent,
    once: NavigatorComponent,
    twice: NavigatorComponent,
    outs: (Outbox, Outbox, Outbox, Outbox),
)
    requires
        start.deferred,
        !start.current_component.same(target),
        start.navigated(target, leaving, outs.0, outs.1),
        leaving.entered(once, outs.1, outs.2),
        once.navigated(target, twice, outs.2, outs.3),
    ensures
        once.current_component == target,
        twice == once,
        outs.3 == outs.2,
{
}

/// Where changes of screen wait for the leave transition, going twice in a
/// row to one screen before the change has taken place buffers the same
/// change twice, and the screen on show stays.
pub proof fn law_navigate_twice_buffered(
    start: NavigatorComponent,
    target: AppComponent,
    once: NavigatorComponent,
    twice: NavigatorComponent,
    out_start: Outbox,
    out_once: Outbox,
    out_twice: Outbox,
)
    requires
        start.deferred,
        start.navigated(target, once, out_start, out_once),
        once.navigated(target, twice, out_once, out_twice),
    ensures
        twice.transitioning == once.transitioning,
        twice.component == start.component,
        twice.current_component == start.current_component,
        twice.previous_component == start.previous_component,
{
}

/// On the home screen with no way back, going back answers `false` and
/// changes nothing, the first time and every time after.
pub proof fn law_no_way_back_from_home(
    start: NavigatorComponent,
    once: NavigatorComponent,
    twice: NavigatorComponent,
    went_once: bool,
    went_twice: bool,
    out_start: Outbox,
    out_once: Outbox,
    out_twice: Outbox,
)
    requires
        start.current_component is HomeScreen,
        start.previous_component is None,
        start.returned(once, went_once, out_start, out_once),
        once.returned(twice, went_twice, out_once, out_twice),
    ensures
        !went_once,
        !went_twice,
        once == start,
        twice == start,
        out_once == out_start,
        out_twice == out_start,
{
}

/// When a save ends on a file that exists, the editor asks before writing
/// over it: the confirm dialog holds `Save`. Confirming issues `Save` and
/// closes the dialog; and `Save`, on a modified buffer, asks for the file
/// to be written with leave to write over it.
pub proof fn law_overwrite_is_confirmed(
    saving: EditorComponent,
    asking: EditorComponent,
    confirmed: EditorComponent,
    saved: EditorComponent,
    answers: (ActionResult, ActionResult, ActionResult),
    outs: (Outbox, Outbox, Outbox, Outbox),
)
    requires
        saving.saving_file,
        saving.buffer.modified,
        saving.buffer.file_path is Some,
        saving.notification.shown() is None,
        !saving.file_dialog.visible,
        saving.search_box_component.input() is None,
        !saving.help_component.visible,
        saving.async_handled(
            AsyncAction::SavedFile(SaveFileResult::ConfirmOverwrite),
            asking,
            answers.0,
            outs.0,
            outs.1,
        ),
        asking.handled(Action::Confirm, confirmed, answers.1, outs.1, outs.2),
        confirmed.handled(Action::Save, saved, answers.2, outs.2, outs.3),
    ensures
        asking.confirm_dialog_component.action_on_confirm == Some(Action::Save),
        outs.2.extends(outs.1, seq![Action::Save], seq![], seq![]),
        !confirmed.confirm_dialog_component.is_visible(),
        answers.1 == (ActionResult::Consumed { rerender: true }),
        saved.save_started(confirmed, saving.buffer.file_path->0, true, outs.2, outs.3),
        answers.2 == (ActionResult::Consumed { rerender: true }),
{
    let (mid, child, out_mid, own) = choose|
        mid: EditorComponent,
        child: ActionResult,
        out_mid: Outbox,
        own: ActionResult,
    |
        {
            &&& #[trigger] crate::editor::offered(mid, child, out_mid, own)
            &&& asking.children_handled(Action::Confirm, mid, child, outs.1, out_mid)
            &&& if child is Consumed {
                confirmed == mid && answers.1 == child && outs.2.same_as(out_mid)
            } else {
                &&& mid.own_handled(Action::Confirm, confirmed, own, out_mid, outs.2)
                &&& answers.1 == own.joined(child)
            }
        };
    assert(child is Consumed);
    assert(confirmed == mid);
    let (mid2, child2, out_mid2, own2) = choose|
        mid: EditorComponent,
        child: ActionResult,
        out_mid: Outbox,
        own: ActionResult,
    |
        {
            &&& #[trigger] crate::editor::offered(mid, child, out_mid, own)
            &&& confirmed.children_handled(Action::Save, mid, child, outs.2, out_mid)
            &&& if child is Consumed {
                saved == mid && answers.2 == child && outs.3.same_as(out_mid)
            } else {
                &&& mid.own_handled(Action::Save, saved, own, out_mid, outs.3)
                &&& answers.2 == own.joined(child)
            }
        };
    assert(confirmed.dialog_handled(Action::Save, mid2, child2, outs.2, out_mid2));
    assert(child2 == (ActionResult::NotConsumed { rerender: false }));
    assert(mid2.own_handled(Action::Save, saved, own2, out_mid2, outs.3));
    assert(mid2.buffer.file_path == saving.buffer.file_path);
    assert(saved.save_started(mid2, saving.buffer.file_path->0, true, out_mid2, outs.3));
}

/// A text without carriage returns loses nothing when the carriage returns
/// at line ends are dropped.
pub proof fn lemma_no_returns_nothing_dropped(text: Seq<char>)
    requires
        forall|i: int| 0 <= i < text.len() ==> text[i] != '\r',
    ensures
        without_line_returns(text) == text,
    decreases text.len(),
{
    if text.len() > 0 {
        lemma_no_returns_nothing_dropped(text.skip(1));
        assert(seq![text[0]] + text.skip(1) =~= text);
    }
}

/// What is loaded is what a save writes back: after the contents of a file
/// have arrived, in whatever state the editor was, a save writes the
/// contents as they were, but for carriage returns before a line feed or
/// at the very end; and exactly as they were where they hold no carriage
/// return. Loading leaves the buffer unmodified, without a selection, and
/// no longer loading.
pub proof fn law_loaded_contents_are_written_back(
    before: EditorComponent,
    contents: String,
    loaded: EditorComponent,
    saving: EditorComponent,
    path: String,
    overwrite: bool,
    answer: ActionResult,
    outs: (Outbox, Outbox, Outbox, Outbox),
)
    requires
        before.async_handled(
            AsyncAction::LoadFileContents(contents),
            loaded,
            answer,
            outs.0,
            outs.1,
        ),
        saving.save_started(loaded, path, overwrite, outs.2, outs.3),
    ensures
        answer == (ActionResult::Consumed { rerender: true }),
        !loaded.loading,
        !loaded.buffer.modified,
        !loaded.text().selecting(),
        exists|written: String|
            {
                &&& #[trigger] written@ == without_line_returns(contents@)
                &&& outs.3.extends(
                    outs.2,
                    seq![],
                    seq![],
                    seq![Request::WriteFile { path, contents: written, overwrite }],
                )
            },
        (forall|i: int| 0 <= i < contents@.len() ==> contents@[i] != '\r') ==> exists|
            written: String,
        |
            {
                &&& #[trigger] written@ == contents@
                &&& outs.3.extends(
                    outs.2,
                    seq![],
                    seq![],
                    seq![Request::WriteFile { path, contents: written, overwrite }],
                )
            },
{
    let written = choose|written: String|
        #![auto]
        {
            &&& written@ == joined_lines(loaded.text().lines)
            &&& outs.3.extends(
                outs.2,
                seq![],
                seq![],
                seq![Request::WriteFile { path, contents: written, overwrite }],
            )
        };
    assert(written@ == without_line_returns(contents@));
    if forall|i: int| 0 <= i < contents@.len() ==> contents@[i] != '\r' {
        lemma_no_returns_nothing_dropped(contents@);
        assert(written@ == contents@);
    }
}

/// When a save ends on a file that exists, nothing is written and nothing
/// is announced as saved: the wait is over, the confirm dialog is on show
/// and holds `Save`, buffer and notification are as they were, and only a
/// transition is asked for.
pub proof fn law_conflict_asks_before_writing(
    saving: EditorComponent,
    asking: EditorComponent,
    answer: ActionResult,
    out_before: Outbox,
    out_after: Outbox,
)
    requires
        saving.saving_file,
        saving.async_handled(
            AsyncAction::SavedFile(SaveFileResult::ConfirmOverwrite),
            asking,
            answer,
            out_before,
            out_after,
        ),
    ensures
        asking.confirm_dialog_component.is_visible(),
        asking.confirm_dialog_component.action_on_confirm == Some(Action::Save),
        !asking.saving_file,
        asking.buffer == saving.buffer,
        asking.notification == saving.notification,
        out_after.requests@ == out_before.requests@.push(
            Request::PlayTransition(Transition::NotificationEnter),
        ),
        out_after.actions@ == out_before.actions@,
        answer == (ActionResult::Consumed { rerender: true }),
{
}

/// `Save` on a buffer without a file, with no overlay on show, opens the
/// file dialog for naming a new file and starts no write: text, path and
/// the modified flag are as they were, nothing counts as being saved, and
/// the two requests made are for a directory listing and for a transition.
pub proof fn law_save_without_a_path_asks_for_one(
    editor: EditorComponent,
    after: EditorComponent,
    answer: ActionResult,
    out_before: Outbox,
    out_after: Outbox,
)
    requires
        editor.buffer.file_path is None,
        overlays_idle(editor),
        editor.handled(Action::Save, after, answer, out_before, out_after),
    ensures
        after.file_dialog.visible,
        after.file_dialog.input.selector_type == SelectorType::NewFile,
        after.buffer.text_area == editor.buffer.text_area,
        after.buffer.file_path is None,
        after.buffer.modified == editor.buffer.modified,
        after.saving_file == editor.saving_file,
        out_after.requests@.len() == out_before.requests@.len() + 2,
        out_after.requests@[out_before.requests@.len() as int] is ListDirectory,
        out_after.requests@[out_before.requests@.len() as int + 1] is PlayTransition,
        answer == (ActionResult::Consumed { rerender: true }),
{
    let (mid, child, out_mid, own) = choose|
        mid: EditorComponent,
        child: ActionResult,
        out_mid: Outbox,
        own: ActionResult,
    |
        {
            &&& #[trigger] crate::editor::offered(mid, child, out_mid, own)
            &&& editor.children_handled(Action::Save, mid, child, out_before, out_mid)
            &&& if child is Consumed {
                after == mid && answer == child && out_after.same_as(out_mid)
            } else {
                &&& mid.own_handled(Action::Save, after, own, out_mid, out_after)
                &&& answer == own.joined(child)
            }
        };
    assert(editor.dialog_handled(Action::Save, mid, child, out_before, out_mid));
    assert(child == (ActionResult::NotConsumed { rerender: false }));
    assert(mid.own_handled(Action::Save, after, own, out_mid, out_after));
    assert(after.dialog_opened(mid, SelectorType::NewFile, out_mid, out_after));
    let (dir, fallback) = choose|dir: String, fallback: Option<String>|
        #![auto]
        {
            &&& mid.starts_at(dir, fallback)
            &&& out_after.extends(
                out_mid,
                seq![],
                seq![AsyncAction::StartAnimation],
                seq![
                    Request::ListDirectory { path: dir, fallback },
                    Request::PlayTransition(Transition::DialogEnter),
                ],
            )
        };
    assert(out_mid.requests@ == out_before.requests@);
}

/// The choice of a path for a new file starts one write: the buffer turns
/// to the path, its lines joined by line feeds are asked to be written
/// there without leave to write over a file, the file dialog closes, and
/// the editor counts as saving.
pub proof fn law_new_file_choice_starts_one_write(
    editor: EditorComponent,
    path: String,
    after: EditorComponent,
    answer: ActionResult,
    out_before: Outbox,
    out_after: Outbox,
)
    requires
        editor.async_handled(
            AsyncAction::SelectPath(path, SelectorType::NewFile),
            after,
            answer,
            out_before,
            out_after,
        ),
    ensures
        after.saving_file,
        !after.file_dialog.visible,
        after.buffer.file_path == Some(path),
        after.buffer.text_area == editor.buffer.text_area,
        exists|written: String|
            {
                &&& #[trigger] written@ == joined_lines(editor.text().lines)
                &&& out_after.requests@ == out_before.requests@.push(
                    Request::WriteFile { path, contents: written, overwrite: false },
                )
            },
        answer == (ActionResult::Consumed { rerender: true }),
{
    let written = choose|contents: String|
        #![auto]
        {
            &&& contents@ == joined_lines(editor.text().lines)
            &&& out_after.extends(
                out_before,
                seq![],
                seq![],
                seq![Request::WriteFile { path, contents, overwrite: false }],
            )
        };
    assert(written@ == joined_lines(editor.text().lines));
    assert(out_after.requests@ =~= out_before.requests@.push(
        Request::WriteFile { path, contents: written, overwrite: false },
    ));
}

/// When a save ends well, `File saved` is put on show, not as an error;
/// the buffer belongs to the path and counts as unmodified, its text is as
/// it was, and the wait is over.
pub proof fn law_saved_file_is_announced(
    saving: EditorComponent,
    path: String,
    after: EditorComponent,
    answer: ActionResult,
    out_before: Outbox,
    out_after: Outbox,
)
    requires
        saving.saving_file,
        saving.async_handled(
            AsyncAction::SavedFile(SaveFileResult::Saved(path)),
            after,
            answer,
            out_before,
            out_after,
        ),
    ensures
        after.notification.shows(
            "File saved"@,
            false,
            crate::component::TICKS_UNTIL_REMOVE_POPUP as nat,
        ),
        after.buffer.file_path == Some(path),
        !after.buffer.modified,
        !after.saving_file,
        after.buffer.text_area == saving.buffer.text_area,
        out_after.same_as(out_before),
        answer == (ActionResult::Consumed { rerender: true }),
{
}

/// `Cancel` unwinds the file selector one stage at a time, in every mode:
/// with a filter in force and the list cursor on a row, the first clears
/// the filter only, the second takes the list cursor off its row only, and
/// the third hides the selector. Each is consumed, with a redraw.
pub proof fn law_cancel_unwinds_in_three_stages(
    start: FileSelectorComponent,
    first: FileSelectorComponent,
    second: FileSelectorComponent,
    third: FileSelectorComponent,
    answers: (ActionResult, ActionResult, ActionResult),
    outs: (Outbox, Outbox, Outbox, Outbox),
)
    requires
        start.visible,
        start.input.filter_in_force(),
        start.selected is Some,
        start.handled(Action::Cancel, first, answers.0, outs.0, outs.1),
        first.handled(Action::Cancel, second, answers.1, outs.1, outs.2),
        second.handled(Action::Cancel, third, answers.2, outs.2, outs.3),
    ensures
        first.visible && first.selected == start.selected && !first.input.filter_in_force(),
        first.filtered_paths is None,
        second.visible && second.selected is None && second.input == first.input,
        !third.visible,
        answers.0 == (ActionResult::Consumed { rerender: true }),
        answers.1 == (ActionResult::Consumed { rerender: true }),
        answers.2 == (ActionResult::Consumed { rerender: true }),
{
}

/// Where the command needs the clipboard and none is at hand, `Cut`,
/// `Copy` and `Paste` put that on show as an error and do nothing else:
/// the text, the selection and the yanked text are as they were, and
/// nothing is asked for.
pub proof fn law_no_clipboard_no_cut(
    editor: EditorComponent,
    action: Action,
    after: EditorComponent,
    answer: ActionResult,
    out_before: Outbox,
    out_after: Outbox,
)
    requires
        action is Cut || action is Copy || action is Paste,
        !editor.config.config.clipboard_available,
        editor.own_handled(action, after, answer, out_before, out_after),
    ensures
        after.buffer == editor.buffer,
        after.notification.shows(
            "Clipboard is unavailable"@,
            true,
            crate::component::TICKS_UNTIL_REMOVE_POPUP as nat,
        ),
        out_after.same_as(out_before),
        answer == (ActionResult::Consumed { rerender: true }),
{
}

/// A character typed where nothing is selected is taken back by `Undo`,
/// which brings back the lines and the cursor as they were, and brought
/// back by `Redo`, which gives the lines as they were after typing. Both
/// are consumed, with a redraw.
pub proof fn law_undo_takes_typing_back(
    start: EditorComponent,
    c: char,
    typed: EditorComponent,
    undone: EditorComponent,
    redone: EditorComponent,
    answers: (ActionResult, ActionResult, ActionResult),
    outs: (Outbox, Outbox, Outbox, Outbox),
)
    requires
        !start.text().selecting(),
        start.own_handled(Action::Character(c), typed, answers.0, outs.0, outs.1),
        typed.own_handled(Action::Undo, undone, answers.1, outs.1, outs.2),
        undone.own_handled(Action::Redo, redone, answers.2, outs.2, outs.3),
    ensures
        undone.text().lines == start.text().lines,
        undone.text().cursor == start.text().cursor,
        redone.text().lines == typed.text().lines,
        answers.1 == (ActionResult::Consumed { rerender: true }),
        answers.2 == (ActionResult::Consumed { rerender: true }),
{
}

/// On a new editor, typing two characters, then `Undo`, leaves the first
/// alone in the text; `Redo` brings the second back behind it.
pub proof fn law_type_two_undo_redo(
    editor: EditorComponent,
    a: char,
    b: char,
    steps: (EditorComponent, EditorComponent, EditorComponent, EditorComponent),
    answers: (ActionResult, ActionResult, ActionResult, ActionResult),
    outs: (Outbox, Outbox, Outbox, Outbox, Outbox),
)
    requires
        editor.text() == TextState::empty(),
        a != '\n' && a != '\r' && b != '\n' && b != '\r',
        editor.own_handled(Action::Character(a), steps.0, answers.0, outs.0, outs.1),
        steps.0.own_handled(Action::Character(b), steps.1, answers.1, outs.1, outs.2),
        steps.1.own_handled(Action::Undo, steps.2, answers.2, outs.2, outs.3),
        steps.2.own_handled(Action::Redo, steps.3, answers.3, outs.3, outs.4),
    ensures
        steps.1.text().lines == seq![seq![a, b]],
        steps.2.text().lines == seq![seq![a]],
        steps.3.text().lines == seq![seq![a, b]],
        steps.3.buffer.modified,
{
    let empty = TextState::empty();
    assert(typed_plainly(empty, a));
    assert(with_char(empty, a).lines =~= seq![seq![a]]) by {
        assert(empty.lines[0].insert(0, a) =~= seq![a]);
    }
    let one = steps.0.text();
    assert(one.lines == seq![seq![a]]);
    assert(typed_plainly(one, b));
    assert(with_char(one, b).lines =~= seq![seq![a, b]]) by {
        assert(one.lines[0].insert(1, b) =~= seq![a, b]);
    }
}

} // verus!
