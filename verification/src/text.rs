use vstd::prelude::*;

verus! {

/// The lines that a text area holds, each as its characters.
pub uninterp spec fn area_lines(input: TextInput) -> Seq<Seq<char>>;

/// The row and the column of a text area's cursor, both counted from zero.
pub uninterp spec fn area_cursor(input: TextInput) -> (nat, nat);

/// Where the selection of a text area began, while one is in progress.
pub uninterp spec fn area_selection(input: TextInput) -> Option<(nat, nat)>;

/// The text that a text area last cut or copied, its lines joined by line feeds.
pub uninterp spec fn area_yank(input: TextInput) -> Seq<char>;

/// The search pattern that a text area holds, as it was written.
pub uninterp spec fn area_pattern(input: TextInput) -> Option<Seq<char>>;

/// Whether a text area shows line numbers.
pub uninterp spec fn area_numbered(input: TextInput) -> bool;

/// The hint that a text area shows while its text is empty.
pub uninterp spec fn area_hint(input: TextInput) -> Seq<char>;

/// Whether a text area shows its hint in dark gray.
pub uninterp spec fn area_hint_dim(input: TextInput) -> bool;

/// The frame of a text area, if it has one: the title at its top left, the
/// footer at its bottom right, and whether it is tinted red.
pub uninterp spec fn area_frame(input: TextInput) -> Option<(Seq<char>, Seq<char>, bool)>;

/// What undoing would bring back in a text area: the lines and the cursor
/// as they were before the last edit that is not undone; `None` where there
/// is no such edit.
pub uninterp spec fn area_undo(input: TextInput) -> Option<(Seq<Seq<char>>, (nat, nat))>;

/// What redoing would bring back in a text area: the lines and the cursor
/// as they were after the edit undone last; `None` where no edit is undone.
pub uninterp spec fn area_redo(input: TextInput) -> Option<(Seq<Seq<char>>, (nat, nat))>;

/// The lines that undoing or redoing would bring back.
pub open spec fn lines_back(target: Option<(Seq<Seq<char>>, (nat, nat))>) -> Option<
    Seq<Seq<char>>,
> {
    match target {
        Some((lines, _)) => Some(lines),
        None => None,
    }
}

/// The lines joined by line feeds.
pub open spec fn joined_lines(lines: Seq<Seq<char>>) -> Seq<char>
    decreases lines.len(),
{
    if lines.len() == 0 {
        Seq::<char>::empty()
    } else if lines.len() == 1 {
        lines[0]
    } else {
        joined_lines(lines.drop_last()) + "\n"@ + lines.last()
    }
}

/// Whether a text holds no line feed and no carriage return. A title or a
/// footer with a line break would not be drawn as it reads.
pub open spec fn single_line(text: Seq<char>) -> bool {
    forall|i: int| 0 <= i < text.len() ==> text[i] != '\n' && text[i] != '\r'
}

/// Everything of a text area that the editor's rules depend on.
pub struct TextState {
    pub lines: Seq<Seq<char>>,
    pub cursor: (nat, nat),
    pub selection_start: Option<(nat, nat)>,
    pub yank: Seq<char>,
    pub pattern: Option<Seq<char>>,
    pub numbered: bool,
}

impl TextState {
    /// One empty line, the cursor at its start, nothing selected, cut or searched for.
    pub open spec fn empty() -> TextState {
        TextState {
            lines: seq![Seq::<char>::empty()],
            cursor: (0, 0),
            selection_start: None,
            yank: Seq::<char>::empty(),
            pattern: None,
            numbered: false,
        }
    }

    pub open spec fn selecting(self) -> bool {
        self.selection_start is Some
    }

    /// A text with the single empty line counts as empty.
    pub open spec fn is_blank(self) -> bool {
        self.lines.len() == 1 && self.lines[0].len() == 0
    }

    pub open spec fn with_selection(self, start: Option<(nat, nat)>) -> TextState {
        TextState { selection_start: start, ..self }
    }

    pub open spec fn with_cursor(self, cursor: (nat, nat)) -> TextState {
        TextState { cursor, ..self }
    }

    /// The state after a plain cursor step: only the cursor changes.
    pub open spec fn stepped(self, step: CursorStep) -> TextState {
        self.with_cursor(cursor_after(self.lines, self.cursor, step))
    }

    /// The state once everything is selected: the selection starts at the
    /// origin and the cursor stands at the end of the last line.
    pub open spec fn all_selected(self) -> TextState {
        let row = least(FAR as nat, (self.lines.len() - 1) as nat);
        let col = least(FAR as nat, self.lines[row as int].len());
        TextState { selection_start: Some((0, 0)), cursor: (row, col), ..self }
    }
}

/// The smaller of two numbers.
pub open spec fn least(a: nat, b: nat) -> nat {
    if a <= b {
        a
    } else {
        b
    }
}

/// The farthest row or column that a jump of the cursor can name.
pub const FAR: u16 = 0xffff;

/// The cursor movements that the editor uses.
#[derive(Clone, Copy, Debug, PartialEq, Eq, Structural)]
pub enum CursorStep {
    Forward,
    Back,
    Up,
    Down,
    Top,
    WordForward,
    WordEnd,
    WordBack,
}

/// Where a word-wise step takes the cursor, given the lines and the cursor.
pub uninterp spec fn word_cursor(lines: Seq<Seq<char>>, cursor: (nat, nat), step: CursorStep) -> (
    nat,
    nat,
);

/// Where a step takes the cursor. A step that cannot be taken (back from the
/// origin, up from the first line, forward or down from the end) leaves the
/// cursor where it is.
pub open spec fn cursor_after(lines: Seq<Seq<char>>, cursor: (nat, nat), step: CursorStep) -> (
    nat,
    nat,
) {
    let (row, col) = cursor;
    match step {
        CursorStep::Forward => if col >= lines[row as int].len() {
            if row + 1 < lines.len() {
                ((row + 1) as nat, 0)
            } else {
                cursor
            }
        } else {
            (row, col + 1)
        },
        CursorStep::Back => if col == 0 {
            if row == 0 {
                cursor
            } else {
                ((row - 1) as nat, lines[row - 1].len())
            }
        } else {
            (row, (col - 1) as nat)
        },
        CursorStep::Up => if row == 0 {
            cursor
        } else {
            ((row - 1) as nat, least(col, lines[row - 1].len()))
        },
        CursorStep::Down => if row + 1 < lines.len() {
            ((row + 1) as nat, least(col, lines[(row + 1) as int].len()))
        } else {
            cursor
        },
        CursorStep::Top => (0, least(col, lines[0].len())),
        _ => word_cursor(lines, cursor, step),
    }
}

/// The state after a character is typed: a selection is replaced by it.
pub uninterp spec fn after_insert_char(before: TextState, c: char) -> TextState;

/// Whether typing the character only puts it into the line at the cursor:
/// nothing is selected, the character breaks no line, and the cursor
/// stands in a line of the text.
pub open spec fn typed_plainly(before: TextState, c: char) -> bool {
    &&& !before.selecting()
    &&& c != '\n'
    &&& c != '\r'
    &&& before.cursor.0 < before.lines.len()
    &&& before.cursor.1 <= before.lines[before.cursor.0 as int].len()
}

/// The state with the character put into the line at the cursor, and the
/// cursor behind it.
pub open spec fn with_char(before: TextState, c: char) -> TextState {
    let (row, col) = before.cursor;
    TextState {
        lines: before.lines.update(row as int, before.lines[row as int].insert(col as int, c)),
        cursor: (row, col + 1),
        ..before
    }
}

/// The state after the line is broken at the cursor.
pub uninterp spec fn after_newline(before: TextState) -> TextState;

/// The state after a tab is typed.
pub uninterp spec fn after_tab(before: TextState) -> TextState;

/// The state after a text, possibly of several lines, is inserted at the cursor.
pub uninterp spec fn after_insert_str(before: TextState, text: Seq<char>) -> TextState;

/// The state after the selection, or else the character before the cursor, is deleted.
pub uninterp spec fn after_backspace(before: TextState) -> TextState;

/// The state after the selection, or else the character under the cursor, is deleted.
pub uninterp spec fn after_delete(before: TextState) -> TextState;

/// The state after the selection is cut.
pub uninterp spec fn after_cut(before: TextState) -> TextState;

/// The state after the selection is copied.
pub uninterp spec fn after_copy(before: TextState) -> TextState;

/// A text without the carriage returns that stand before a line feed or at
/// its very end. It is what a text area keeps of a text that it is given
/// to yank, and what the lines read that it makes of a text.
pub open spec fn without_line_returns(text: Seq<char>) -> Seq<char>
    decreases text.len(),
{
    if text.len() == 0 {
        text
    } else if text[0] == '\r' && (text.len() == 1 || text[1] == '\n') {
        without_line_returns(text.skip(1))
    } else {
        seq![text[0]] + without_line_returns(text.skip(1))
    }
}

/// Whether a text is a well-formed regular expression, within the size
/// limits of the `regex` crate on the platform that the library is built for.
pub uninterp spec fn compiles(pattern: Seq<char>) -> bool;

/// The next match of a pattern after the cursor, wrapping around the end.
pub uninterp spec fn match_forward(
    pattern: Option<Seq<char>>,
    lines: Seq<Seq<char>>,
    cursor: (nat, nat),
    at_cursor: bool,
) -> Option<(nat, nat)>;

/// The previous match of a pattern before the cursor, wrapping around the start.
pub uninterp spec fn match_back(
    pattern: Option<Seq<char>>,
    lines: Seq<Seq<char>>,
    cursor: (nat, nat),
    at_cursor: bool,
) -> Option<(nat, nat)>;

/// Whether a character has a meaning of its own in a regular expression.
pub open spec fn is_meta(c: char) -> bool {
    c == '\\' || c == '.' || c == '+' || c == '*' || c == '?' || c == '(' || c == ')' || c == '|'
        || c == '[' || c == ']' || c == '{' || c == '}' || c == '^' || c == '$' || c == '#' || c
        == '&' || c == '-' || c == '~'
}

/// A text with a backslash put before each of its meta characters.
pub open spec fn escaped(text: Seq<char>) -> Seq<char>
    decreases text.len(),
{
    if text.len() == 0 {
        text
    } else if is_meta(text.last()) {
        escaped(text.drop_last()).push('\\').push(text.last())
    } else {
        escaped(text.drop_last()).push(text.last())
    }
}

/// `regex::escape`: the text with every meta character escaped by a backslash.
#[verifier::external_body]
pub(crate) fn escape_pattern(text: &str) -> (r: String)
    ensures
        r@ == escaped(text@),
{
    regex::escape(text)
}

/// An editable text: a text area of `tui_textarea`, which does the editing,
/// seen through [`TextState`]. The field is open to the program around the
/// library for reading and drawing the text area, and for that only: what
/// is said below holds of a text area that only these methods have changed.
/// A change from outside, to the tab length for one, would break it.
///
/// What each method says of the text area is assumed of `tui_textarea`, as
/// read off its source; none of it is proved here. Where the outcome of an
/// edit takes the whole of the text area's code to state, it is given a
/// name, such as [`after_insert_char`], and nothing more is said of it.
#[verifier::external_body]
#[derive(Debug)]
pub struct TextInput {
    pub area: tui_textarea::TextArea<'static>,
}

impl View for TextInput {
    type V = TextState;

    open spec fn view(&self) -> TextState {
        TextState {
            lines: area_lines(*self),
            cursor: area_cursor(*self),
            selection_start: area_selection(*self),
            yank: area_yank(*self),
            pattern: area_pattern(*self),
            numbered: area_numbered(*self),
        }
    }
}

impl TextInput {
    /// `TextArea::default`: a text area with one empty line, the cursor at
    /// the origin, no selection, nothing yanked, no pattern, no line numbers;
    /// it has no frame, and no hint, which it would show in dark gray.
    #[verifier::external_body]
    pub(crate) fn new() -> (r: Self)
        ensures
            area_lines(r) == TextState::empty().lines,
            area_cursor(r) == (0nat, 0nat),
            area_selection(r) == None::<(nat, nat)>,
            area_yank(r) == Seq::<char>::empty(),
            area_pattern(r) == None::<Seq<char>>,
            !area_numbered(r),
            area_hint(r) == Seq::<char>::empty(),
            area_hint_dim(r),
            area_frame(r) == None::<(Seq<char>, Seq<char>, bool)>,
    {
        TextInput { area: tui_textarea::TextArea::default() }
    }

    /// `TextArea::lines`: a copy of the lines.
    #[verifier::external_body]
    pub(crate) fn lines(&self) -> (r: Vec<String>)
        ensures
            r.deep_view() == self@.lines,
    {
        self.area.lines().to_vec()
    }

    /// `TextArea::is_empty`: whether the text is the single empty line.
    #[verifier::external_body]
    pub(crate) fn is_empty(&self) -> (r: bool)
        ensures
            r == self@.is_blank(),
    {
        self.area.is_empty()
    }

    /// `TextArea::is_selecting`: whether a selection is in progress.
    #[verifier::external_body]
    pub(crate) fn is_selecting(&self) -> (r: bool)
        ensures
            r == self@.selecting(),
    {
        self.area.is_selecting()
    }

    /// `TextArea::start_selection`: the selection starts at the cursor; nothing else changes.
    #[verifier::external_body]
    pub(crate) fn start_selection(&mut self)
        ensures
            final(self)@ == old(self)@.with_selection(Some(old(self)@.cursor)),
    {
        self.area.start_selection()
    }

    /// `TextArea::cancel_selection`: no selection is left; nothing else changes.
    #[verifier::external_body]
    pub(crate) fn cancel_selection(&mut self)
        ensures
            final(self)@ == old(self)@.with_selection(None),
    {
        self.area.cancel_selection()
    }

    /// `TextArea::select_all`: the selection starts at the origin and the
    /// cursor jumps to the end of the text.
    #[verifier::external_body]
    pub(crate) fn select_all(&mut self)
        ensures
            final(self)@ == old(self)@.all_selected(),
    {
        self.area.select_all()
    }

    /// `TextArea::move_cursor`: the cursor takes the step; the text and the
    /// selection stay as they are. A word-wise step ends where the text
    /// area's word search puts it.
    #[verifier::external_body]
    pub(crate) fn move_cursor(&mut self, step: CursorStep)
        ensures
            final(self)@ == old(self)@.stepped(step),
            step is WordForward || step is WordEnd || step is WordBack ==> final(self)@.cursor
                == word_cursor(old(self)@.lines, old(self)@.cursor, step),
    {
        self.area.move_cursor(
            match step {
                CursorStep::Forward => tui_textarea::CursorMove::Forward,
                CursorStep::Back => tui_textarea::CursorMove::Back,
                CursorStep::Up => tui_textarea::CursorMove::Up,
                CursorStep::Down => tui_textarea::CursorMove::Down,
                CursorStep::Top => tui_textarea::CursorMove::Top,
                CursorStep::WordForward => tui_textarea::CursorMove::WordForward,
                CursorStep::WordEnd => tui_textarea::CursorMove::WordEnd,
                CursorStep::WordBack => tui_textarea::CursorMove::WordBack,
            },
        )
    }

    /// `TextArea::insert_char`: the state is a function of the state before
    /// and the character; no selection is left. Where nothing is selected
    /// and the character breaks no line, it goes into the line at the
    /// cursor, and the cursor behind it. The edit is the last of
    /// the history: nothing is left to redo and, where no selection was
    /// replaced, undoing brings back the lines and the cursor as they were.
    #[verifier::external_body]
    pub(crate) fn insert_char(&mut self, c: char)
        ensures
            final(self)@ == after_insert_char(old(self)@, c),
            !final(self)@.selecting(),
            typed_plainly(old(self)@, c) ==> final(self)@ == with_char(old(self)@, c),
            area_redo(*final(self)) is None,
            !old(self)@.selecting() ==> area_undo(*final(self)) == Some(
                (old(self)@.lines, old(self)@.cursor),
            ),
    {
        self.area.insert_char(c)
    }

    /// `TextArea::insert_newline`: likewise.
    #[verifier::external_body]
    pub(crate) fn insert_newline(&mut self)
        ensures
            final(self)@ == after_newline(old(self)@),
            !final(self)@.selecting(),
    {
        self.area.insert_newline()
    }

    /// `TextArea::insert_tab`: likewise.
    #[verifier::external_body]
    pub(crate) fn insert_tab(&mut self)
        ensures
            final(self)@ == after_tab(old(self)@),
            !final(self)@.selecting(),
    {
        self.area.insert_tab();
    }

    /// `TextArea::insert_str`: likewise. The answer is `true` unless the
    /// text is empty or a lone carriage return. Into an empty text area the
    /// text goes line by line, each line without a carriage return at its
    /// end: joined by line feeds, the lines read as the text does without
    /// those carriage returns.
    #[verifier::external_body]
    pub(crate) fn insert_str(&mut self, text: &str) -> (changed: bool)
        ensures
            final(self)@ == after_insert_str(old(self)@, text@),
            !final(self)@.selecting(),
            changed == (text@.len() > 0 && text@ != seq!['\r']),
            old(self)@.is_blank() && old(self)@.cursor == (0nat, 0nat) && !old(self)@.selecting()
                ==> joined_lines(final(self)@.lines) == without_line_returns(text@),
    {
        self.area.insert_str(text)
    }

    /// `TextArea::delete_char`: the state is a function of the state before;
    /// the answer says whether any text was deleted.
    #[verifier::external_body]
    pub(crate) fn delete_char(&mut self) -> (deleted: bool)
        ensures
            final(self)@ == after_backspace(old(self)@),
            !final(self)@.selecting(),
            deleted == (final(self)@.lines != old(self)@.lines),
    {
        self.area.delete_char()
    }

    /// `TextArea::delete_next_char`: likewise.
    #[verifier::external_body]
    pub(crate) fn delete_next_char(&mut self) -> (deleted: bool)
        ensures
            final(self)@ == after_delete(old(self)@),
            !final(self)@.selecting(),
            deleted == (final(self)@.lines != old(self)@.lines),
    {
        self.area.delete_next_char()
    }

    /// `TextArea::cut`: the selected text leaves the lines and becomes the
    /// yanked text; no selection is left. The answer says whether any text
    /// was cut.
    #[verifier::external_body]
    pub(crate) fn cut(&mut self) -> (changed: bool)
        ensures
            final(self)@ == after_cut(old(self)@),
            !final(self)@.selecting(),
            changed == (final(self)@.lines != old(self)@.lines),
    {
        self.area.cut()
    }

    /// `TextArea::copy`: the selected text becomes the yanked text; the lines
    /// and the cursor stay, no selection is left.
    #[verifier::external_body]
    pub(crate) fn copy(&mut self)
        ensures
            final(self)@ == after_copy(old(self)@),
            final(self)@.lines == old(self)@.lines,
            final(self)@.cursor == old(self)@.cursor,
            !final(self)@.selecting(),
    {
        self.area.copy()
    }

    /// `TextArea::yank_text`: the yanked text.
    #[verifier::external_body]
    pub(crate) fn yank_text(&self) -> (r: String)
        ensures
            r@ == self@.yank,
    {
        self.area.yank_text()
    }

    /// `TextArea::set_yank_text`: only the yanked text changes.
    #[verifier::external_body]
    pub(crate) fn set_yank_text(&mut self, text: String)
        ensures
            final(self)@ == (TextState { yank: without_line_returns(text@), ..old(self)@ }),
    {
        self.area.set_yank_text(text)
    }

    /// This text with lines and cursor brought back, and no selection; or
    /// as it is, where there is nothing to bring back.
    pub open spec fn restored(self, target: Option<(Seq<Seq<char>>, (nat, nat))>) -> TextState {
        match target {
            Some((lines, cursor)) => TextState {
                lines,
                cursor,
                selection_start: None,
                ..self@
            },
            None => self@,
        }
    }

    /// `TextArea::undo`: `false` when there is nothing to undo, and then
    /// nothing changes. Otherwise the lines and the cursor go back one edit
    /// and no selection is left; redoing would bring the lines back.
    #[verifier::external_body]
    pub(crate) fn undo(&mut self) -> (changed: bool)
        ensures
            changed == area_undo(*old(self)) is Some,
            final(self)@ == old(self).restored(area_undo(*old(self))),
            changed ==> lines_back(area_redo(*final(self))) == Some(old(self)@.lines),
    {
        self.area.undo()
    }

    /// `TextArea::redo`: as `undo`, one edit forward.
    #[verifier::external_body]
    pub(crate) fn redo(&mut self) -> (changed: bool)
        ensures
            changed == area_redo(*old(self)) is Some,
            final(self)@ == old(self).restored(area_redo(*old(self))),
            changed ==> lines_back(area_undo(*final(self))) == Some(old(self)@.lines),
    {
        self.area.redo()
    }

    /// `TextArea::set_search_pattern`: the empty pattern clears the search, a
    /// well-formed one replaces it, and one that does not compile is refused
    /// and leaves the search as it was.
    #[verifier::external_body]
    pub(crate) fn set_search_pattern(&mut self, pattern: &str) -> (accepted: bool)
        ensures
            accepted == (pattern@.len() == 0 || compiles(pattern@)),
            final(self)@ == (TextState {
                pattern: if !accepted {
                    old(self)@.pattern
                } else if pattern@.len() == 0 {
                    None
                } else {
                    Some(pattern@)
                },
                ..old(self)@
            }),
    {
        self.area.set_search_pattern(pattern).is_ok()
    }

    /// `TextArea::search_forward`: the cursor goes to the next match, if
    /// there is one; nothing else changes.
    #[verifier::external_body]
    pub(crate) fn search_forward(&mut self, at_cursor: bool) -> (found: bool)
        ensures
            found == match_forward(
                old(self)@.pattern,
                old(self)@.lines,
                old(self)@.cursor,
                at_cursor,
            ) is Some,
            final(self)@ == old(self)@.with_cursor(
                match match_forward(
                    old(self)@.pattern,
                    old(self)@.lines,
                    old(self)@.cursor,
                    at_cursor,
                ) {
                    Some(target) => target,
                    None => old(self)@.cursor,
                },
            ),
    {
        self.area.search_forward(at_cursor)
    }

    /// `TextArea::search_back`: the cursor goes to the previous match, if
    /// there is one; nothing else changes.
    #[verifier::external_body]
    pub(crate) fn search_back(&mut self, at_cursor: bool) -> (found: bool)
        ensures
            found == match_back(
                old(self)@.pattern,
                old(self)@.lines,
                old(self)@.cursor,
                at_cursor,
            ) is Some,
            final(self)@ == old(self)@.with_cursor(
                match match_back(
                    old(self)@.pattern,
                    old(self)@.lines,
                    old(self)@.cursor,
                    at_cursor,
                ) {
                    Some(target) => target,
                    None => old(self)@.cursor,
                },
            ),
    {
        self.area.search_back(at_cursor)
    }

    /// `TextArea::line_number_style`: whether line numbers are shown.
    #[verifier::external_body]
    pub(crate) fn is_numbered(&self) -> (r: bool)
        ensures
            r == self@.numbered,
    {
        self.area.line_number_style().is_some()
    }

    /// `TextArea::set_line_number_style`: line numbers are shown, in dark
    /// gray; nothing else changes.
    #[verifier::external_body]
    pub(crate) fn show_line_numbers(&mut self)
        ensures
            final(self)@ == (TextState { numbered: true, ..old(self)@ }),
    {
        let style = ratatui::style::Style::default().fg(ratatui::style::Color::DarkGray);
        self.area.set_line_number_style(style)
    }

    /// `TextArea::remove_line_number`: line numbers are hidden; nothing else changes.
    #[verifier::external_body]
    pub(crate) fn hide_line_numbers(&mut self)
        ensures
            final(self)@ == (TextState { numbered: false, ..old(self)@ }),
    {
        self.area.remove_line_number()
    }

    /// `TextArea::set_block`: the text area is framed by a rounded border
    /// with the title at its top left and the footer at its bottom right.
    /// What the text area holds, and its hint, do not change. Title and
    /// footer are to be single lines: a line break would be dropped from them.
    #[verifier::external_body]
    pub(crate) fn set_frame(&mut self, title: &str, footer: &str)
        requires
            single_line(title@),
            single_line(footer@),
        ensures
            final(self)@ == old(self)@,
            area_frame(*final(self)) == Some((title@, footer@, false)),
            area_hint(*final(self)) == area_hint(*old(self)),
            area_hint_dim(*final(self)) == area_hint_dim(*old(self)),
    {
        let block = ratatui::widgets::Block::bordered()
            .border_type(ratatui::widgets::BorderType::Rounded)
            .title_top(ratatui::text::Line::raw(title.to_string()).left_aligned())
            .title_bottom(ratatui::text::Line::raw(footer.to_string()).right_aligned());
        self.area.set_block(block)
    }

    /// `TextArea::set_block`: as [`TextInput::set_frame`], tinted red.
    #[verifier::external_body]
    pub(crate) fn set_alarm_frame(&mut self, title: &str, footer: &str)
        requires
            single_line(title@),
            single_line(footer@),
        ensures
            final(self)@ == old(self)@,
            area_frame(*final(self)) == Some((title@, footer@, true)),
            area_hint(*final(self)) == area_hint(*old(self)),
            area_hint_dim(*final(self)) == area_hint_dim(*old(self)),
    {
        let block = ratatui::widgets::Block::bordered()
            .border_type(ratatui::widgets::BorderType::Rounded)
            .title_top(ratatui::text::Line::raw(title.to_string()).left_aligned())
            .title_bottom(ratatui::text::Line::raw(footer.to_string()).right_aligned())
            .style(ratatui::style::Color::Red);
        self.area.set_block(block)
    }

    /// `TextArea::set_placeholder_text`: the hint shown while the text is
    /// empty. What the text area holds, its frame, and the colour of the
    /// hint do not change.
    #[verifier::external_body]
    pub(crate) fn set_placeholder_text(&mut self, hint: &str)
        ensures
            final(self)@ == old(self)@,
            area_hint(*final(self)) == hint@,
            area_hint_dim(*final(self)) == area_hint_dim(*old(self)),
            area_frame(*final(self)) == area_frame(*old(self)),
    {
        self.area.set_placeholder_text(hint)
    }

    /// `TextArea::set_placeholder_style`: the hint is shown in dark gray.
    /// What the text area holds, its frame, and the hint do not change.
    #[verifier::external_body]
    pub(crate) fn set_placeholder_style(&mut self)
        ensures
            final(self)@ == old(self)@,
            area_hint_dim(*final(self)),
            area_hint(*final(self)) == area_hint(*old(self)),
            area_frame(*final(self)) == area_frame(*old(self)),
    {
        let style = ratatui::style::Style::new().fg(ratatui::style::Color::DarkGray);
        self.area.set_placeholder_style(style)
    }
}

} // verus!
