use vstd::prelude::*;

use crate::action::SelectorType;
use crate::search_box::first_line;
use crate::text::{
    after_backspace, after_delete, after_insert_char, area_frame, area_hint, area_hint_dim,
    single_line, CursorStep, TextInput, TextState,
};

verus! {

/// The view of an input that may be absent.
pub open spec fn shown(input: Option<TextInput>) -> Option<TextState> {
    match input {
        Some(text) => Some(text@),
        None => None,
    }
}

/// The first line of an input that is present and not blank.
pub open spec fn entered(input: Option<TextState>) -> Option<Seq<char>> {
    match input {
        Some(state) => if state.is_blank() {
            None
        } else {
            Some(first_line(state))
        },
        None => None,
    }
}

/// A new text area under a title: empty, framed with the title at the top
/// left and no footer, and without a hint.
fn create_default_text_area(title: &str) -> (r: TextInput)
    requires
        single_line(title@),
    ensures
        r@ == TextState::empty(),
        area_frame(r) == Some((title@, Seq::<char>::empty(), false)),
        area_hint(r) == Seq::<char>::empty(),
        area_hint_dim(r),
{
    proof {
        reveal_strlit("");
        assert(""@ =~= Seq::<char>::empty());
        assert(single_line(""@));
    }
    let mut text_area = TextInput::new();
    text_area.set_frame(title, "");
    text_area
}

/// The inputs of the file selector: the name of a new file, and the filter
/// of the listing. Typing goes to the name where there is one, else to the filter.
#[derive(Debug)]
pub struct FileSelectorInput {
    pub text_area: Option<TextInput>,
    pub filter: Option<TextInput>,
    pub selector_type: SelectorType,
}

impl FileSelectorInput {
    /// The name being typed.
    pub open spec fn name(self) -> Option<TextState> {
        shown(self.text_area)
    }

    /// The filter being typed.
    pub open spec fn filtering(self) -> Option<TextState> {
        shown(self.filter)
    }

    /// No input, for opening a file.
    pub fn new() -> (r: Self)
        ensures
            r.name() is None,
            r.filtering() is None,
            r.selector_type == SelectorType::PickFile,
    {
        FileSelectorInput { text_area: None, filter: None, selector_type: SelectorType::PickFile }
    }

    /// Sets what is picked: picking a folder or a file opens an empty
    /// filter, naming a new file opens an empty name.
    pub fn change_type(&mut self, selector_type: SelectorType)
        ensures
            final(self).selector_type == selector_type,
            final(self).filtering() == if selector_type == SelectorType::NewFile {
                old(self).filtering()
            } else {
                Some(TextState::empty())
            },
            final(self).name() == if selector_type == SelectorType::NewFile {
                Some(TextState::empty())
            } else {
                old(self).name()
            },
    {
        self.selector_type = selector_type;
        match self.selector_type {
            SelectorType::PickFolder | SelectorType::PickFile => {
                proof {
                    reveal_strlit(" Search Folder ");
                }
                self.filter = Some(create_default_text_area(" Search Folder "));
            },
            SelectorType::NewFile => {
                proof {
                    reveal_strlit(" File Name ");
                }
                self.text_area = Some(create_default_text_area(" File Name "));
            },
        }
    }

    pub fn selector_type(&self) -> (r: SelectorType)
        ensures
            r == self.selector_type,
    {
        self.selector_type
    }

    pub fn clear(&mut self)
        ensures
            final(self).name() is None,
            final(self).filtering() is None,
            final(self).selector_type == old(self).selector_type,
    {
        self.filter = None;
        self.text_area = None;
    }

    /// The filter that was typed, if any.
    pub fn current_filter(&self) -> (r: Option<String>)
        ensures
            crate::paths::reads_as(r, entered(self.filtering())),
    {
        first_line_of(&self.filter)
    }

    /// The name that was typed, if any.
    pub fn current_text_area(&self) -> (r: Option<String>)
        ensures
            crate::paths::reads_as(r, entered(self.name())),
    {
        first_line_of(&self.text_area)
    }

    /// The inputs after an edit went to the one that typing goes to.
    pub open spec fn edited(self, after: FileSelectorInput, name: TextState, filter: TextState) -> bool {
        &&& after.selector_type == self.selector_type
        &&& after.name() == if self.name() is Some {
            Some(name)
        } else {
            None
        }
        &&& after.filtering() == if self.name() is None && self.filtering() is Some {
            Some(filter)
        } else {
            self.filtering()
        }
    }

    /// Whether there is an input for typing to go to.
    pub open spec fn accepts_typing(self) -> bool {
        self.name() is Some || self.filtering() is Some
    }

    /// The lines of the input that typing goes to.
    pub open spec fn typed_lines(self) -> Seq<Seq<char>> {
        match (self.name(), self.filtering()) {
            (Some(state), _) => state.lines,
            (None, Some(state)) => state.lines,
            (None, None) => Seq::empty(),
        }
    }

    /// Deletes the character under the cursor. The answer says whether any
    /// text was deleted.
    pub fn delete(&mut self) -> (r: bool)
        ensures
            old(self).edited(
                *final(self),
                after_delete(old(self).name()->0),
                after_delete(old(self).filtering()->0),
            ),
            r == (final(self).typed_lines() != old(self).typed_lines()),
    {
        match self.text_area.take() {
            Some(mut text_area) => {
                let r = text_area.delete_next_char();
                self.text_area = Some(text_area);
                r
            },
            None => match self.filter.take() {
                Some(mut text_area) => {
                    let r = text_area.delete_next_char();
                    self.filter = Some(text_area);
                    r
                },
                None => false,
            },
        }
    }

    /// Deletes the character before the cursor. The answer says whether any
    /// text was deleted.
    pub fn backspace(&mut self) -> (r: bool)
        ensures
            old(self).edited(
                *final(self),
                after_backspace(old(self).name()->0),
                after_backspace(old(self).filtering()->0),
            ),
            r == (final(self).typed_lines() != old(self).typed_lines()),
    {
        match self.text_area.take() {
            Some(mut text_area) => {
                let r = text_area.delete_char();
                self.text_area = Some(text_area);
                r
            },
            None => match self.filter.take() {
                Some(mut text_area) => {
                    let r = text_area.delete_char();
                    self.filter = Some(text_area);
                    r
                },
                None => false,
            },
        }
    }

    pub fn filter_active(&self) -> (r: bool)
        ensures
            r == self.filtering() is Some,
    {
        self.filter.is_some()
    }

    /// Types a character. The answer says whether an input took it.
    pub fn handle_character(&mut self, character: char) -> (r: bool)
        ensures
            old(self).edited(
                *final(self),
                after_insert_char(old(self).name()->0, character),
                after_insert_char(old(self).filtering()->0, character),
            ),
            r == old(self).accepts_typing(),
    {
        match self.text_area.take() {
            Some(mut text_area) => {
                text_area.insert_char(character);
                self.text_area = Some(text_area);
                true
            },
            None => match self.filter.take() {
                Some(mut text_area) => {
                    text_area.insert_char(character);
                    self.filter = Some(text_area);
                    true
                },
                None => false,
            },
        }
    }

    /// Moves the cursor of the filter where there is one, else of the name.
    pub fn move_cursor(&mut self, cursor_move: CursorStep)
        ensures
            final(self).selector_type == old(self).selector_type,
            final(self).filtering() == match old(self).filtering() {
                Some(state) => Some(state.stepped(cursor_move)),
                None => None,
            },
            final(self).name() == match (old(self).filtering(), old(self).name()) {
                (None, Some(state)) => Some(state.stepped(cursor_move)),
                _ => old(self).name(),
            },
    {
        match self.filter.take() {
            Some(mut text_area) => {
                text_area.move_cursor(cursor_move);
                self.filter = Some(text_area);
            },
            None => match self.text_area.take() {
                Some(mut text_area) => {
                    text_area.move_cursor(cursor_move);
                    self.text_area = Some(text_area);
                },
                None => {},
            },
        }
    }

    /// Opens an empty filter, in every mode but picking a folder.
    pub fn toggle_filter(&mut self) -> (r: bool)
        ensures
            r == (old(self).selector_type != SelectorType::PickFolder),
            final(self).selector_type == old(self).selector_type,
            final(self).name() == old(self).name(),
            final(self).filtering() == if r {
                Some(TextState::empty())
            } else {
                old(self).filtering()
            },
            !r ==> *final(self) == *old(self),
    {
        if self.selector_type == SelectorType::PickFolder {
            return false;
        }
        proof {
            reveal_strlit(" Search Folder ");
        }
        self.filter = Some(create_default_text_area(" Search Folder "));
        true
    }

    /// Whether a filter is in force: something is typed into the filter,
    /// or the filter of a new-file selector is open.
    pub open spec fn filter_in_force(self) -> bool {
        (self.selector_type == SelectorType::NewFile && self.filtering() is Some) || entered(
            self.filtering(),
        ) is Some
    }

    /// The filter once it has been cleared: closed in a new-file selector,
    /// which opens it on demand, and empty in every other.
    pub open spec fn cleared_filter(self) -> Option<TextState> {
        if self.selector_type == SelectorType::NewFile {
            None
        } else {
            Some(TextState::empty())
        }
    }

    /// Clears the filter, in every mode. The answer says whether one was in
    /// force; where none was, nothing changes.
    pub fn cancel(&mut self) -> (r: bool)
        ensures
            r == old(self).filter_in_force(),
            final(self).selector_type == old(self).selector_type,
            final(self).name() == old(self).name(),
            final(self).filtering() == if r {
                old(self).cleared_filter()
            } else {
                old(self).filtering()
            },
            !r ==> *final(self) == *old(self),
            !final(self).filter_in_force() || !r,
    {
        if self.selector_type == SelectorType::NewFile {
            if self.filter.is_some() {
                self.filter = None;
                return true;
            }
            return false;
        }
        let typed = match &self.filter {
            Some(filter) => !filter.is_empty(),
            None => false,
        };
        if typed {
            proof {
                reveal_strlit(" Search Folder ");
            }
            self.filter = Some(create_default_text_area(" Search Folder "));
            return true;
        }
        false
    }
}

/// The first line of an input that is present and not blank.
fn first_line_of(input: &Option<TextInput>) -> (r: Option<String>)
    ensures
        crate::paths::reads_as(r, entered(shown(*input))),
{
    match input {
        Some(text) => {
            if text.is_empty() {
                None
            } else {
                let mut lines = text.lines();
                proof {
                    assert(lines.deep_view().len() == lines@.len());
                    if lines@.len() > 0 {
                        assert(lines.deep_view()[0] == lines@[0]@);
                    }
                }
                if lines.len() > 0 {
                    Some(lines.swap_remove(0))
                } else {
                    Some(String::new())
                }
            }
        },
        None => None,
    }
}

} // verus!
