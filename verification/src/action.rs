use vstd::prelude::*;
use vstd::std_specs::cmp::PartialEqSpecImpl;
use vstd::string::StringExecFns;

use crate::component::AppComponent;

verus! {

/// How a background save ended.
#[derive(Debug)]
pub enum SaveFileResult {
    /// The buffer was written to this path.
    Saved(String),
    /// The write failed; the text is the system's message.
    Error(String),
    /// The target names no file (it is a directory): a destination has to be picked.
    MissingName,
    /// The target exists and overwriting was not allowed: the user has to confirm.
    ConfirmOverwrite,
}

impl Clone for SaveFileResult {
    fn clone(&self) -> (r: Self)
        ensures
            r == *self,
    {
        match self {
            SaveFileResult::Saved(path) => SaveFileResult::Saved(path.clone()),
            SaveFileResult::Error(message) => SaveFileResult::Error(message.clone()),
            SaveFileResult::MissingName => SaveFileResult::MissingName,
            SaveFileResult::ConfirmOverwrite => SaveFileResult::ConfirmOverwrite,
        }
    }
}

impl PartialEq for SaveFileResult {
    fn eq(&self, other: &SaveFileResult) -> (r: bool) {
        match (self, other) {
            (SaveFileResult::Saved(a), SaveFileResult::Saved(b)) => *a == *b,
            (SaveFileResult::Error(a), SaveFileResult::Error(b)) => *a == *b,
            (SaveFileResult::MissingName, SaveFileResult::MissingName) => true,
            (SaveFileResult::ConfirmOverwrite, SaveFileResult::ConfirmOverwrite) => true,
            _ => false,
        }
    }
}

impl Eq for SaveFileResult {}

impl PartialEqSpecImpl for SaveFileResult {
    open spec fn obeys_eq_spec() -> bool {
        true
    }

    open spec fn eq_spec(&self, other: &SaveFileResult) -> bool {
        self.same(*other)
    }
}

impl SaveFileResult {
    /// Two results are the same when they are the same variant and their texts read the same.
    pub open spec fn same(self, other: SaveFileResult) -> bool {
        match (self, other) {
            (SaveFileResult::Saved(a), SaveFileResult::Saved(b)) => a@ == b@,
            (SaveFileResult::Error(a), SaveFileResult::Error(b)) => a@ == b@,
            (SaveFileResult::MissingName, SaveFileResult::MissingName) => true,
            (SaveFileResult::ConfirmOverwrite, SaveFileResult::ConfirmOverwrite) => true,
            _ => false,
        }
    }
}

/// What the file selector is being asked to pick.
#[derive(Copy, Clone, Debug, PartialEq, Eq, Structural)]
pub enum SelectorType {
    PickFolder,
    PickFile,
    NewFile,
}

impl Default for SelectorType {
    fn default() -> (r: Self)
        ensures
            r == SelectorType::PickFile,
    {
        SelectorType::PickFile
    }
}

impl SelectorType {
    /// Files are listed only when a file is to be opened.
    pub fn show_files(&self) -> (r: bool)
        ensures
            r == (*self == SelectorType::PickFile),
    {
        *self == SelectorType::PickFile
    }

    /// A folder may be the final choice in every mode but opening a file.
    pub fn can_pick_folder(&self) -> (r: bool)
        ensures
            r == (*self != SelectorType::PickFile),
    {
        *self != SelectorType::PickFile
    }

    /// The caption of the selector in this mode.
    pub open spec fn caption(self) -> Seq<char> {
        match self {
            SelectorType::PickFolder => " Pick Directory "@,
            SelectorType::PickFile => " Open File "@,
            SelectorType::NewFile => " New File "@,
        }
    }

    pub fn to_string(&self) -> (r: String)
        ensures
            r@ == self.caption(),
    {
        match self {
            SelectorType::PickFolder => String::from_str(" Pick Directory "),
            SelectorType::PickFile => String::from_str(" Open File "),
            SelectorType::NewFile => String::from_str(" New File "),
        }
    }
}

/// A command issued by the user, through a key binding or the terminal.
///
/// `Tick` is the only command the runtime issues by itself. Every handler
/// answers a command with an [`ActionResult`].
#[derive(Debug)]
pub enum Action {
    Character(char),
    PasteText(String),
    Resize(u16, u16),
    Save,
    SaveTo,
    Tick,
    Up,
    Down,
    Left,
    Right,
    SelectUp,
    SelectDown,
    SelectLeft,
    SelectRight,
    Confirm,
    Cancel,
    Return,
    Select,
    SelectAll,
    Paste,
    Cut,
    Copy,
    Insert,
    Backspace,
    Delete,
    NewLine,
    Tab,
    Undo,
    Redo,
    PageUp,
    PageDown,
    EndOfWord,
    StartOfWord,
    OpenFile,
    NewFile,
    FileHistory,
    Config,
    Help,
    Search,
    ToggleSearchRegex,
    ToggleLineNumber,
    TogglePreview,
    ReloadPreview,
    Quit,
}

impl Clone for Action {
    fn clone(&self) -> (r: Self)
        ensures
            r == *self,
    {
        match self {
            Action::Character(c) => Action::Character(*c),
            Action::PasteText(text) => Action::PasteText(text.clone()),
            Action::Resize(width, height) => Action::Resize(*width, *height),
            Action::Save => Action::Save,
            Action::SaveTo => Action::SaveTo,
            Action::Tick => Action::Tick,
            Action::Up => Action::Up,
            Action::Down => Action::Down,
            Action::Left => Action::Left,
            Action::Right => Action::Right,
            Action::SelectUp => Action::SelectUp,
            Action::SelectDown => Action::SelectDown,
            Action::SelectLeft => Action::SelectLeft,
            Action::SelectRight => Action::SelectRight,
            Action::Confirm => Action::Confirm,
            Action::Cancel => Action::Cancel,
            Action::Return => Action::Return,
            Action::Select => Action::Select,
            Action::SelectAll => Action::SelectAll,
            Action::Paste => Action::Paste,
            Action::Cut => Action::Cut,
            Action::Copy => Action::Copy,
            Action::Insert => Action::Insert,
            Action::Backspace => Action::Backspace,
            Action::Delete => Action::Delete,
            Action::NewLine => Action::NewLine,
            Action::Tab => Action::Tab,
            Action::Undo => Action::Undo,
            Action::Redo => Action::Redo,
            Action::PageUp => Action::PageUp,
            Action::PageDown => Action::PageDown,
            Action::EndOfWord => Action::EndOfWord,
            Action::StartOfWord => Action::StartOfWord,
            Action::OpenFile => Action::OpenFile,
            Action::NewFile => Action::NewFile,
            Action::FileHistory => Action::FileHistory,
            Action::Config => Action::Config,
            Action::Help => Action::Help,
            Action::Search => Action::Search,
            Action::ToggleSearchRegex => Action::ToggleSearchRegex,
            Action::ToggleLineNumber => Action::ToggleLineNumber,
            Action::TogglePreview => Action::TogglePreview,
            Action::ReloadPreview => Action::ReloadPreview,
            Action::Quit => Action::Quit,
        }
    }
}

impl PartialEq for Action {
    fn eq(&self, other: &Action) -> (r: bool) {
        match (self, other) {
            (Action::Character(a), Action::Character(b)) => *a == *b,
            (Action::PasteText(a), Action::PasteText(b)) => *a == *b,
            (Action::Resize(w1, h1), Action::Resize(w2, h2)) => *w1 == *w2 && *h1 == *h2,
            (Action::Save, Action::Save) => true,
            (Action::SaveTo, Action::SaveTo) => true,
            (Action::Tick, Action::Tick) => true,
            (Action::Up, Action::Up) => true,
            (Action::Down, Action::Down) => true,
            (Action::Left, Action::Left) => true,
            (Action::Right, Action::Right) => true,
            (Action::SelectUp, Action::SelectUp) => true,
            (Action::SelectDown, Action::SelectDown) => true,
            (Action::SelectLeft, Action::SelectLeft) => true,
            (Action::SelectRight, Action::SelectRight) => true,
            (Action::Confirm, Action::Confirm) => true,
            (Action::Cancel, Action::Cancel) => true,
            (Action::Return, Action::Return) => true,
            (Action::Select, Action::Select) => true,
            (Action::SelectAll, Action::SelectAll) => true,
            (Action::Paste, Action::Paste) => true,
            (Action::Cut, Action::Cut) => true,
            (Action::Copy, Action::Copy) => true,
            (Action::Insert, Action::Insert) => true,
            (Action::Backspace, Action::Backspace) => true,
            (Action::Delete, Action::Delete) => true,
            (Action::NewLine, Action::NewLine) => true,
            (Action::Tab, Action::Tab) => true,
            (Action::Undo, Action::Undo) => true,
            (Action::Redo, Action::Redo) => true,
            (Action::PageUp, Action::PageUp) => true,
            (Action::PageDown, Action::PageDown) => true,
            (Action::EndOfWord, Action::EndOfWord) => true,
            (Action::StartOfWord, Action::StartOfWord) => true,
            (Action::OpenFile, Action::OpenFile) => true,
            (Action::NewFile, Action::NewFile) => true,
            (Action::FileHistory, Action::FileHistory) => true,
            (Action::Config, Action::Config) => true,
            (Action::Help, Action::Help) => true,
            (Action::Search, Action::Search) => true,
            (Action::ToggleSearchRegex, Action::ToggleSearchRegex) => true,
            (Action::ToggleLineNumber, Action::ToggleLineNumber) => true,
            (Action::TogglePreview, Action::TogglePreview) => true,
            (Action::ReloadPreview, Action::ReloadPreview) => true,
            (Action::Quit, Action::Quit) => true,
            _ => false,
        }
    }
}

impl Eq for Action {}

impl PartialEqSpecImpl for Action {
    open spec fn obeys_eq_spec() -> bool {
        true
    }

    open spec fn eq_spec(&self, other: &Action) -> bool {
        self.same(*other)
    }
}

impl Action {
    /// Two commands are the same when they are the same variant with the same
    /// payload; pasted texts are compared by what they read.
    pub open spec fn same(self, other: Action) -> bool {
        match (self, other) {
            (Action::PasteText(a), Action::PasteText(b)) => a@ == b@,
            (a, b) => a == b,
        }
    }

    /// Exactly the four plain arrow commands are directional: they cancel a
    /// selection in progress before the cursor moves.
    pub fn is_directional_action(&self) -> (r: bool)
        ensures
            r == (*self is Up || *self is Down || *self is Left || *self is Right),
    {
        match self {
            Action::Up | Action::Down | Action::Left | Action::Right => true,
            _ => false,
        }
    }

    /// The name of the command, as key-binding tables and the help overlay show it.
    pub open spec fn name(self) -> Seq<char> {
        match self {
            Action::Character(_) => "Character"@,
            Action::PasteText(_) => "PasteText"@,
            Action::Resize(_, _) => "Resize"@,
            Action::Save => "Save"@,
            Action::SaveTo => "SaveTo"@,
            Action::Tick => "Tick"@,
            Action::Up => "Up"@,
            Action::Down => "Down"@,
            Action::Left => "Left"@,
            Action::Right => "Right"@,
            Action::SelectUp => "SelectUp"@,
            Action::SelectDown => "SelectDown"@,
            Action::SelectLeft => "SelectLeft"@,
            Action::SelectRight => "SelectRight"@,
            Action::Confirm => "Confirm"@,
            Action::Cancel => "Cancel"@,
            Action::Return => "Return"@,
            Action::Select => "Select"@,
            Action::SelectAll => "SelectAll"@,
            Action::Paste => "Paste"@,
            Action::Cut => "Cut"@,
            Action::Copy => "Copy"@,
            Action::Insert => "Insert"@,
            Action::Backspace => "Backspace"@,
            Action::Delete => "Delete"@,
            Action::NewLine => "NewLine"@,
            Action::Tab => "Tab"@,
            Action::Undo => "Undo"@,
            Action::Redo => "Redo"@,
            Action::PageUp => "PageUp"@,
            Action::PageDown => "PageDown"@,
            Action::EndOfWord => "EndOfWord"@,
            Action::StartOfWord => "StartOfWord"@,
            Action::OpenFile => "OpenFile"@,
            Action::NewFile => "NewFile"@,
            Action::FileHistory => "FileHistory"@,
            Action::Config => "Config"@,
            Action::Help => "Help"@,
            Action::Search => "Search"@,
            Action::ToggleSearchRegex => "ToggleSearchRegex"@,
            Action::ToggleLineNumber => "ToggleLineNumber"@,
            Action::TogglePreview => "TogglePreview"@,
            Action::ReloadPreview => "ReloadPreview"@,
            Action::Quit => "Quit"@,
        }
    }

    pub fn to_string(&self) -> (r: String)
        ensures
            r@ == self.name(),
    {
        match self {
            Action::Character(_) => String::from_str("Character"),
            Action::PasteText(_) => String::from_str("PasteText"),
            Action::Resize(_, _) => String::from_str("Resize"),
            Action::Save => String::from_str("Save"),
            Action::SaveTo => String::from_str("SaveTo"),
            Action::Tick => String::from_str("Tick"),
            Action::Up => String::from_str("Up"),
            Action::Down => String::from_str("Down"),
            Action::Left => String::from_str("Left"),
            Action::Right => String::from_str("Right"),
            Action::SelectUp => String::from_str("SelectUp"),
            Action::SelectDown => String::from_str("SelectDown"),
            Action::SelectLeft => String::from_str("SelectLeft"),
            Action::SelectRight => String::from_str("SelectRight"),
            Action::Confirm => String::from_str("Confirm"),
            Action::Cancel => String::from_str("Cancel"),
            Action::Return => String::from_str("Return"),
            Action::Select => String::from_str("Select"),
            Action::SelectAll => String::from_str("SelectAll"),
            Action::Paste => String::from_str("Paste"),
            Action::Cut => String::from_str("Cut"),
            Action::Copy => String::from_str("Copy"),
            Action::Insert => String::from_str("Insert"),
            Action::Backspace => String::from_str("Backspace"),
            Action::Delete => String::from_str("Delete"),
            Action::NewLine => String::from_str("NewLine"),
            Action::Tab => String::from_str("Tab"),
            Action::Undo => String::from_str("Undo"),
            Action::Redo => String::from_str("Redo"),
            Action::PageUp => String::from_str("PageUp"),
            Action::PageDown => String::from_str("PageDown"),
            Action::EndOfWord => String::from_str("EndOfWord"),
            Action::StartOfWord => String::from_str("StartOfWord"),
            Action::OpenFile => String::from_str("OpenFile"),
            Action::NewFile => String::from_str("NewFile"),
            Action::FileHistory => String::from_str("FileHistory"),
            Action::Config => String::from_str("Config"),
            Action::Help => String::from_str("Help"),
            Action::Search => String::from_str("Search"),
            Action::ToggleSearchRegex => String::from_str("ToggleSearchRegex"),
            Action::ToggleLineNumber => String::from_str("ToggleLineNumber"),
            Action::TogglePreview => String::from_str("TogglePreview"),
            Action::ReloadPreview => String::from_str("ReloadPreview"),
            Action::Quit => String::from_str("Quit"),
        }
    }
}

/// A result or command produced by the application itself: by a component
/// reacting to a command, or by a background task. No key is ever bound to one.
#[derive(Debug)]
pub enum AsyncAction {
    LoadFileContents(String),
    SavedFile(SaveFileResult),
    /// Go to the given screen, or back from the current one when `None`.
    Navigate(Option<AppComponent>),
    SelectPath(String, SelectorType),
    Error(String),
    StartAnimation,
    StopAnimation,
    PreviewContents(Option<String>),
}

impl Clone for AsyncAction {
    fn clone(&self) -> (r: Self)
        ensures
            r == *self,
    {
        match self {
            AsyncAction::LoadFileContents(text) => AsyncAction::LoadFileContents(text.clone()),
            AsyncAction::SavedFile(result) => AsyncAction::SavedFile(result.clone()),
            AsyncAction::Navigate(target) => match target {
                Some(screen) => AsyncAction::Navigate(Some(screen.clone())),
                None => AsyncAction::Navigate(None),
            },
            AsyncAction::SelectPath(path, selector) => AsyncAction::SelectPath(
                path.clone(),
                *selector,
            ),
            AsyncAction::Error(message) => AsyncAction::Error(message.clone()),
            AsyncAction::StartAnimation => AsyncAction::StartAnimation,
            AsyncAction::StopAnimation => AsyncAction::StopAnimation,
            AsyncAction::PreviewContents(contents) => match contents {
                Some(text) => AsyncAction::PreviewContents(Some(text.clone())),
                None => AsyncAction::PreviewContents(None),
            },
        }
    }
}

impl PartialEq for AsyncAction {
    fn eq(&self, other: &AsyncAction) -> (r: bool) {
        match (self, other) {
            (AsyncAction::LoadFileContents(a), AsyncAction::LoadFileContents(b)) => *a == *b,
            (AsyncAction::SavedFile(a), AsyncAction::SavedFile(b)) => *a == *b,
            (AsyncAction::Navigate(Some(a)), AsyncAction::Navigate(Some(b))) => *a == *b,
            (AsyncAction::Navigate(None), AsyncAction::Navigate(None)) => true,
            (AsyncAction::SelectPath(p, s), AsyncAction::SelectPath(q, t)) => *p == *q && *s == *t,
            (AsyncAction::Error(a), AsyncAction::Error(b)) => *a == *b,
            (AsyncAction::StartAnimation, AsyncAction::StartAnimation) => true,
            (AsyncAction::StopAnimation, AsyncAction::StopAnimation) => true,
            (AsyncAction::PreviewContents(Some(a)), AsyncAction::PreviewContents(Some(b))) => *a == *b,
            (AsyncAction::PreviewContents(None), AsyncAction::PreviewContents(None)) => true,
            _ => false,
        }
    }
}

impl Eq for AsyncAction {}

impl PartialEqSpecImpl for AsyncAction {
    open spec fn obeys_eq_spec() -> bool {
        true
    }

    open spec fn eq_spec(&self, other: &AsyncAction) -> bool {
        self.same(*other)
    }
}

impl AsyncAction {
    /// Same variant, same payload; texts are compared by what they read.
    pub open spec fn same(self, other: AsyncAction) -> bool {
        match (self, other) {
            (AsyncAction::LoadFileContents(a), AsyncAction::LoadFileContents(b)) => a@ == b@,
            (AsyncAction::SavedFile(a), AsyncAction::SavedFile(b)) => a.same(b),
            (AsyncAction::Navigate(Some(a)), AsyncAction::Navigate(Some(b))) => a.same(b),
            (AsyncAction::Navigate(None), AsyncAction::Navigate(None)) => true,
            (AsyncAction::SelectPath(p, s), AsyncAction::SelectPath(q, t)) => p@ == q@ && s == t,
            (AsyncAction::Error(a), AsyncAction::Error(b)) => a@ == b@,
            (AsyncAction::StartAnimation, AsyncAction::StartAnimation) => true,
            (AsyncAction::StopAnimation, AsyncAction::StopAnimation) => true,
            (AsyncAction::PreviewContents(Some(a)), AsyncAction::PreviewContents(Some(b))) => a@
                == b@,
            (AsyncAction::PreviewContents(None), AsyncAction::PreviewContents(None)) => true,
            _ => false,
        }
    }
}

/// The answer of a handler: whether the command was consumed, which stops it
/// from being offered to further components, and whether the screen has to be
/// drawn again.
#[derive(Clone, Copy, Debug, PartialEq, Eq, Structural)]
pub enum ActionResult {
    Consumed { rerender: bool },
    NotConsumed { rerender: bool },
}

impl ActionResult {
    pub fn is_consumed(&self) -> (r: bool)
        ensures
            r == (*self is Consumed),
    {
        match self {
            ActionResult::Consumed { .. } => true,
            ActionResult::NotConsumed { .. } => false,
        }
    }

    pub fn is_consumed_and_rerender(&self) -> (r: bool)
        ensures
            r == (*self == ActionResult::Consumed { rerender: true }),
    {
        match self {
            ActionResult::Consumed { rerender } => *rerender,
            ActionResult::NotConsumed { .. } => false,
        }
    }

    pub fn is_not_consumed(&self) -> (r: bool)
        ensures
            r == (*self is NotConsumed),
    {
        match self {
            ActionResult::Consumed { .. } => false,
            ActionResult::NotConsumed { .. } => true,
        }
    }

    /// The redraw flag of either variant.
    pub open spec fn rerender(self) -> bool {
        match self {
            ActionResult::Consumed { rerender } => rerender,
            ActionResult::NotConsumed { rerender } => rerender,
        }
    }

    pub fn should_rerender(&self) -> (r: bool)
        ensures
            r == self.rerender(),
    {
        match self {
            ActionResult::Consumed { rerender } => *rerender,
            ActionResult::NotConsumed { rerender } => *rerender,
        }
    }

    /// This answer within a pass in which `earlier` was given before it:
    /// what was consumed stays so, and a redraw asked for earlier in the
    /// pass stays asked for.
    pub open spec fn joined(self, earlier: ActionResult) -> ActionResult {
        match self {
            ActionResult::Consumed { rerender } => ActionResult::Consumed {
                rerender: rerender || earlier.rerender(),
            },
            ActionResult::NotConsumed { rerender } => ActionResult::NotConsumed {
                rerender: rerender || earlier.rerender(),
            },
        }
    }

    pub fn after(self, earlier: ActionResult) -> (r: Self)
        ensures
            r == self.joined(earlier),
    {
        let asked = earlier.should_rerender();
        match self {
            ActionResult::Consumed { rerender } => ActionResult::Consumed {
                rerender: rerender || asked,
            },
            ActionResult::NotConsumed { rerender } => ActionResult::NotConsumed {
                rerender: rerender || asked,
            },
        }
    }

    #[inline]
    pub fn consumed(rerender: bool) -> (r: Self)
        ensures
            r == (ActionResult::Consumed { rerender }),
    {
        ActionResult::Consumed { rerender }
    }

    #[inline]
    pub fn not_consumed(rerender: bool) -> (r: Self)
        ensures
            r == (ActionResult::NotConsumed { rerender }),
    {
        ActionResult::NotConsumed { rerender }
    }
}

impl Default for ActionResult {
    fn default() -> (r: Self)
        ensures
            r == (ActionResult::NotConsumed { rerender: false }),
    {
        ActionResult::not_consumed(false)
    }
}

} // verus!
