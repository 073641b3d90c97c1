use vstd::prelude::*;
use vstd::string::StringExecFns;

use crate::chars::{ascii_lower, ascii_upper, from_chars, reads_at, starts_with_at, to_chars};

verus! {

/// A key of the keyboard.
#[derive(Clone, Copy, Debug, PartialEq, Eq, Structural)]
pub enum KeyCode {
    Backspace,
    Enter,
    Left,
    Right,
    Up,
    Down,
    Home,
    End,
    PageUp,
    PageDown,
    Tab,
    BackTab,
    Delete,
    Insert,
    F(u8),
    Char(char),
    Null,
    Esc,
    CapsLock,
    ScrollLock,
    NumLock,
    PrintScreen,
    Pause,
    Menu,
    KeypadBegin,
}

impl KeyCode {
    /// The character of a character key.
    pub fn as_char(&self) -> (r: Option<char>)
        ensures
            r == match *self {
                KeyCode::Char(c) => Some(c),
                _ => None,
            },
    {
        match self {
            KeyCode::Char(c) => Some(*c),
            _ => None,
        }
    }
}

/// The modifier keys held with a key.
#[derive(Clone, Copy, Debug, PartialEq, Eq, Structural)]
pub struct KeyModifiers {
    pub shift: bool,
    pub control: bool,
    pub alt: bool,
    pub super_key: bool,
    pub hyper: bool,
    pub meta: bool,
}

impl KeyModifiers {
    pub open spec fn none() -> KeyModifiers {
        KeyModifiers {
            shift: false,
            control: false,
            alt: false,
            super_key: false,
            hyper: false,
            meta: false,
        }
    }

    /// The modifiers held in either of the two.
    pub open spec fn union(self, other: KeyModifiers) -> KeyModifiers {
        KeyModifiers {
            shift: self.shift || other.shift,
            control: self.control || other.control,
            alt: self.alt || other.alt,
            super_key: self.super_key || other.super_key,
            hyper: self.hyper || other.hyper,
            meta: self.meta || other.meta,
        }
    }

    pub fn empty() -> (r: Self)
        ensures
            r == KeyModifiers::none(),
    {
        KeyModifiers {
            shift: false,
            control: false,
            alt: false,
            super_key: false,
            hyper: false,
            meta: false,
        }
    }
}

/// A key press: the key and the modifiers held with it.
#[derive(Clone, Copy, Debug, PartialEq, Eq, Structural)]
pub struct KeyEvent {
    pub code: KeyCode,
    pub modifiers: KeyModifiers,
}

impl KeyEvent {
    pub fn new(code: KeyCode, modifiers: KeyModifiers) -> (r: Self)
        ensures
            r == (KeyEvent { code, modifiers }),
    {
        KeyEvent { code, modifiers }
    }

    /// The press with the case of a letter and the shift key made to agree:
    /// a capital letter counts as shifted, and a shifted letter as its capital.
    pub open spec fn normalized(self) -> KeyEvent {
        match self.code {
            KeyCode::Char(c) => if 'A' <= c && c <= 'Z' {
                KeyEvent { code: self.code, modifiers: KeyModifiers { shift: true, ..self.modifiers } }
            } else if self.modifiers.shift {
                KeyEvent { code: KeyCode::Char(ascii_upper(c)), modifiers: self.modifiers }
            } else {
                self
            },
            _ => self,
        }
    }

    pub fn normalize_case(self) -> (r: Self)
        ensures
            r == self.normalized(),
    {
        match self.code {
            KeyCode::Char(c) => {
                if c.is_ascii_uppercase() {
                    let mut modifiers = self.modifiers;
                    modifiers.shift = true;
                    KeyEvent { code: self.code, modifiers }
                } else if self.modifiers.shift {
                    KeyEvent { code: KeyCode::Char(c.to_ascii_uppercase()), modifiers: self.modifiers }
                } else {
                    self
                }
            },
            _ => self,
        }
    }

    /// Two presses are the same key when they agree once normalized.
    pub open spec fn same_key(self, other: KeyEvent) -> bool {
        self.normalized() == other.normalized()
    }

    pub fn is_same_key(&self, other: &KeyEvent) -> (r: bool)
        ensures
            r == self.same_key(*other),
    {
        self.normalize_case() == other.normalize_case()
    }
}

pub open spec fn ctrl_prefix() -> Seq<char> {
    seq!['c', 't', 'r', 'l', '-']
}

pub open spec fn alt_prefix() -> Seq<char> {
    seq!['a', 'l', 't', '-']
}

pub open spec fn shift_prefix() -> Seq<char> {
    seq!['s', 'h', 'i', 'f', 't', '-']
}

/// A key string without its leading modifier prefixes, and the modifiers
/// that those prefixes name. Prefixes may come in any order and number.
pub open spec fn stripped(text: Seq<char>) -> (Seq<char>, KeyModifiers)
    decreases text.len(),
{
    if ctrl_prefix().is_prefix_of(text) {
        let (rest, modifiers) = stripped(text.skip(5));
        (rest, KeyModifiers { control: true, ..modifiers })
    } else if alt_prefix().is_prefix_of(text) {
        let (rest, modifiers) = stripped(text.skip(4));
        (rest, KeyModifiers { alt: true, ..modifiers })
    } else if shift_prefix().is_prefix_of(text) {
        let (rest, modifiers) = stripped(text.skip(6));
        (rest, KeyModifiers { shift: true, ..modifiers })
    } else {
        (text, KeyModifiers::none())
    }
}

/// The key that a key name stands for, for the names that are more than a
/// single character.
pub open spec fn named_key(name: Seq<char>) -> Option<KeyCode> {
    if name == "esc"@ {
        Some(KeyCode::Esc)
    } else if name == "enter"@ {
        Some(KeyCode::Enter)
    } else if name == "left"@ {
        Some(KeyCode::Left)
    } else if name == "right"@ {
        Some(KeyCode::Right)
    } else if name == "up"@ {
        Some(KeyCode::Up)
    } else if name == "down"@ {
        Some(KeyCode::Down)
    } else if name == "home"@ {
        Some(KeyCode::Home)
    } else if name == "end"@ {
        Some(KeyCode::End)
    } else if name == "pageup"@ {
        Some(KeyCode::PageUp)
    } else if name == "pagedown"@ {
        Some(KeyCode::PageDown)
    } else if name == "backspace"@ {
        Some(KeyCode::Backspace)
    } else if name == "delete"@ {
        Some(KeyCode::Delete)
    } else if name == "insert"@ {
        Some(KeyCode::Insert)
    } else if name == "f1"@ {
        Some(KeyCode::F(1))
    } else if name == "f2"@ {
        Some(KeyCode::F(2))
    } else if name == "f3"@ {
        Some(KeyCode::F(3))
    } else if name == "f4"@ {
        Some(KeyCode::F(4))
    } else if name == "f5"@ {
        Some(KeyCode::F(5))
    } else if name == "f6"@ {
        Some(KeyCode::F(6))
    } else if name == "f7"@ {
        Some(KeyCode::F(7))
    } else if name == "f8"@ {
        Some(KeyCode::F(8))
    } else if name == "f9"@ {
        Some(KeyCode::F(9))
    } else if name == "f10"@ {
        Some(KeyCode::F(10))
    } else if name == "f11"@ {
        Some(KeyCode::F(11))
    } else if name == "f12"@ {
        Some(KeyCode::F(12))
    } else if name == "space"@ {
        Some(KeyCode::Char(' '))
    } else if name == "hyphen"@ {
        Some(KeyCode::Char('-'))
    } else if name == "minus"@ {
        Some(KeyCode::Char('-'))
    } else if name == "tab"@ {
        Some(KeyCode::Tab)
    } else {
        None
    }
}

/// The key press that a key name stands for under the given modifiers:
/// `backtab` implies the shift key, a listed name gives its key, and any
/// single character gives its character key, as a capital where the shift
/// key is held. Nothing else is a key.
pub open spec fn key_of(name: Seq<char>, modifiers: KeyModifiers) -> Option<KeyEvent> {
    if name == "backtab"@ {
        Some(KeyEvent { code: KeyCode::BackTab, modifiers: KeyModifiers { shift: true, ..modifiers } })
    } else if named_key(name) is Some {
        Some(KeyEvent { code: named_key(name)->0, modifiers })
    } else if name.len() == 1 {
        Some(
            KeyEvent {
                code: KeyCode::Char(
                    if modifiers.shift {
                        ascii_upper(name[0])
                    } else {
                        name[0]
                    },
                ),
                modifiers,
            },
        )
    } else {
        None
    }
}

/// The text with every ASCII capital in lower case.
pub open spec fn lowered(text: Seq<char>) -> Seq<char> {
    text.map_values(|c: char| ascii_lower(c))
}

/// The key press that a key string of a binding table stands for: case does
/// not count, modifier prefixes come first, a key name follows.
pub open spec fn parsed_key(raw: Seq<char>) -> Option<KeyEvent> {
    let (name, modifiers) = stripped(lowered(raw));
    key_of(name, modifiers)
}

/// The message for a key string that names no key.
pub open spec fn parse_failure(name: Seq<char>) -> Seq<char> {
    "Unable to parse "@ + name
}

/// The key name of `chars` from `from` on, if it is one of the listed names.
fn named_key_at(chars: &Vec<char>, from: usize) -> (r: Option<KeyCode>)
    requires
        from <= chars@.len(),
    ensures
        r == named_key(chars@.skip(from as int)),
{
    let ghost name = chars@.skip(from as int);
    if reads_at(chars, from, "esc") {
        Some(KeyCode::Esc)
    } else if reads_at(chars, from, "enter") {
        Some(KeyCode::Enter)
    } else if reads_at(chars, from, "left") {
        Some(KeyCode::Left)
    } else if reads_at(chars, from, "right") {
        Some(KeyCode::Right)
    } else if reads_at(chars, from, "up") {
        Some(KeyCode::Up)
    } else if reads_at(chars, from, "down") {
        Some(KeyCode::Down)
    } else if reads_at(chars, from, "home") {
        Some(KeyCode::Home)
    } else if reads_at(chars, from, "end") {
        Some(KeyCode::End)
    } else if reads_at(chars, from, "pageup") {
        Some(KeyCode::PageUp)
    } else if reads_at(chars, from, "pagedown") {
        Some(KeyCode::PageDown)
    } else if reads_at(chars, from, "backspace") {
        Some(KeyCode::Backspace)
    } else if reads_at(chars, from, "delete") {
        Some(KeyCode::Delete)
    } else if reads_at(chars, from, "insert") {
        Some(KeyCode::Insert)
    } else if reads_at(chars, from, "f1") {
        Some(KeyCode::F(1))
    } else if reads_at(chars, from, "f2") {
        Some(KeyCode::F(2))
    } else if reads_at(chars, from, "f3") {
        Some(KeyCode::F(3))
    } else if reads_at(chars, from, "f4") {
        Some(KeyCode::F(4))
    } else if reads_at(chars, from, "f5") {
        Some(KeyCode::F(5))
    } else if reads_at(chars, from, "f6") {
        Some(KeyCode::F(6))
    } else if reads_at(chars, from, "f7") {
        Some(KeyCode::F(7))
    } else if reads_at(chars, from, "f8") {
        Some(KeyCode::F(8))
    } else if reads_at(chars, from, "f9") {
        Some(KeyCode::F(9))
    } else if reads_at(chars, from, "f10") {
        Some(KeyCode::F(10))
    } else if reads_at(chars, from, "f11") {
        Some(KeyCode::F(11))
    } else if reads_at(chars, from, "f12") {
        Some(KeyCode::F(12))
    } else if reads_at(chars, from, "space") {
        Some(KeyCode::Char(' '))
    } else if reads_at(chars, from, "hyphen") {
        Some(KeyCode::Char('-'))
    } else if reads_at(chars, from, "minus") {
        Some(KeyCode::Char('-'))
    } else if reads_at(chars, from, "tab") {
        Some(KeyCode::Tab)
    } else {
        None
    }
}

/// Reads the key name that stands in `chars` from `from` on.
pub fn parse_key_code_with_modifiers(
    chars: &Vec<char>,
    from: usize,
    modifiers: KeyModifiers,
) -> (r: Result<KeyEvent, String>)
    requires
        from <= chars@.len(),
    ensures
        match r {
            Ok(event) => key_of(chars@.skip(from as int), modifiers) == Some(event),
            Err(message) => key_of(chars@.skip(from as int), modifiers) is None && message@
                == parse_failure(chars@.skip(from as int)),
        },
{
    let ghost name = chars@.skip(from as int);
    if reads_at(chars, from, "backtab") {
        let mut modifiers = modifiers;
        modifiers.shift = true;
        return Ok(KeyEvent::new(KeyCode::BackTab, modifiers));
    }
    match named_key_at(chars, from) {
        Some(code) => Ok(KeyEvent::new(code, modifiers)),
        None => {
            if chars.len() - from == 1 {
                let mut c = chars[from];
                assert(name[0] == c);
                if modifiers.shift {
                    c = c.to_ascii_uppercase();
                }
                Ok(KeyEvent::new(KeyCode::Char(c), modifiers))
            } else {
                let mut message = String::from_str("Unable to parse ");
                let name_text = from_chars(chars, from);
                message.append(name_text.as_str());
                Err(message)
            }
        },
    }
}

/// Finds where the modifier prefixes of a key string end, and what they name.
pub fn extract_modifiers(chars: &Vec<char>) -> (r: (usize, KeyModifiers))
    ensures
        r.0 <= chars@.len(),
        chars@.skip(r.0 as int) == stripped(chars@).0,
        r.1 == stripped(chars@).1,
{
    let mut modifiers = KeyModifiers::empty();
    let mut current: usize = 0;
    let total = chars.len();
    proof {
        reveal_strlit("ctrl-");
        reveal_strlit("alt-");
        reveal_strlit("shift-");
        assert("ctrl-"@ =~= ctrl_prefix());
        assert("alt-"@ =~= alt_prefix());
        assert("shift-"@ =~= shift_prefix());
        assert(chars@.skip(0) =~= chars@);
    }
    loop
        invariant
            current <= chars@.len() == total,
            "ctrl-"@ == ctrl_prefix(),
            "alt-"@ == alt_prefix(),
            "shift-"@ == shift_prefix(),
            stripped(chars@).0 == stripped(chars@.skip(current as int)).0,
            stripped(chars@).1 == modifiers.union(stripped(chars@.skip(current as int)).1),
        ensures
            current <= chars@.len(),
            chars@.skip(current as int) == stripped(chars@).0,
            modifiers == stripped(chars@).1,
        decreases chars@.len() - current,
    {
        let ghost rest = chars@.skip(current as int);
        if starts_with_at(chars, current, "ctrl-") {
            modifiers.control = true;
            current = current + 5;
            assert(rest.skip(5) =~= chars@.skip(current as int));
        } else if starts_with_at(chars, current, "alt-") {
            modifiers.alt = true;
            current = current + 4;
            assert(rest.skip(4) =~= chars@.skip(current as int));
        } else if starts_with_at(chars, current, "shift-") {
            modifiers.shift = true;
            current = current + 6;
            assert(rest.skip(6) =~= chars@.skip(current as int));
        } else {
            break ;
        }
    }
    (current, modifiers)
}

/// The characters of a text, ASCII capitals in lower case.
fn lowered_chars(raw: &str) -> (r: Vec<char>)
    ensures
        r@ == lowered(raw@),
{
    let chars = to_chars(raw);
    let mut r: Vec<char> = Vec::new();
    let mut i: usize = 0;
    while i < chars.len()
        invariant
            i <= chars@.len(),
            chars@ == raw@,
            r@ == lowered(raw@).subrange(0, i as int),
        decreases chars@.len() - i,
    {
        r.push(chars[i].to_ascii_lowercase());
        i += 1;
        assert(r@ =~= lowered(raw@).subrange(0, i as int));
    }
    assert(lowered(raw@).subrange(0, i as int) =~= lowered(raw@));
    r
}

/// Reads a key string of a binding table, such as `ctrl-s`, `shift-tab` or `f5`.
pub fn parse_key_event(raw: &str) -> (r: Result<KeyEvent, String>)
    ensures
        match r {
            Ok(event) => parsed_key(raw@) == Some(event),
            Err(message) => parsed_key(raw@) is None && message@ == parse_failure(
                stripped(lowered(raw@)).0,
            ),
        },
{
    let chars = lowered_chars(raw);
    let (from, modifiers) = extract_modifiers(&chars);
    parse_key_code_with_modifiers(&chars, from, modifiers)
}

} // verus!
