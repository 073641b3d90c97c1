use vstd::prelude::*;
use vstd::string::StringExecFns;

use crate::chars::{contains_text, has_part, lowercase, lowercased, same_text};
use crate::paths::{extension_of, file_name_of, path_extension, path_file_name};

verus! {

/// The mark put before the row that the list cursor is on.
pub const HIGHLIGHT_SYMBOL: &'static str = " > ";

/// A row of a directory listing.
#[derive(Debug)]
pub enum PathChild {
    File { full_file_name: String, icon: Option<String> },
    Folder(String),
    /// The row that leads to the parent directory.
    MoveUp,
}

impl Clone for PathChild {
    fn clone(&self) -> (r: Self)
        ensures
            r == *self,
    {
        match self {
            PathChild::File { full_file_name, icon } => PathChild::File {
                full_file_name: full_file_name.clone(),
                icon: match icon {
                    Some(i) => Some(i.clone()),
                    None => None,
                },
            },
            PathChild::Folder(name) => PathChild::Folder(name.clone()),
            PathChild::MoveUp => PathChild::MoveUp,
        }
    }
}

/// The icon for a file: by its extension, or else by its name.
pub open spec fn icon_of(file_name: Seq<char>, ext: Seq<char>) -> Option<Seq<char>> {
    if ext == "rs"@ {
        Some("\u{e7a8}"@)
    } else if ext == "txt"@ {
        Some("\u{f09a8}"@)
    } else if ext == "yaml"@ || ext == "yml"@ {
        Some("\u{e8eb}"@)
    } else if ext == "json"@ || ext == "json5"@ {
        Some("\u{eb0f}"@)
    } else if ext == "toml"@ {
        Some("\u{e6b2}"@)
    } else if ext == "java"@ {
        Some("\u{e738}"@)
    } else if ext == "js"@ {
        Some("\u{e781}"@)
    } else if ext == "ts"@ {
        Some("\u{e8ca}"@)
    } else if ext == "kt"@ {
        Some("\u{e634}"@)
    } else if ext == "c"@ {
        Some("\u{e771}"@)
    } else if ext == "cpp"@ {
        Some("\u{e7a3}"@)
    } else if ext == "cs"@ {
        Some("\u{e7b2}"@)
    } else if ext == "css"@ {
        Some("\u{e6b8}"@)
    } else if ext == "html"@ {
        Some("\u{e60e}"@)
    } else if file_name == ".config"@ {
        Some("\u{e615}"@)
    } else {
        None
    }
}

pub fn icon_for_file(file_name: &str, ext: &str) -> (r: Option<String>)
    ensures
        crate::paths::reads_as(r, icon_of(file_name@, ext@)),
{
    let icon = if same_text(ext, "rs") {
        "\u{e7a8}"
    } else if same_text(ext, "txt") {
        "\u{f09a8}"
    } else if same_text(ext, "yaml") || same_text(ext, "yml") {
        "\u{e8eb}"
    } else if same_text(ext, "json") || same_text(ext, "json5") {
        "\u{eb0f}"
    } else if same_text(ext, "toml") {
        "\u{e6b2}"
    } else if same_text(ext, "java") {
        "\u{e738}"
    } else if same_text(ext, "js") {
        "\u{e781}"
    } else if same_text(ext, "ts") {
        "\u{e8ca}"
    } else if same_text(ext, "kt") {
        "\u{e634}"
    } else if same_text(ext, "c") {
        "\u{e771}"
    } else if same_text(ext, "cpp") {
        "\u{e7a3}"
    } else if same_text(ext, "cs") {
        "\u{e7b2}"
    } else if same_text(ext, "css") {
        "\u{e6b8}"
    } else if same_text(ext, "html") {
        "\u{e60e}"
    } else if same_text(file_name, ".config") {
        "\u{e615}"
    } else {
        return None;
    };
    Some(String::from_str(icon))
}

/// A name with its icon before it, where it has one.
pub open spec fn labelled(icon: Option<Seq<char>>, name: Seq<char>) -> Seq<char> {
    match icon {
        Some(i) => i + " "@ + name,
        None => name,
    }
}

/// The extension of a path, or the empty text where it has none.
pub open spec fn extension_or_empty(path: Seq<char>) -> Seq<char> {
    match extension_of(path) {
        Some(ext) => ext,
        None => Seq::<char>::empty(),
    }
}

/// The file name of a path, or the empty text where it has none.
pub open spec fn file_name_or_empty(path: Seq<char>) -> Seq<char> {
    match file_name_of(path) {
        Some(name) => name,
        None => Seq::<char>::empty(),
    }
}

/// The label of a file in a list: its name, behind its icon where it has one.
pub fn label_for_file(path: &str) -> (r: String)
    ensures
        r@ == labelled(
            icon_of(file_name_or_empty(path@), extension_or_empty(path@)),
            file_name_or_empty(path@),
        ),
{
    let extension = match path_extension(path) {
        Some(ext) => ext,
        None => String::new(),
    };
    let file_name = match path_file_name(path) {
        Some(name) => name,
        None => String::new(),
    };
    let icon = icon_for_file(file_name.as_str(), extension.as_str());
    match icon {
        Some(i) => {
            let mut label = i;
            label.append(" ");
            label.append(file_name.as_str());
            label
        },
        None => file_name,
    }
}

impl PathChild {
    /// The row for a file, given its name and its full path.
    pub fn file(file_name: String, path: &str) -> (r: Self)
        ensures
            r matches PathChild::File { full_file_name, icon } && full_file_name == file_name
                && crate::paths::reads_as(icon, icon_of(file_name@, extension_or_empty(path@))),
    {
        let extension = match path_extension(path) {
            Some(ext) => ext,
            None => String::new(),
        };
        let icon = icon_for_file(file_name.as_str(), extension.as_str());
        PathChild::File { full_file_name: file_name, icon }
    }

    /// Whether the row passes a filter: its name, in lower case, holds the
    /// filter. The row that leads upwards always passes.
    pub open spec fn passes(self, filter: Seq<char>) -> bool {
        match self {
            PathChild::File { full_file_name, icon } => has_part(
                lowercased(full_file_name@),
                filter,
            ),
            PathChild::Folder(name) => has_part(lowercased(name@), filter),
            PathChild::MoveUp => true,
        }
    }

    pub fn filter(&self, filter: &str) -> (r: bool)
        ensures
            r == self.passes(filter@),
    {
        match self {
            PathChild::File { full_file_name, icon: _ } => {
                let lower = lowercase(full_file_name.as_str());
                contains_text(lower.as_str(), filter)
            },
            PathChild::Folder(name) => {
                let lower = lowercase(name.as_str());
                contains_text(lower.as_str(), filter)
            },
            PathChild::MoveUp => true,
        }
    }

    /// The text of the row.
    pub open spec fn line(self) -> Seq<char> {
        match self {
            PathChild::File { full_file_name, icon } => labelled(
                match icon {
                    Some(i) => Some(i@),
                    None => None,
                },
                full_file_name@,
            ),
            PathChild::Folder(name) => "\u{ea83} "@ + name@,
            PathChild::MoveUp => "..."@,
        }
    }

    pub fn to_path_line(&self) -> (r: String)
        ensures
            r@ == self.line(),
    {
        match self {
            PathChild::File { full_file_name, icon } => match icon {
                Some(i) => {
                    let mut line = i.clone();
                    line.append(" ");
                    line.append(full_file_name.as_str());
                    line
                },
                None => full_file_name.clone(),
            },
            PathChild::Folder(name) => {
                let mut line = String::from_str("\u{ea83} ");
                line.append(name.as_str());
                line
            },
            PathChild::MoveUp => String::from_str("..."),
        }
    }
}

} // verus!
