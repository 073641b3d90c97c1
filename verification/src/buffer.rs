use vstd::prelude::*;
use vstd::string::StringExecFns;

use crate::paths::{file_name_of, parent_of, path_file_name, path_parent};
use crate::text::{TextInput, TextState};

verus! {

/// The name shown for a buffer that has no file yet.
pub open spec fn unsaved_name() -> Seq<char> {
    "unsaved"@
}

/// How many directories the path shown in the editor's frame names at most.
pub const MAX_PATH_STRING_DEPTH: u16 = 10;

/// The names of the directories above a path, nearest first, as far as
/// `depth` goes and as far as they have names.
pub open spec fn ancestor_names(path: Seq<char>, depth: nat) -> Seq<Seq<char>>
    decreases depth,
{
    if depth == 0 {
        seq![]
    } else {
        match parent_of(path) {
            Some(dir) => match file_name_of(dir) {
                Some(name) => seq![name] + ancestor_names(dir, (depth - 1) as nat),
                None => seq![],
            },
            None => seq![],
        }
    }
}

/// The parts in reverse order, joined by slashes.
pub open spec fn reversed_path(parts: Seq<Seq<char>>) -> Seq<char>
    decreases parts.len(),
{
    if parts.len() == 0 {
        Seq::<char>::empty()
    } else if parts.len() == 1 {
        parts[0]
    } else {
        reversed_path(parts.skip(1)) + "/"@ + parts[0]
    }
}

/// The directories of a path as the editor's frame shows them: outermost
/// first, joined by slashes, behind `.../` where the limit cut them short.
pub open spec fn shown_path(path: Seq<char>, depth: nat) -> Seq<char> {
    let names = ancestor_names(path, depth);
    if names.len() == depth {
        ".../"@ + reversed_path(names)
    } else {
        reversed_path(names)
    }
}

/// The text being edited, the file it belongs to, and whether it has
/// changed since it was loaded or saved.
#[derive(Debug)]
pub struct Buffer {
    pub text_area: TextInput,
    pub file_path: Option<String>,
    pub modified: bool,
    /// The directories of the file's path, as the frame shows them.
    pub current_path_string: Option<String>,
}

impl Buffer {
    /// An empty, unmodified buffer for the file, if one is given.
    pub fn new(file: Option<String>) -> (r: Self)
        ensures
            r.text_area@ == TextState::empty(),
            r.file_path == file,
            !r.modified,
            match file {
                Some(path) => r.current_path_string is Some && r.current_path_string->0@
                    == shown_path(path@, MAX_PATH_STRING_DEPTH as nat),
                None => r.current_path_string is None,
            },
    {
        let current_path_string = match &file {
            Some(path) => Self::current_path(path.as_str(), MAX_PATH_STRING_DEPTH),
            None => None,
        };
        Buffer { text_area: TextInput::new(), file_path: file, modified: false, current_path_string }
    }

    /// Where a file dialog for this buffer starts: at the buffer's path if
    /// that is a directory, else at the directory it lies in (the root where
    /// it lies in none); at the working directory for a buffer without a file.
    /// The answer is the directory to try and the one to fall back to.
    pub fn current_directory(&self, working_dir: &str) -> (r: (String, Option<String>))
        ensures
            match self.file_path {
                Some(path) => r.0 == path && r.1 is Some && r.1->0@ == match parent_of(path@) {
                    Some(parent) => parent,
                    None => "/"@,
                },
                None => r.0@ == working_dir@ && r.1 is None,
            },
    {
        match &self.file_path {
            Some(path) => {
                let parent = match path_parent(path.as_str()) {
                    Some(parent) => parent,
                    None => String::from_str("/"),
                };
                (path.clone(), Some(parent))
            },
            None => (String::from_str(working_dir), None),
        }
    }

    /// The directory that the buffer's file lies in.
    pub fn file_path(&self) -> (r: Option<String>)
        ensures
            crate::paths::reads_as(
                r,
                match self.file_path {
                    Some(path) => parent_of(path@),
                    None => None,
                },
            ),
    {
        match &self.file_path {
            Some(path) => path_parent(path.as_str()),
            None => None,
        }
    }

    /// Empties the text; the buffer counts as unmodified.
    pub fn clear_text(&mut self)
        ensures
            final(self).text_area@ == TextState::empty(),
            !final(self).modified,
            final(self).file_path == old(self).file_path,
            final(self).current_path_string == old(self).current_path_string,
    {
        self.modified = false;
        self.text_area = TextInput::new();
    }

    /// Turns the buffer to another file. The text stays as it is.
    pub fn change_path(&mut self, path: String)
        ensures
            final(self).file_path == Some(path),
            final(self).current_path_string is Some,
            final(self).current_path_string->0@ == shown_path(path@, MAX_PATH_STRING_DEPTH as nat),
            final(self).text_area == old(self).text_area,
            final(self).modified == old(self).modified,
    {
        self.current_path_string = Self::current_path(path.as_str(), MAX_PATH_STRING_DEPTH);
        self.file_path = Some(path);
    }

    /// The name of the buffer: the name of its file, marked as unsaved while
    /// the file does not exist; `unsaved` for a buffer without a file or
    /// with a path that ends in no name.
    pub open spec fn name(self, exists: bool) -> Seq<char> {
        match self.file_path {
            Some(path) => match file_name_of(path@) {
                Some(name) => if exists {
                    name
                } else {
                    name + " - "@ + unsaved_name()
                },
                None => unsaved_name(),
            },
            None => unsaved_name(),
        }
    }

    pub fn file_name(&self, exists: bool) -> (r: String)
        ensures
            r@ == self.name(exists),
    {
        let path = match &self.file_path {
            Some(path) => path,
            None => {
                return String::from_str("unsaved");
            },
        };
        let file_name = match path_file_name(path.as_str()) {
            Some(name) => name,
            None => {
                return String::from_str("unsaved");
            },
        };
        if exists {
            file_name
        } else {
            let mut name = file_name;
            name.append(" - ");
            name.append("unsaved");
            name
        }
    }

    /// The directories of a path as the frame shows them.
    pub fn current_path(path: &str, depth_limit: u16) -> (r: Option<String>)
        ensures
            r is Some,
            r->0@ == shown_path(path@, depth_limit as nat),
    {
        let mut depth = depth_limit;
        let mut p = path_parent(path);
        let mut mapped = String::new();
        let ghost mut names: Seq<Seq<char>> = seq![];
        let ghost mut at: Seq<char> = path@;
        loop
            invariant
                depth <= depth_limit,
                crate::paths::reads_as(p, parent_of(at)),
                names.len() == depth_limit - depth,
                mapped@ == reversed_path(names),
                ancestor_names(path@, depth_limit as nat) == names + ancestor_names(
                    at,
                    depth as nat,
                ),
            ensures
                mapped@ == reversed_path(names),
                ancestor_names(path@, depth_limit as nat) == names,
                names.len() == depth_limit - depth,
            decreases depth,
        {
            if depth == 0 {
                assert(names + ancestor_names(at, 0) =~= names);
                break ;
            }
            let dir = match p {
                Some(dir) => dir,
                None => {
                    assert(names + ancestor_names(at, depth as nat) =~= names);
                    break ;
                },
            };
            let file_name = match path_file_name(dir.as_str()) {
                Some(name) => name,
                None => {
                    assert(names + ancestor_names(at, depth as nat) =~= names);
                    break ;
                },
            };
            proof {
                let next = names.push(file_name@);
                assert(next.skip(next.len() - 1) =~= seq![file_name@]);
                assert(ancestor_names(at, depth as nat) =~= seq![file_name@] + ancestor_names(
                    dir@,
                    (depth - 1) as nat,
                ));
                assert(names + (seq![file_name@] + ancestor_names(dir@, (depth - 1) as nat))
                    =~= next + ancestor_names(dir@, (depth - 1) as nat));
                lemma_reversed_push(names, file_name@);
                names = next;
                at = dir@;
            }
            let mut longer = file_name;
            if depth < depth_limit {
                longer.append("/");
                longer.append(mapped.as_str());
            }
            mapped = longer;
            depth -= 1;
            p = path_parent(dir.as_str());
        }
        let r = if depth == 0 {
            let mut cut = String::from_str(".../");
            cut.append(mapped.as_str());
            cut
        } else {
            mapped
        };
        Some(r)
    }
}

/// Reversing a list with one more part at its end puts that part first.
proof fn lemma_reversed_push(parts: Seq<Seq<char>>, last: Seq<char>)
    ensures
        reversed_path(parts.push(last)) == if parts.len() == 0 {
            last
        } else {
            last + "/"@ + reversed_path(parts)
        },
    decreases parts.len(),
{
    let all = parts.push(last);
    if parts.len() == 0 {
    } else if parts.len() == 1 {
        assert(all.skip(1) =~= seq![last]);
        assert(reversed_path(all.skip(1)) == last);
    } else {
        assert(all.skip(1) =~= parts.skip(1).push(last));
        lemma_reversed_push(parts.skip(1), last);
        assert(reversed_path(all) =~= last + "/"@ + reversed_path(parts));
    }
}

} // verus!
