use vstd::prelude::*;
use vstd::string::StringExecFns;

use crate::action::AsyncAction;

verus! {

/// What the reading of a file came to.
#[derive(Debug)]
pub enum FileRead {
    /// The path names no file: nothing is there, or a directory is.
    NoFile,
    /// The contents of the file.
    Contents(String),
    /// The file could not be read; the text is the system's message.
    Failed(String),
}

/// Whether a path names a file that can be read: something is there, and
/// it is no directory. A path that names none loads as the empty text.
pub fn names_a_file(present: bool, is_dir: bool) -> (r: bool)
    ensures
        r == (present && !is_dir),
{
    present && !is_dir
}

/// The directory to list for a request: the path where it is a directory,
/// else the fallback where one is given, else the path all the same.
pub fn directory_to_list(path: &str, is_dir: bool, fallback: &Option<String>) -> (r: String)
    ensures
        r@ == if is_dir {
            path@
        } else {
            match *fallback {
                Some(other) => other@,
                None => path@,
            }
        },
{
    if is_dir {
        String::from_str(path)
    } else {
        match fallback {
            Some(other) => other.clone(),
            None => String::from_str(path),
        }
    }
}

/// The result that reports the reading of the buffer's file: a path that
/// names no file loads as the empty text, a file as its contents, and a
/// failure is an error.
pub fn read_dir(read: FileRead) -> (r: AsyncAction)
    ensures
        match read {
            FileRead::NoFile => r matches AsyncAction::LoadFileContents(text) && text@.len() == 0,
            FileRead::Contents(text) => r == AsyncAction::LoadFileContents(text),
            FileRead::Failed(message) => r == AsyncAction::Error(message),
        },
{
    match read {
        FileRead::NoFile => AsyncAction::LoadFileContents(String::new()),
        FileRead::Contents(text) => AsyncAction::LoadFileContents(text),
        FileRead::Failed(message) => AsyncAction::Error(message),
    }
}

/// The text of a preview of `limit` lines: the lines that were read, each
/// but the last followed by a line feed, and a line feed more for each line
/// that the file fell short of the limit.
pub open spec fn preview_text(lines: Seq<Seq<char>>, limit: nat) -> Seq<char>
    decreases limit,
{
    if limit == 0 {
        Seq::<char>::empty()
    } else {
        let before = preview_text(lines, (limit - 1) as nat);
        let line = if limit - 1 < lines.len() {
            lines[limit - 1]
        } else {
            Seq::<char>::empty()
        };
        if limit == 1 {
            line
        } else {
            before + "\n"@ + line
        }
    }
}

/// Whether a preview of the path can be read at all: the limit is not
/// zero, and the path names a file.
pub fn preview_allowed(lines_limit: usize, present: bool, is_dir: bool) -> (r: bool)
    ensures
        r == (lines_limit != 0 && present && !is_dir),
{
    !(lines_limit == 0 || !present || is_dir)
}

/// The text of a preview, from the first lines of the file. Lines past
/// the limit are left out.
pub fn read_dir_limited(lines: &Vec<String>, lines_limit: usize) -> (r: String)
    ensures
        r@ == preview_text(lines.deep_view(), lines_limit as nat),
{
    let mut text = String::new();
    let mut count: usize = 0;
    assert(lines.deep_view().len() == lines@.len());
    while count < lines_limit
        invariant
            count <= lines_limit,
            lines.deep_view().len() == lines@.len(),
            text@ == preview_text(lines.deep_view(), count as nat),
        decreases lines_limit - count,
    {
        proof {
            if count < lines@.len() {
                assert(lines.deep_view()[count as int] == lines@[count as int]@);
            }
        }
        if count > 0 {
            text.append("\n");
        }
        if count < lines.len() {
            text.append(lines[count].as_str());
        }
        count += 1;
        assert(text@ =~= preview_text(lines.deep_view(), count as nat));
    }
    text
}

/// The kind of a key event: whether the key went down, is held, or went up.
#[derive(Clone, Copy, Debug, PartialEq, Eq, Structural)]
pub enum KeyEventKind {
    Press,
    Repeat,
    Release,
}

impl KeyEventKind {
    /// Only a key going down counts as a key press.
    pub fn counts(&self) -> (r: bool)
        ensures
            r == (*self == KeyEventKind::Press),
    {
        *self == KeyEventKind::Press
    }
}

/// What to do while waiting for the task that reads the terminal to end.
#[derive(Clone, Copy, Debug, PartialEq, Eq, Structural)]
pub enum StopStep {
    /// Wait a millisecond more.
    Wait,
    /// Abort the task, then wait a millisecond more.
    Abort,
    /// Give up: the task did not end in time.
    GiveUp,
}

/// The step to take after `waited` milliseconds of waiting: the task is
/// aborted once fifty have passed, and given up on once a hundred have.
pub fn stop_step(waited: u32) -> (r: StopStep)
    ensures
        r == if waited > 100 {
            StopStep::GiveUp
        } else if waited > 50 {
            StopStep::Abort
        } else {
            StopStep::Wait
        },
{
    if waited > 100 {
        StopStep::GiveUp
    } else if waited > 50 {
        StopStep::Abort
    } else {
        StopStep::Wait
    }
}

/// The arguments of the command line.
#[derive(Debug)]
pub struct Cli {
    /// The file to open in the editor.
    pub file_dir: Option<String>,
}

} // verus!
