use vstd::prelude::*;

use crate::action::SaveFileResult;
use crate::paths::{parent_of, path_parent};

verus! {

/// What the file system is asked next while a file is written.
#[derive(Debug)]
pub enum WriteStep {
    /// Does the target exist?
    CheckExists,
    /// Create this directory and those above it.
    CreateParents(String),
    /// Is the target a directory?
    CheckDirectory,
    /// Create the file, or empty it.
    Create,
    /// Write the contents.
    Write,
    /// Flush what was written.
    Flush,
    /// Nothing: the write has ended, with this result.
    Done(SaveFileResult),
}

/// What the file system answered. A failure carries the system's message.
#[derive(Debug)]
pub enum WriteEvent {
    Exists(bool),
    ParentsCreated(Option<String>),
    IsDirectory(bool),
    Created(Option<String>),
    Written(Option<String>),
    Flushed(Option<String>),
}

/// What a step shows of itself.
pub enum StepView {
    CheckExists,
    CreateParents(Seq<char>),
    CheckDirectory,
    Create,
    Write,
    Flush,
    Done(SaveFileResult),
}

impl View for WriteStep {
    type V = StepView;

    open spec fn view(&self) -> StepView {
        match *self {
            WriteStep::CheckExists => StepView::CheckExists,
            WriteStep::CreateParents(dir) => StepView::CreateParents(dir@),
            WriteStep::CheckDirectory => StepView::CheckDirectory,
            WriteStep::Create => StepView::Create,
            WriteStep::Write => StepView::Write,
            WriteStep::Flush => StepView::Flush,
            WriteStep::Done(result) => StepView::Done(result),
        }
    }
}

/// The writing of a buffer to a file, one question to the file system at a
/// time. A directory is never written to; an existing file is written over
/// only where that was allowed.
#[derive(Debug)]
pub struct WriteFile {
    pub path: String,
    pub overwrite: bool,
    /// Whether the target was found to exist.
    pub exists: bool,
    /// The failure of the write itself, kept until the flush has been tried.
    pub write_failure: Option<String>,
}

impl WriteFile {
    /// A write that has asked nothing yet; its first step is to check
    /// whether the target exists.
    pub fn new(path: String, overwrite: bool) -> (r: (WriteFile, WriteStep))
        ensures
            r.0.path == path,
            r.0.overwrite == overwrite,
            !r.0.exists,
            r.0.write_failure is None,
            r.1@ == StepView::CheckExists,
    {
        (WriteFile { path, overwrite, exists: false, write_failure: None }, WriteStep::CheckExists)
    }

    /// The step that follows an answer.
    ///
    /// - The target exists: it is checked for being a directory.
    /// - The target does not exist: the directories above it are created,
    ///   where it lies in one; then it is checked for being a directory.
    /// - The directories could not be created, or the file could not be
    ///   created: the write ends with the failure.
    /// - The target is a directory: the write ends, asking for a name,
    ///   whether or not overwriting is allowed.
    /// - The target is no directory: where it exists and overwriting is not
    ///   allowed, the write ends, asking for confirmation; else the file is
    ///   created.
    /// - The contents were written or not: the flush is tried in either case.
    /// - The flush failed: the write ends with that failure, even where the
    ///   write itself succeeded. Else it ends as the write itself did.
    pub open spec fn step_after(self, event: WriteEvent) -> StepView {
        match event {
            WriteEvent::Exists(true) => StepView::CheckDirectory,
            WriteEvent::Exists(false) => match parent_of(self.path@) {
                Some(parent) => StepView::CreateParents(parent),
                None => StepView::CheckDirectory,
            },
            WriteEvent::ParentsCreated(None) => StepView::CheckDirectory,
            WriteEvent::ParentsCreated(Some(failure)) => StepView::Done(
                SaveFileResult::Error(failure),
            ),
            WriteEvent::IsDirectory(true) => StepView::Done(SaveFileResult::MissingName),
            WriteEvent::IsDirectory(false) => if self.exists && !self.overwrite {
                StepView::Done(SaveFileResult::ConfirmOverwrite)
            } else {
                StepView::Create
            },
            WriteEvent::Created(None) => StepView::Write,
            WriteEvent::Created(Some(failure)) => StepView::Done(SaveFileResult::Error(failure)),
            WriteEvent::Written(_) => StepView::Flush,
            WriteEvent::Flushed(Some(failure)) => StepView::Done(SaveFileResult::Error(failure)),
            WriteEvent::Flushed(None) => match self.write_failure {
                Some(failure) => StepView::Done(SaveFileResult::Error(failure)),
                None => StepView::Done(SaveFileResult::Saved(self.path)),
            },
        }
    }

    /// Takes an answer of the file system and says what to ask next.
    pub fn advance(&mut self, event: WriteEvent) -> (r: WriteStep)
        ensures
            r@ == old(self).step_after(event),
            *final(self) == answered(*old(self), event),
    {
        match event {
            WriteEvent::Exists(exists) => {
                self.exists = exists;
                if exists {
                    WriteStep::CheckDirectory
                } else {
                    match path_parent(self.path.as_str()) {
                        Some(parent) => WriteStep::CreateParents(parent),
                        None => WriteStep::CheckDirectory,
                    }
                }
            },
            WriteEvent::ParentsCreated(failure) => match failure {
                None => WriteStep::CheckDirectory,
                Some(failure) => WriteStep::Done(SaveFileResult::Error(failure)),
            },
            WriteEvent::IsDirectory(is_dir) => {
                if is_dir {
                    WriteStep::Done(SaveFileResult::MissingName)
                } else if self.exists && !self.overwrite {
                    WriteStep::Done(SaveFileResult::ConfirmOverwrite)
                } else {
                    WriteStep::Create
                }
            },
            WriteEvent::Created(failure) => match failure {
                None => WriteStep::Write,
                Some(failure) => WriteStep::Done(SaveFileResult::Error(failure)),
            },
            WriteEvent::Written(failure) => {
                self.write_failure = failure;
                WriteStep::Flush
            },
            WriteEvent::Flushed(failure) => match failure {
                Some(failure) => WriteStep::Done(SaveFileResult::Error(failure)),
                None => match &self.write_failure {
                    Some(failure) => WriteStep::Done(SaveFileResult::Error(failure.clone())),
                    None => WriteStep::Done(SaveFileResult::Saved(self.path.clone())),
                },
            },
        }
    }
}

/// What the file system would answer to each question of a write.
pub struct Answers {
    pub exists: bool,
    pub parents: Option<String>,
    pub is_dir: bool,
    pub create: Option<String>,
    pub write: Option<String>,
    pub flush: Option<String>,
}

/// The answer to a step, and `None` for a step that asks nothing.
pub open spec fn answer_to(answers: Answers, step: StepView) -> Option<WriteEvent> {
    match step {
        StepView::CheckExists => Some(WriteEvent::Exists(answers.exists)),
        StepView::CreateParents(_) => Some(WriteEvent::ParentsCreated(answers.parents)),
        StepView::CheckDirectory => Some(WriteEvent::IsDirectory(answers.is_dir)),
        StepView::Create => Some(WriteEvent::Created(answers.create)),
        StepView::Write => Some(WriteEvent::Written(answers.write)),
        StepView::Flush => Some(WriteEvent::Flushed(answers.flush)),
        StepView::Done(_) => None,
    }
}

/// The write after one more step has been answered: it keeps whether the
/// target exists, and the failure of the write itself.
pub open spec fn answered(write: WriteFile, event: WriteEvent) -> WriteFile {
    WriteFile {
        exists: match event {
            WriteEvent::Exists(exists) => exists,
            _ => write.exists,
        },
        write_failure: match event {
            WriteEvent::Written(failure) => failure,
            _ => write.write_failure,
        },
        ..write
    }
}

/// How a write ends that is answered as `answers` says, running for at most
/// `fuel` steps from `step`; `None` where it has not ended by then.
pub open spec fn run(write: WriteFile, step: StepView, answers: Answers, fuel: nat) -> Option<
    SaveFileResult,
>
    decreases fuel,
{
    match answer_to(answers, step) {
        None => match step {
            StepView::Done(result) => Some(result),
            _ => None,
        },
        Some(event) => if fuel == 0 {
            None
        } else {
            run(answered(write, event), write.step_after(event), answers, (fuel - 1) as nat)
        },
    }
}

/// Whether a run from `step` ever asks for the file to be created or written.
pub open spec fn touches_file(write: WriteFile, step: StepView, answers: Answers, fuel: nat) -> bool
    decreases fuel,
{
    step is Create || step is Write || match answer_to(answers, step) {
        None => false,
        Some(event) => fuel > 0 && touches_file(
            answered(write, event),
            write.step_after(event),
            answers,
            (fuel - 1) as nat,
        ),
    }
}

/// A write of a file that exists, with overwriting not allowed, ends by
/// asking for confirmation, and never creates or writes the file.
pub proof fn lemma_existing_file_needs_confirmation(write: WriteFile, answers: Answers, fuel: nat)
    requires
        answers.exists,
        !answers.is_dir,
        !write.overwrite,
        fuel >= 2,
    ensures
        run(write, StepView::CheckExists, answers, fuel) == Some(SaveFileResult::ConfirmOverwrite),
        !touches_file(write, StepView::CheckExists, answers, fuel),
{
    reveal_with_fuel(run, 4);
    reveal_with_fuel(touches_file, 4);
}

/// A write to a directory ends by asking for a name, whether or not
/// overwriting is allowed, and never creates or writes a file.
pub proof fn lemma_directory_needs_a_name(write: WriteFile, answers: Answers, fuel: nat)
    requires
        answers.exists,
        answers.is_dir,
        fuel >= 2,
    ensures
        run(write, StepView::CheckExists, answers, fuel) == Some(SaveFileResult::MissingName),
        !touches_file(write, StepView::CheckExists, answers, fuel),
{
    reveal_with_fuel(run, 4);
    reveal_with_fuel(touches_file, 4);
}

/// Every write ends within six steps. Where every step succeeds on a target
/// that is no directory, and that may be written over if it exists, it ends
/// with the file saved under its path.
pub proof fn lemma_write_ends(write: WriteFile, answers: Answers)
    requires
        write.write_failure is None,
    ensures
        run(write, StepView::CheckExists, answers, 6) is Some,
        (write.overwrite || !answers.exists) && answers.parents is None && !answers.is_dir
            && answers.create is None && answers.write is None && answers.flush is None ==> run(
            write,
            StepView::CheckExists,
            answers,
            6,
        ) == Some(SaveFileResult::Saved(write.path)),
{
    reveal_with_fuel(run, 8);
}

} // verus!
