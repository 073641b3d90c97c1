use vstd::prelude::*;

use crate::action::{Action, AsyncAction};

verus! {

/// The decorative transitions that components start. They change nothing
/// but what is drawn; the navigator alone waits for one to finish.
#[derive(Clone, Copy, Debug, PartialEq, Eq, Structural)]
pub enum Transition {
    Init,
    LeaveScreen,
    EnterScreen,
    DialogEnter,
    NotificationEnter,
    FloatingEnter,
    HelpEnter,
}

/// What a text written to the clipboard was taken for.
#[derive(Clone, Copy, Debug, PartialEq, Eq, Structural)]
pub enum ClipboardUse {
    Cut,
    Copy,
}

/// One child of a listed directory.
#[derive(Debug)]
pub struct DirectoryEntry {
    pub name: String,
    pub is_dir: bool,
}

/// One line of the file-history file, with whether it names a file that exists.
#[derive(Debug)]
pub struct HistoryLine {
    pub path: String,
    pub is_file: bool,
}

/// Outside work that a component asks for. The program around the library
/// performs it and, where an outcome is due, hands it back as an
/// [`AsyncAction`] or a [`Completion`].
#[derive(Debug)]
pub enum Request {
    /// Read the file in the background; answered by `LoadFileContents` or `Error`.
    LoadFile(String),
    /// Write the file in the background; answered by `SavedFile`.
    WriteFile { path: String, contents: String, overwrite: bool },
    /// List `path` if it is a directory, else `fallback` if one is given;
    /// answered by `Completion::DirectoryListed`.
    ListDirectory { path: String, fallback: Option<String> },
    /// Read the history file under this directory; answered by `Completion::HistoryRead`.
    ReadHistory(String),
    /// Read the first `lines` lines of the file in the background, in place of
    /// any preview still being read; answered by `PreviewContents` or `Error`.
    ReadPreview { path: String, lines: usize },
    /// Give up the preview that is being read.
    CancelPreview,
    /// Put the text on the clipboard; answered by `Completion::ClipboardWritten`.
    WriteClipboard { text: String, purpose: ClipboardUse },
    /// Fetch the clipboard's text; answered by `Completion::ClipboardRead`.
    ReadClipboard,
    /// Play a transition.
    PlayTransition(Transition),
}

/// The outcome of a [`Request`] that is not an [`AsyncAction`].
#[derive(Debug)]
pub enum Completion {
    /// The directory that was listed and its children, or `None` where it
    /// could not be read.
    DirectoryListed { path: String, entries: Option<Vec<DirectoryEntry>> },
    /// The lines of the history file, or `None` where it could not be read.
    HistoryRead(Option<Vec<HistoryLine>>),
    /// The clipboard took the text, or failed with a message.
    ClipboardWritten { purpose: ClipboardUse, failure: Option<String> },
    /// The clipboard's text, or `None` where the clipboard is unavailable.
    ClipboardRead(Option<String>),
}

/// What a handler leaves for the runtime: commands for the command queue,
/// results for the result queue, and requests for outside work, each in the
/// order in which they were issued.
#[derive(Debug)]
pub struct Outbox {
    pub actions: Vec<Action>,
    pub async_actions: Vec<AsyncAction>,
    pub requests: Vec<Request>,
}

impl Outbox {
    pub fn new() -> (r: Self)
        ensures
            r.actions@.len() == 0,
            r.async_actions@.len() == 0,
            r.requests@.len() == 0,
    {
        Outbox { actions: Vec::new(), async_actions: Vec::new(), requests: Vec::new() }
    }

    /// Whether this outbox holds what `before` held and, after it, the
    /// given commands, results and requests, in that order.
    pub open spec fn extends(
        self,
        before: Outbox,
        actions: Seq<Action>,
        async_actions: Seq<AsyncAction>,
        requests: Seq<Request>,
    ) -> bool {
        &&& self.actions@ =~= before.actions@ + actions
        &&& self.async_actions@ =~= before.async_actions@ + async_actions
        &&& self.requests@ =~= before.requests@ + requests
    }

    /// Whether this outbox holds exactly what `before` held.
    pub open spec fn same_as(self, before: Outbox) -> bool {
        self.extends(before, seq![], seq![], seq![])
    }

    pub fn send_action(&mut self, action: Action)
        ensures
            final(self).extends(*old(self), seq![action], seq![], seq![]),
    {
        self.actions.push(action);
    }

    pub fn send_async(&mut self, action: AsyncAction)
        ensures
            final(self).extends(*old(self), seq![], seq![action], seq![]),
    {
        self.async_actions.push(action);
    }

    pub fn request(&mut self, request: Request)
        ensures
            final(self).extends(*old(self), seq![], seq![], seq![request]),
    {
        self.requests.push(request);
    }
}

/// How many of the commands are still to be handled by a screen: all but `Quit`,
/// which ends the round in which it is met.
pub open spec fn pending(actions: Seq<Action>) -> nat
    decreases actions.len(),
{
    if actions.len() == 0 {
        0
    } else if actions.last() is Quit {
        pending(actions.drop_last())
    } else {
        pending(actions.drop_last()) + 1
    }
}

/// Taking the first command off a queue takes one off the count of those
/// still to be handled, unless it is `Quit`.
pub proof fn lemma_pending_skip(actions: Seq<Action>)
    requires
        actions.len() > 0,
    ensures
        pending(actions) == pending(actions.skip(1)) + if actions[0] is Quit {
            0nat
        } else {
            1nat
        },
    decreases actions.len(),
{
    if actions.len() == 1 {
        assert(actions.skip(1) =~= Seq::<Action>::empty());
        assert(actions.drop_last() =~= Seq::<Action>::empty());
    } else {
        lemma_pending_skip(actions.drop_last());
        assert(actions.skip(1).drop_last() =~= actions.drop_last().skip(1));
        assert(actions.skip(1).last() == actions.last());
    }
}

/// A command put at the end of a queue adds one to the count of those still
/// to be handled, unless it is `Quit`.
pub proof fn lemma_pending_push(actions: Seq<Action>, action: Action)
    ensures
        pending(actions.push(action)) == pending(actions) + if action is Quit {
            0nat
        } else {
            1nat
        },
{
    assert(actions.push(action).drop_last() =~= actions);
}

/// The weight of a result: results that may cause further results weigh
/// more than those that they cause.
pub open spec fn weight(action: AsyncAction) -> nat {
    match action {
        AsyncAction::SelectPath(_, _) => 3,
        AsyncAction::Navigate(_) | AsyncAction::SavedFile(_) => 2,
        _ => 1,
    }
}

/// The weight of the results of a queue, taken together.
pub open spec fn load(actions: Seq<AsyncAction>) -> nat
    decreases actions.len(),
{
    if actions.len() == 0 {
        0
    } else {
        load(actions.drop_last()) + weight(actions.last())
    }
}

/// A result put at the end of a queue adds its weight to the load.
pub proof fn lemma_load_push(actions: Seq<AsyncAction>, action: AsyncAction)
    ensures
        load(actions.push(action)) == load(actions) + weight(action),
{
    assert(actions.push(action).drop_last() =~= actions);
}

/// Taking the first result off a queue takes its weight off the load.
pub proof fn lemma_load_skip(actions: Seq<AsyncAction>)
    requires
        actions.len() > 0,
    ensures
        load(actions) == load(actions.skip(1)) + weight(actions[0]),
    decreases actions.len(),
{
    if actions.len() == 1 {
        assert(actions.skip(1) =~= Seq::<AsyncAction>::empty());
        assert(actions.drop_last() =~= Seq::<AsyncAction>::empty());
    } else {
        lemma_load_skip(actions.drop_last());
        assert(actions.skip(1).drop_last() =~= actions.drop_last().skip(1));
        assert(actions.skip(1).last() == actions.last());
    }
}

/// Whether the results of `after` are those of `before` and at most the
/// announcement of an animation after them.
pub open spec fn at_most_animated(before: Outbox, after: Outbox) -> bool {
    after.async_actions@ =~= before.async_actions@ || after.async_actions@
        =~= before.async_actions@.push(AsyncAction::StartAnimation)
}

/// Keeps track of whether a transition started by a component is still playing.
#[derive(Debug)]
pub struct EffectRunner {
    running: bool,
}

impl EffectRunner {
    pub closed spec fn running(self) -> bool {
        self.running
    }

    pub fn new() -> (r: Self)
        ensures
            !r.running(),
    {
        EffectRunner { running: false }
    }

    pub fn is_running(&self) -> (r: bool)
        ensures
            r == self.running(),
    {
        self.running
    }

    /// Starts a transition: asks for it to be played and announces the animation.
    pub fn add_effect(&mut self, transition: Transition, out: &mut Outbox)
        ensures
            final(self).running(),
            final(out).extends(
                *old(out),
                seq![],
                seq![AsyncAction::StartAnimation],
                seq![Request::PlayTransition(transition)],
            ),
    {
        out.request(Request::PlayTransition(transition));
        out.send_async(AsyncAction::StartAnimation);
        self.running = true;
    }

    /// Stops keeping track and announces the end of the animation.
    pub fn cancel(&mut self, out: &mut Outbox)
        ensures
            !final(self).running(),
            final(out).extends(*old(out), seq![], seq![AsyncAction::StopAnimation], seq![]),
    {
        self.running = false;
        out.send_async(AsyncAction::StopAnimation);
    }

    /// Takes note of a frame drawn: `still_playing` says whether the
    /// transitions played for this runner have frames left. Answers `true`
    /// exactly when a running transition has just finished, and announces
    /// the end of the animation then.
    pub fn process(&mut self, still_playing: bool, out: &mut Outbox) -> (just_finished: bool)
        ensures
            just_finished == (old(self).running() && !still_playing),
            final(self).running() == (old(self).running() && still_playing),
            final(out).extends(
                *old(out),
                seq![],
                if just_finished {
                    seq![AsyncAction::StopAnimation]
                } else {
                    seq![]
                },
                seq![],
            ),
    {
        if !self.running {
            return false;
        }
        if !still_playing {
            self.cancel(out);
            true
        } else {
            false
        }
    }
}

} // verus!
