use vstd::prelude::*;

use crate::action::{Action, ActionResult, AsyncAction};
use crate::runtime::{Outbox, Request};

verus! {

/// The preview of the file that the list cursor is on. At most one read is
/// under way for it: asking for a new one, or moving to another file, gives
/// up the one before.
#[derive(Debug)]
pub struct PreviewComponent {
    pub path_buf: String,
    pub contents: Option<String>,
    pub lines: usize,
    pub visible: bool,
}

impl Default for PreviewComponent {
    fn default() -> (r: Self)
        ensures
            r.path_buf@.len() == 0,
            r.contents is None,
            r.lines == 0,
            r.visible,
    {
        PreviewComponent { path_buf: String::new(), contents: None, lines: 0, visible: true }
    }
}

impl PreviewComponent {
    /// The request that reads what this preview shows.
    pub open spec fn read_request(self) -> Request {
        Request::ReadPreview { path: self.path_buf, lines: self.lines }
    }

    /// Turns to another file, or to none: what was shown is dropped and the
    /// read under way is given up.
    pub fn change_dir(&mut self, dir: Option<String>, out: &mut Outbox)
        ensures
            final(self).path_buf == match dir {
                Some(path) => path,
                None => old(self).path_buf,
            },
            final(self).contents is None,
            final(self).lines == old(self).lines,
            final(self).visible == old(self).visible,
            final(out).extends(*old(out), seq![], seq![], seq![Request::CancelPreview]),
    {
        if let Some(dir) = dir {
            self.path_buf = dir;
        }
        self.contents = None;
        out.request(Request::CancelPreview);
    }

    /// Asks for the file to be read, unless its contents are at hand.
    fn read_lines(&mut self, out: &mut Outbox)
        ensures
            *final(self) == *old(self),
            final(out).extends(
                *old(out),
                seq![],
                seq![],
                if old(self).contents is Some {
                    seq![]
                } else {
                    seq![old(self).read_request()]
                },
            ),
    {
        if self.contents.is_some() {
            return ;
        }
        out.request(Request::ReadPreview { path: self.path_buf.clone(), lines: self.lines });
    }

    /// The preview is drawn when it is switched on and shows a file.
    pub fn visible(&self, is_file: bool) -> (r: bool)
        ensures
            r == (self.visible && is_file),
    {
        self.visible && is_file
    }

    fn reload(&mut self, out: &mut Outbox)
        ensures
            *final(self) == (PreviewComponent { contents: None, ..*old(self) }),
            final(out).extends(*old(out), seq![], seq![], seq![old(self).read_request()]),
    {
        self.contents = None;
        self.read_lines(out);
    }

    /// The preview after a command.
    pub open spec fn after(self, action: Action) -> PreviewComponent {
        match action {
            Action::TogglePreview => PreviewComponent { visible: !self.visible, ..self },
            Action::ReloadPreview | Action::Resize(_, _) => PreviewComponent {
                contents: None,
                ..self
            },
            _ => self,
        }
    }

    /// The answer to a command: switching and reloading are consumed; a
    /// resize reloads and is passed on.
    pub open spec fn answer(action: Action) -> ActionResult {
        match action {
            Action::TogglePreview | Action::ReloadPreview => ActionResult::Consumed {
                rerender: true,
            },
            Action::Resize(_, _) => ActionResult::NotConsumed { rerender: true },
            _ => ActionResult::NotConsumed { rerender: false },
        }
    }

    /// The requests made in answer to a command.
    pub open spec fn asked(self, action: Action) -> Seq<Request> {
        match action {
            Action::ReloadPreview | Action::Resize(_, _) => seq![self.read_request()],
            _ => seq![],
        }
    }

    pub fn handle_action(&mut self, action: &Action, out: &mut Outbox) -> (r: ActionResult)
        ensures
            *final(self) == old(self).after(*action),
            r == Self::answer(*action),
            final(out).extends(*old(out), seq![], seq![], old(self).asked(*action)),
    {
        match action {
            Action::TogglePreview => {
                self.visible = !self.visible;
                ActionResult::consumed(true)
            },
            Action::ReloadPreview => {
                self.reload(out);
                ActionResult::consumed(true)
            },
            Action::Resize(_, _) => {
                self.reload(out);
                ActionResult::not_consumed(true)
            },
            _ => ActionResult::default(),
        }
    }

    /// Takes the contents that were read; nothing else concerns the preview.
    pub fn handle_async_action(&mut self, action: &AsyncAction) -> (r: ActionResult)
        ensures
            match *action {
                AsyncAction::PreviewContents(contents) => {
                    &&& *final(self) == (PreviewComponent { contents, ..*old(self) })
                    &&& r == (ActionResult::Consumed { rerender: true })
                },
                _ => *final(self) == *old(self) && r == (ActionResult::NotConsumed {
                    rerender: false,
                }),
            },
    {
        if let AsyncAction::PreviewContents(contents) = action {
            self.contents = match contents {
                Some(text) => Some(text.clone()),
                None => None,
            };
            return ActionResult::consumed(true);
        }
        ActionResult::default()
    }

    /// The lines that fit in a frame of the given height: all rows but the
    /// two of the border.
    pub open spec fn lines_in(height: u16) -> usize {
        if height >= 2 {
            (height - 2) as usize
        } else {
            0
        }
    }

    /// Takes the height of the area that the preview was drawn in, and asks
    /// for the file to be read unless its contents are at hand.
    pub fn set_viewport_height(&mut self, height: u16, out: &mut Outbox)
        ensures
            *final(self) == (PreviewComponent { lines: Self::lines_in(height), ..*old(self) }),
            final(out).extends(
                *old(out),
                seq![],
                seq![],
                if old(self).contents is Some {
                    seq![]
                } else {
                    seq![final(self).read_request()]
                },
            ),
    {
        self.lines = if height >= 2 {
            (height - 2) as usize
        } else {
            0
        };
        self.read_lines(out);
    }
}

} // verus!
