use vstd::prelude::*;
use vstd::string::StringExecFns;

use crate::action::{Action, ActionResult};
use crate::component::{TickCount, TICKS_UNTIL_REMOVE_POPUP};

verus! {

/// A message with the ticks it has left, and whether it reports an error.
#[derive(Debug)]
pub struct Notification {
    pub title: TickCount<String>,
    pub error: bool,
}

/// The banner that shows one notification at a time. A new notification
/// replaces the one on show; a notification leaves on the tick after its
/// count has run out, or when it is cancelled.
#[derive(Debug)]
pub struct NotificationComponent {
    notification: Option<Notification>,
}

impl NotificationComponent {
    /// The notification on show, if any.
    pub closed spec fn shown(self) -> Option<Notification> {
        self.notification
    }

    /// Whether `text` is on show, as an error or not, with `count` ticks left.
    pub open spec fn shows(self, text: Seq<char>, error: bool, count: nat) -> bool {
        self.shown() matches Some(n) && n.title.value@ == text && n.error == error && n.title.count
            == count
    }

    /// Nothing on show.
    pub fn empty() -> (r: Self)
        ensures
            r.shown() is None,
    {
        Self { notification: None }
    }

    pub fn new(text: String, error: bool) -> (r: Self)
        ensures
            r.shows(text@, error, TICKS_UNTIL_REMOVE_POPUP as nat),
    {
        let notification = Notification { title: TickCount::new(text), error };
        Self { notification: Some(notification) }
    }

    pub fn new_with_count(text: String, error: bool, count: usize) -> (r: Self)
        ensures
            r.shows(text@, error, count as nat),
    {
        let notification = Notification { title: TickCount::new_with_ticks(text, count), error };
        Self { notification: Some(notification) }
    }

    pub fn notify_text(&mut self, text: &str)
        ensures
            final(self).shows(text@, false, TICKS_UNTIL_REMOVE_POPUP as nat),
    {
        let notification = Notification {
            title: TickCount::new(String::from_str(text)),
            error: false,
        };
        self.notification = Some(notification);
    }

    pub fn notify_error(&mut self, text: &str)
        ensures
            final(self).shows(text@, true, TICKS_UNTIL_REMOVE_POPUP as nat),
    {
        let notification = Notification {
            title: TickCount::new(String::from_str(text)),
            error: true,
        };
        self.notification = Some(notification);
    }

    pub fn notify(&mut self, notification: Notification)
        ensures
            final(self).shown() == Some(notification),
    {
        self.notification = Some(notification);
    }

    /// Whether a notification is on show.
    pub fn visible(&self) -> (r: bool)
        ensures
            r == self.shown() is Some,
    {
        self.notification.is_some()
    }

    /// The text on show and whether it reports an error.
    pub fn current(&self) -> (r: Option<(&String, bool)>)
        ensures
            match (r, self.shown()) {
                (Some((text, error)), Some(n)) => *text == n.title.value && error == n.error,
                (None, None) => true,
                _ => false,
            },
    {
        match &self.notification {
            Some(n) => Some((&n.title.value, n.error)),
            None => None,
        }
    }

    /// The banner after a tick: a notification whose count has run out
    /// leaves, any other loses one tick.
    pub open spec fn ticked(self) -> Option<Notification> {
        match self.shown() {
            Some(n) => if n.title.count == 0 {
                None
            } else {
                Some(
                    Notification {
                        title: TickCount {
                            value: n.title.value,
                            count: (n.title.count - 1) as usize,
                        },
                        error: n.error,
                    },
                )
            },
            None => None,
        }
    }

    /// A tick is consumed, with a redraw, exactly while a notification is on show.
    pub fn handle_tick_action(&mut self) -> (r: ActionResult)
        ensures
            final(self).shown() == old(self).ticked(),
            r == if old(self).shown() is Some {
                (ActionResult::Consumed { rerender: true })
            } else {
                (ActionResult::NotConsumed { rerender: false })
            },
    {
        match self.notification.take() {
            Some(mut n) => {
                if !n.title.countdown() {
                    self.notification = Some(n);
                }
                ActionResult::consumed(true)
            },
            None => ActionResult::default(),
        }
    }

    /// The banner after a command: `Tick` counts down, `Cancel` dismisses,
    /// nothing else touches it.
    pub open spec fn after(self, action: Action) -> Option<Notification> {
        match action {
            Action::Tick => self.ticked(),
            Action::Cancel => None,
            _ => self.shown(),
        }
    }

    /// The answer to a command: `Tick` and `Cancel` are consumed, with a
    /// redraw, while a notification is on show; nothing else is.
    pub open spec fn answer(self, action: Action) -> ActionResult {
        if (action is Tick || action is Cancel) && self.shown() is Some {
            ActionResult::Consumed { rerender: true }
        } else {
            ActionResult::NotConsumed { rerender: false }
        }
    }

    pub fn handle_action_ref(&mut self, action: &Action) -> (r: ActionResult)
        ensures
            final(self).shown() == old(self).after(*action),
            r == old(self).answer(*action),
            !(*action is Tick || *action is Cancel) ==> *final(self) == *old(self),
    {
        match action {
            Action::Tick => self.handle_tick_action(),
            Action::Cancel => {
                if self.notification.take().is_some() {
                    ActionResult::consumed(true)
                } else {
                    ActionResult::default()
                }
            },
            _ => ActionResult::default(),
        }
    }

    pub fn handle_action(&mut self, action: &Action) -> (r: ActionResult)
        ensures
            final(self).shown() == old(self).after(*action),
            r == old(self).answer(*action),
            !(*action is Tick || *action is Cancel) ==> *final(self) == *old(self),
    {
        self.handle_action_ref(action)
    }
}

} // verus!
