use vstd::prelude::*;
use vstd::string::{StrSliceExecFns, StringExecFns};

use crate::action::{Action, ActionResult};
use crate::bindings::{of_screen, Binding};
use crate::component::AppComponent;
use crate::config::Config;
use crate::runtime::{EffectRunner, Outbox, Transition};

verus! {

/// The text ` [key] label `.
pub open spec fn key_label(key: Seq<char>, label: Seq<char>) -> Seq<char> {
    " ["@ + key + "] "@ + label + " "@
}

pub fn key_label_format(key: &str, label: &str) -> (r: String)
    ensures
        r@ == key_label(key@, label@),
{
    let mut r = String::from_str(" [");
    r.append(key);
    r.append("] ");
    r.append(label);
    r.append(" ");
    r
}

/// The modifier labels, each followed by a plus sign.
pub open spec fn modifiers_text(labels: Seq<String>) -> Seq<char>
    decreases labels.len(),
{
    if labels.len() == 0 {
        Seq::<char>::empty()
    } else {
        modifiers_text(labels.drop_last()) + labels.last()@ + "+"@
    }
}

/// Writes a key press: the label of each modifier held, each followed by a
/// plus sign, then the label of the key.
pub fn stringify_key_event(modifier_labels: &Vec<String>, key_label: &str) -> (r: String)
    ensures
        r@ == modifiers_text(modifier_labels@) + key_label@,
{
    let mut r = String::new();
    let mut i: usize = 0;
    while i < modifier_labels.len()
        invariant
            i <= modifier_labels@.len(),
            r@ == modifiers_text(modifier_labels@.subrange(0, i as int)),
        decreases modifier_labels@.len() - i,
    {
        proof {
            let next = modifier_labels@.subrange(0, i + 1);
            assert(next.drop_last() =~= modifier_labels@.subrange(0, i as int));
            assert(next.last() == modifier_labels@[i as int]);
        }
        r.append(modifier_labels[i].as_str());
        r.append("+");
        i += 1;
    }
    assert(modifier_labels@.subrange(0, i as int) =~= modifier_labels@);
    r.append(key_label);
    r
}

/// A line of the help overlay: a key, what it does, and the command behind it.
#[derive(Debug)]
pub struct KeyBind {
    pub key: String,
    pub label: String,
    pub action: Action,
}

impl KeyBind {
    /// The help line of a table entry: its key label and the name of its command.
    pub fn from(binding: &Binding) -> (r: KeyBind)
        ensures
            r.key == binding.label,
            r.label@ == binding.action.name(),
            r.action == binding.action,
    {
        KeyBind {
            key: binding.label.clone(),
            label: binding.action.to_string(),
            action: binding.action.clone(),
        }
    }

    pub fn to_string(&self) -> (r: String)
        ensures
            r@ == key_label(self.key@, self.label@),
    {
        key_label_format(self.key.as_str(), self.label.as_str())
    }

    /// The number of characters that the help line takes.
    pub open spec fn width(self) -> nat {
        self.key@.len() + self.label@.len() + 5
    }
}

/// The help lines of the table entries, in their order.
pub open spec fn help_lines(entries: Seq<Binding>, lines: Seq<KeyBind>) -> bool {
    &&& lines.len() == entries.len()
    &&& forall|i: int|
        0 <= i < entries.len() ==> {
            &&& (#[trigger] lines[i]).key == entries[i].label
            &&& lines[i].label@ == entries[i].action.name()
            &&& lines[i].action == entries[i].action
        }
}

/// The widest of the help lines, zero where there is none.
pub open spec fn widest(lines: Seq<KeyBind>) -> nat
    decreases lines.len(),
{
    if lines.len() == 0 {
        0
    } else if lines.last().width() >= widest(lines.drop_last()) {
        lines.last().width()
    } else {
        widest(lines.drop_last())
    }
}

/// The width of the overlay for its lines: the widest line and nine columns
/// of frame and margin, as far as a width can go.
pub open spec fn overlay_width(lines: Seq<KeyBind>) -> nat {
    if widest(lines) + 9 <= u16::MAX {
        widest(lines) + 9
    } else {
        u16::MAX as nat
    }
}

/// How far an overlay of `count` lines can be scrolled in a viewport of the
/// given height: the lines that do not fit with two more rows.
pub open spec fn scroll_limit(count: nat, height: u16) -> nat {
    if count <= height + 2 {
        0
    } else if count - (height + 2) <= u16::MAX {
        (count - (height + 2)) as nat
    } else {
        u16::MAX as nat
    }
}

/// The overlay that lists the key bindings of a screen. It consumes the
/// command that opens and closes it and, while on show, the scrolling.
#[derive(Debug)]
pub struct HelpComponent {
    pub title: String,
    pub help_key: String,
    pub keybinds: Vec<KeyBind>,
    pub width: u16,
    pub visible: bool,
    pub effect_runner: EffectRunner,
    pub scroll_offset: u16,
    pub max_offset: u16,
}

impl Default for HelpComponent {
    fn default() -> (r: Self)
        ensures
            r.title@ == " Help "@,
            r.keybinds@.len() == 0,
            !r.visible,
            r.width == 0,
            r.help_key@.len() == 0,
            r.scroll_offset == 0,
            r.max_offset == 0,
            !r.effect_runner.running(),
    {
        HelpComponent {
            title: String::from_str(" Help "),
            keybinds: Vec::new(),
            visible: false,
            width: 0,
            help_key: String::new(),
            effect_runner: EffectRunner::new(),
            scroll_offset: 0,
            max_offset: 0,
        }
    }
}

impl HelpComponent {
    /// The title of the overlay: ` Help `, or ` Help - subject `.
    pub open spec fn title_for(subject: Seq<char>) -> Seq<char> {
        if subject.len() == 0 {
            " Help "@
        } else {
            " Help - "@ + subject + " "@
        }
    }

    pub fn new(title: &str, keybinds: Vec<KeyBind>) -> (r: Self)
        ensures
            r.title@ == Self::title_for(title@),
            r.keybinds == keybinds,
            r.width == overlay_width(keybinds@),
            !r.visible,
            r.help_key@.len() == 0,
            r.scroll_offset == 0,
            r.max_offset == 0,
            !r.effect_runner.running(),
    {
        let shown = if title.unicode_len() == 0 {
            String::from_str(" Help ")
        } else {
            let mut t = String::from_str(" Help - ");
            t.append(title);
            t.append(" ");
            t
        };
        let mut n = HelpComponent {
            title: shown,
            keybinds: Vec::new(),
            visible: false,
            width: 0,
            help_key: String::new(),
            effect_runner: EffectRunner::new(),
            scroll_offset: 0,
            max_offset: 0,
        };
        n.register_keybinds(keybinds);
        n
    }

    /// An overlay for the bindings of a screen, or `None` where the screen has none.
    pub fn from_component(title: &str, app_component: &AppComponent, config: &Config) -> (r:
        Option<Self>)
        ensures
            match r {
                Some(help) => {
                    &&& help_lines(of_screen(config.keybindings@, *app_component), help.keybinds@)
                    &&& help.title@ == Self::title_for(title@)
                    &&& help.width == overlay_width(help.keybinds@)
                    &&& !help.visible
                },
                None => of_screen(config.keybindings@, *app_component).len() == 0,
            },
    {
        match config.keybindings.get_all_keybinds(app_component) {
            Some(entries) => Some(Self::new(title, to_help_lines(&entries))),
            None => None,
        }
    }

    /// Lists the bindings of a screen. Answers `false`, and changes nothing,
    /// where the screen has none.
    pub fn register_from_app_component(&mut self, app_component: &AppComponent, config: &Config) -> (r:
        bool)
        ensures
            r == (of_screen(config.keybindings@, *app_component).len() > 0),
            r ==> {
                &&& help_lines(of_screen(config.keybindings@, *app_component), final(self).keybinds@)
                &&& final(self).width == overlay_width(final(self).keybinds@)
            },
            !r ==> final(self).keybinds == old(self).keybinds && final(self).width == old(self).width,
            final(self).title == old(self).title,
            final(self).help_key == old(self).help_key,
            final(self).visible == old(self).visible,
            final(self).effect_runner == old(self).effect_runner,
            final(self).scroll_offset == old(self).scroll_offset,
            final(self).max_offset == old(self).max_offset,
    {
        match config.keybindings.get_all_keybinds(app_component) {
            Some(entries) => {
                self.register_keybinds(to_help_lines(&entries));
                true
            },
            None => false,
        }
    }

    pub fn help_key(&self) -> (r: &str)
        ensures
            r@ == self.help_key@,
    {
        self.help_key.as_str()
    }

    fn register_keybinds(&mut self, keybinds: Vec<KeyBind>)
        ensures
            final(self).keybinds == keybinds,
            final(self).width == overlay_width(keybinds@),
            final(self).title == old(self).title,
            final(self).help_key == old(self).help_key,
            final(self).visible == old(self).visible,
            final(self).effect_runner == old(self).effect_runner,
            final(self).scroll_offset == old(self).scroll_offset,
            final(self).max_offset == old(self).max_offset,
    {
        let mut max: usize = 0;
        let mut i: usize = 0;
        while i < keybinds.len()
            invariant
                i <= keybinds@.len(),
                max <= 0x2ffff,
                max == widest(keybinds@.subrange(0, i as int)) || (max >= 0xffff && widest(
                    keybinds@.subrange(0, i as int),
                ) >= 0xffff),
            decreases keybinds@.len() - i,
        {
            proof {
                let next = keybinds@.subrange(0, i + 1);
                assert(next.drop_last() =~= keybinds@.subrange(0, i as int));
                assert(next.last() == keybinds@[i as int]);
            }
            let line = &keybinds[i];
            let a = line.key.as_str().unicode_len();
            let b = line.label.as_str().unicode_len();
            let len: usize = (if a < 0xffff {
                a
            } else {
                0xffff
            }) + (if b < 0xffff {
                b
            } else {
                0xffff
            }) + 5;
            if len >= max {
                max = len;
            }
            i += 1;
        }
        assert(keybinds@.subrange(0, i as int) =~= keybinds@);
        self.width = if max <= 0xffff - 9 {
            (max + 9) as u16
        } else {
            0xffff
        };
        self.keybinds = keybinds;
    }

    /// Shows or hides the overlay.
    pub fn toggle_visible(&mut self, out: &mut Outbox) -> (r: ActionResult)
        ensures
            r == (ActionResult::Consumed { rerender: true }),
            final(self).visible == !old(self).visible,
            final(self).title == old(self).title,
            final(self).help_key == old(self).help_key,
            final(self).keybinds == old(self).keybinds,
            final(self).width == old(self).width,
            final(self).scroll_offset == old(self).scroll_offset,
            final(self).max_offset == old(self).max_offset,
            final(self).effect_runner.running() == (old(self).effect_runner.running() || final(self).visible),
            final(out).extends(
                *old(out),
                seq![],
                if final(self).visible {
                    seq![crate::action::AsyncAction::StartAnimation]
                } else {
                    seq![]
                },
                if final(self).visible {
                    seq![crate::runtime::Request::PlayTransition(Transition::HelpEnter)]
                } else {
                    seq![]
                },
            ),
    {
        self.visible = !self.visible;
        if self.visible {
            self.effect_runner.add_effect(Transition::HelpEnter, out);
        }
        ActionResult::consumed(true)
    }

    fn scroll_up(&mut self) -> (r: ActionResult)
        ensures
            *final(self) == old(self).scrolled(old(self).offset_after(Action::Up)),
            r == old(self).scroll_answer(Action::Up),
    {
        if self.scroll_offset > 0 {
            self.scroll_offset -= 1;
            return ActionResult::consumed(true);
        }
        ActionResult::default()
    }

    fn scroll_down(&mut self) -> (r: ActionResult)
        ensures
            *final(self) == old(self).scrolled(old(self).offset_after(Action::Down)),
            r == old(self).scroll_answer(Action::Down),
    {
        if self.scroll_offset < self.max_offset {
            self.scroll_offset += 1;
            return ActionResult::consumed(true);
        }
        ActionResult::default()
    }

    /// This overlay scrolled to an offset.
    pub open spec fn scrolled(self, offset: u16) -> HelpComponent {
        HelpComponent { scroll_offset: offset, ..self }
    }

    /// The offset after a scrolling command: one line up unless at the top,
    /// one line down unless at the limit.
    pub open spec fn offset_after(self, action: Action) -> u16 {
        match action {
            Action::Up => if self.scroll_offset > 0 {
                (self.scroll_offset - 1) as u16
            } else {
                self.scroll_offset
            },
            Action::Down => if self.scroll_offset < self.max_offset {
                (self.scroll_offset + 1) as u16
            } else {
                self.scroll_offset
            },
            _ => self.scroll_offset,
        }
    }

    /// A scrolling command is consumed, with a redraw, exactly when it moves the lines.
    pub open spec fn scroll_answer(self, action: Action) -> ActionResult {
        if self.offset_after(action) != self.scroll_offset {
            ActionResult::Consumed { rerender: true }
        } else {
            ActionResult::NotConsumed { rerender: false }
        }
    }

    /// The answer to a command: `Help` is always consumed; scrolling is
    /// consumed while the overlay is on show and the lines move; nothing
    /// else is consumed.
    pub open spec fn answer(self, action: Action) -> ActionResult {
        if action is Help {
            ActionResult::Consumed { rerender: true }
        } else if self.visible {
            self.scroll_answer(action)
        } else {
            ActionResult::NotConsumed { rerender: false }
        }
    }

    /// What a command does to the overlay.
    pub open spec fn handled(
        self,
        action: Action,
        after: HelpComponent,
        out_before: Outbox,
        out_after: Outbox,
    ) -> bool {
        if action is Help {
            &&& after.visible == !self.visible
            &&& after.scroll_offset == self.scroll_offset
            &&& after.max_offset == self.max_offset
            &&& after.keybinds == self.keybinds
            &&& after.title == self.title
            &&& after.help_key == self.help_key
            &&& after.width == self.width
            &&& out_after.extends(
                out_before,
                seq![],
                if after.visible {
                    seq![crate::action::AsyncAction::StartAnimation]
                } else {
                    seq![]
                },
                if after.visible {
                    seq![crate::runtime::Request::PlayTransition(Transition::HelpEnter)]
                } else {
                    seq![]
                },
            )
        } else {
            &&& out_after.same_as(out_before)
            &&& after == if self.visible {
                self.scrolled(self.offset_after(action))
            } else {
                self
            }
        }
    }

    pub fn handle_action(&mut self, action: &Action, out: &mut Outbox) -> (r: ActionResult)
        ensures
            r == old(self).answer(*action),
            old(self).handled(*action, *final(self), *old(out), *final(out)),
            final(out).actions@ == old(out).actions@,
    {
        if !self.visible {
            return match action {
                Action::Help => self.toggle_visible(out),
                _ => ActionResult::not_consumed(false),
            };
        }
        match action {
            Action::Up => self.scroll_up(),
            Action::Down => self.scroll_down(),
            Action::Help => self.toggle_visible(out),
            _ => ActionResult::default(),
        }
    }

    /// Whether `after` is this overlay with the configuration taken for a
    /// screen: it names the key that opens the help there, and lists the
    /// screen's bindings, where it has any.
    pub open spec fn registered(
        self,
        config: Config,
        parent_comp: AppComponent,
        after: HelpComponent,
    ) -> bool {
        &&& after.help_key@ == match config.keybindings.key_of(parent_comp, Action::Help) {
            Some(binding) => binding.label@,
            None => Seq::<char>::empty(),
        }
        &&& if of_screen(config.keybindings@, parent_comp).len() > 0 {
            &&& help_lines(of_screen(config.keybindings@, parent_comp), after.keybinds@)
            &&& after.width == overlay_width(after.keybinds@)
        } else {
            after.keybinds == self.keybinds && after.width == self.width
        }
        &&& after.title == self.title
        &&& after.visible == self.visible
        &&& after.effect_runner == self.effect_runner
        &&& after.scroll_offset == self.scroll_offset
        &&& after.max_offset == self.max_offset
    }

    /// Takes the label of the key that opens the help on the screen, and
    /// lists the screen's bindings.
    pub fn register_config(&mut self, config: &Config, parent_comp: &AppComponent)
        ensures
            old(self).registered(*config, *parent_comp, *final(self)),
    {
        self.help_key = config.keybindings.get_key_string_or_default(&Action::Help, parent_comp);
        let _ = self.register_from_app_component(parent_comp, config);
    }

    /// Takes the height of the area that the overlay was drawn in, which
    /// decides how far the lines can be scrolled.
    pub fn set_viewport_height(&mut self, height: u16)
        ensures
            *final(self) == (HelpComponent {
                max_offset: scroll_limit(old(self).keybinds@.len(), height) as u16,
                ..*old(self)
            }),
    {
        let count = self.keybinds.len();
        let frame: usize = height as usize + 2;
        let hidden = if count > frame {
            count - frame
        } else {
            0
        };
        self.max_offset = if hidden <= 0xffff {
            hidden as u16
        } else {
            0xffff
        };
    }
}

/// The help lines of the entries.
fn to_help_lines(entries: &Vec<Binding>) -> (r: Vec<KeyBind>)
    ensures
        help_lines(entries@, r@),
{
    let mut lines: Vec<KeyBind> = Vec::new();
    let mut i: usize = 0;
    while i < entries.len()
        invariant
            i <= entries@.len(),
            help_lines(entries@.subrange(0, i as int), lines@),
        decreases entries@.len() - i,
    {
        lines.push(KeyBind::from(&entries[i]));
        i += 1;
    }
    assert(entries@.subrange(0, i as int) =~= entries@);
    lines
}

} // verus!
