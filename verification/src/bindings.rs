use vstd::prelude::*;

use crate::action::Action;
use crate::component::AppComponent;
use crate::keybindings::KeyEvent;

verus! {

/// One entry of the key-binding table: on this screen, this key issues this
/// command. The label is the key's name as the terminal layer writes it.
#[derive(Debug)]
pub struct Binding {
    pub screen: AppComponent,
    pub key: KeyEvent,
    pub label: String,
    pub action: Action,
}

impl Binding {
    /// Whether this entry is filed under the screen and the key.
    pub open spec fn is_for(self, screen: AppComponent, key: KeyEvent) -> bool {
        self.screen.same(screen) && self.key.same_key(key)
    }

    /// Whether this entry is filed under the screen and issues the command.
    pub open spec fn issues(self, screen: AppComponent, action: Action) -> bool {
        self.screen.same(screen) && self.action.same(action)
    }
}

impl Clone for Binding {
    fn clone(&self) -> (r: Self)
        ensures
            r == *self,
    {
        Binding {
            screen: self.screen.clone(),
            key: self.key,
            label: self.label.clone(),
            action: self.action.clone(),
        }
    }
}

/// The first entry at or after `from` that is filed under the screen and the key.
pub open spec fn find_key(
    entries: Seq<Binding>,
    screen: AppComponent,
    key: KeyEvent,
    from: int,
) -> Option<int>
    decreases entries.len() - from,
{
    if from < 0 || from >= entries.len() {
        None
    } else if entries[from].is_for(screen, key) {
        Some(from)
    } else {
        find_key(entries, screen, key, from + 1)
    }
}

/// The first entry at or after `from` that is filed under the screen and
/// issues the command.
pub open spec fn find_action(
    entries: Seq<Binding>,
    screen: AppComponent,
    action: Action,
    from: int,
) -> Option<int>
    decreases entries.len() - from,
{
    if from < 0 || from >= entries.len() {
        None
    } else if entries[from].issues(screen, action) {
        Some(from)
    } else {
        find_action(entries, screen, action, from + 1)
    }
}

/// The command that the first entry filed under the screen and the key issues.
pub open spec fn action_in(entries: Seq<Binding>, screen: AppComponent, key: KeyEvent) -> Option<
    Action,
> {
    match find_key(entries, screen, key, 0) {
        Some(i) => Some(entries[i].action),
        None => None,
    }
}

/// The command that the key issues on the screen once the defaults stand
/// behind the user's table: the user's command where the user bound the
/// key, else the default.
pub open spec fn merged(
    user: Seq<Binding>,
    defaults: Seq<Binding>,
    screen: AppComponent,
    key: KeyEvent,
) -> Option<Action> {
    match action_in(user, screen, key) {
        Some(action) => Some(action),
        None => action_in(defaults, screen, key),
    }
}

/// The table with the defaults behind it: the entries of the table, then,
/// in their order, the defaults for each screen and key under which nothing
/// is filed before them.
pub open spec fn with_defaults(user: Seq<Binding>, defaults: Seq<Binding>) -> Seq<Binding>
    decreases defaults.len(),
{
    if defaults.len() == 0 {
        user
    } else {
        let before = with_defaults(user, defaults.drop_last());
        let default = defaults.last();
        if find_key(before, default.screen, default.key, 0) is None {
            before.push(default)
        } else {
            before
        }
    }
}

/// The entries of one screen, in the order of the table.
pub open spec fn of_screen(entries: Seq<Binding>, screen: AppComponent) -> Seq<Binding> {
    entries.filter(|b: Binding| b.screen.same(screen))
}

/// The key-binding table: for each screen, which key issues which command.
/// Where several entries are filed under one screen and key, the first counts.
#[derive(Debug)]
pub struct Keybindings {
    pub entries: Vec<Binding>,
}

impl View for Keybindings {
    type V = Seq<Binding>;

    open spec fn view(&self) -> Seq<Binding> {
        self.entries@
    }
}

impl Keybindings {
    pub fn new() -> (r: Self)
        ensures
            r@.len() == 0,
    {
        Keybindings { entries: Vec::new() }
    }

    pub fn with(entries: Vec<Binding>) -> (r: Self)
        ensures
            r@ == entries@,
    {
        Keybindings { entries }
    }

    /// The command that the key issues on the screen.
    pub open spec fn action_of(self, screen: AppComponent, key: KeyEvent) -> Option<Action> {
        action_in(self@, screen, key)
    }

    /// The first key that issues the command on the screen, with its label.
    pub open spec fn key_of(self, screen: AppComponent, action: Action) -> Option<Binding> {
        match find_action(self@, screen, action, 0) {
            Some(i) => Some(self@[i]),
            None => None,
        }
    }

    /// Where the key is bound on the screen.
    fn position(&self, screen: &AppComponent, key: KeyEvent) -> (r: Option<usize>)
        ensures
            match r {
                Some(i) => find_key(self@, *screen, key, 0) == Some(i as int) && i < self@.len(),
                None => find_key(self@, *screen, key, 0) is None,
            },
    {
        let mut i: usize = 0;
        while i < self.entries.len()
            invariant
                i <= self@.len(),
                find_key(self@, *screen, key, 0) == find_key(self@, *screen, key, i as int),
            decreases self@.len() - i,
        {
            let entry = &self.entries[i];
            if entry.screen == *screen && entry.key.is_same_key(&key) {
                return Some(i);
            }
            i += 1;
        }
        None
    }

    pub fn get_action(&self, screen: &AppComponent, key: KeyEvent) -> (r: Option<Action>)
        ensures
            r == self.action_of(*screen, key),
    {
        match self.position(screen, key) {
            Some(i) => Some(self.entries[i].action.clone()),
            None => None,
        }
    }

    /// The entries of one screen, or `None` where the screen has none.
    pub fn get_all_keybinds(&self, screen: &AppComponent) -> (r: Option<Vec<Binding>>)
        ensures
            match r {
                Some(list) => list@ == of_screen(self@, *screen) && list@.len() > 0,
                None => of_screen(self@, *screen).len() == 0,
            },
    {
        let mut list: Vec<Binding> = Vec::new();
        let mut i: usize = 0;
        while i < self.entries.len()
            invariant
                i <= self@.len(),
                list@ == of_screen(self@.subrange(0, i as int), *screen),
            decreases self@.len() - i,
        {
            let entry = &self.entries[i];
            proof {
                let pred = |b: Binding| b.screen.same(*screen);
                let prefix = self@.subrange(0, i as int);
                assert(self@.subrange(0, i + 1) =~= prefix.push(self@[i as int]));
                assert(prefix.push(self@[i as int]).drop_last() =~= prefix);
                reveal(Seq::filter);
            }
            if entry.screen == *screen {
                list.push(entry.clone());
            }
            i += 1;
        }
        assert(self@.subrange(0, i as int) =~= self@);
        if list.len() == 0 {
            None
        } else {
            Some(list)
        }
    }

    pub fn get_key_event_of_action(&self, screen: &AppComponent, action: &Action) -> (r: Option<
        KeyEvent,
    >)
        ensures
            r == match self.key_of(*screen, *action) {
                Some(binding) => Some(binding.key),
                None => None,
            },
    {
        match self.binding_of(screen, action) {
            Some(i) => Some(self.entries[i].key),
            None => None,
        }
    }

    /// The label of the first key that issues the command on the screen, or
    /// the empty text where no key does.
    pub fn get_key_string_or_default(&self, action: &Action, screen: &AppComponent) -> (r: String)
        ensures
            r@ == match self.key_of(*screen, *action) {
                Some(binding) => binding.label@,
                None => Seq::<char>::empty(),
            },
    {
        match self.binding_of(screen, action) {
            Some(i) => self.entries[i].label.clone(),
            None => String::new(),
        }
    }

    /// Where the first key that issues the command on the screen is filed.
    fn binding_of(&self, screen: &AppComponent, action: &Action) -> (r: Option<usize>)
        ensures
            match r {
                Some(i) => find_action(self@, *screen, *action, 0) == Some(i as int) && i
                    < self@.len(),
                None => find_action(self@, *screen, *action, 0) is None,
            },
    {
        let mut i: usize = 0;
        while i < self.entries.len()
            invariant
                i <= self@.len(),
                find_action(self@, *screen, *action, 0) == find_action(
                    self@,
                    *screen,
                    *action,
                    i as int,
                ),
            decreases self@.len() - i,
        {
            let entry = &self.entries[i];
            if entry.screen == *screen && entry.action == *action {
                return Some(i);
            }
            i += 1;
        }
        None
    }

    /// Files the key under the screen. An entry already filed under the
    /// same screen and key is replaced; else the entry is added at the end.
    pub fn bind(&mut self, screen: AppComponent, key: KeyEvent, label: String, action: Action)
        ensures
            match find_key(old(self)@, screen, key, 0) {
                Some(i) => final(self)@ == old(self)@.update(
                    i,
                    Binding { screen, key, label, action },
                ),
                None => final(self)@ == old(self)@.push(Binding { screen, key, label, action }),
            },
            final(self).action_of(screen, key) == Some(action),
    {
        let found = self.position(&screen, key);
        let binding = Binding { screen, key, label, action };
        match found {
            Some(i) => {
                self.entries[i] = binding;
                proof {
                    lemma_find_key_update(old(self)@, binding, i as int, 0);
                }
            },
            None => {
                self.entries.push(binding);
                proof {
                    lemma_find_key_push(old(self)@, binding, screen, key, 0);
                }
            },
        }
    }

    /// Puts the defaults behind this table: each default is added for the
    /// screen and key where the table binds nothing. What the table binds stays.
    pub fn merge_defaults(&mut self, defaults: &Keybindings)
        ensures
            final(self)@ == with_defaults(old(self)@, defaults@),
            forall|screen: AppComponent, key: KeyEvent| #[trigger]
                final(self).action_of(screen, key) == merged(
                    old(self)@,
                    defaults@,
                    screen,
                    key,
                ),
    {
        let mut i: usize = 0;
        assert(defaults@.take(0) =~= Seq::<Binding>::empty());
        while i < defaults.entries.len()
            invariant
                i <= defaults@.len(),
                self@ == with_defaults(old(self)@, defaults@.take(i as int)),
                forall|screen: AppComponent, key: KeyEvent| #[trigger]
                    action_in(self@, screen, key) == merged(
                        old(self)@,
                        defaults@.take(i as int),
                        screen,
                        key,
                    ),
            decreases defaults@.len() - i,
        {
            let default = &defaults.entries[i];
            let ghost before = self@;
            let ghost seen = defaults@.take(i as int);
            let found = self.position(&default.screen, default.key);
            if found.is_none() {
                self.entries.push(default.clone());
            }
            proof {
                let d = defaults@[i as int];
                assert(defaults@.take(i + 1) =~= seen.push(d));
                assert(defaults@.take(i + 1).drop_last() =~= seen);
                assert forall|screen: AppComponent, key: KeyEvent| #[trigger]
                    action_in(self@, screen, key) == merged(
                        old(self)@,
                        defaults@.take(i + 1),
                        screen,
                        key,
                    ) by {
                    lemma_action_in_push(seen, d, screen, key);
                    lemma_action_in_push(old(self)@, d, screen, key);
                    assert(action_in(before, screen, key) == merged(
                        old(self)@,
                        seen,
                        screen,
                        key,
                    ));
                    if found is None {
                        lemma_action_in_push(before, d, screen, key);
                    } else {
                        if d.is_for(screen, key) {
                            let j = found->0 as int;
                            lemma_find_key_found(before, d.screen, d.key, 0);
                            assert(before[j].is_for(screen, key));
                            lemma_find_key_exists(before, screen, key, 0, j);
                        }
                    }
                }
            }
            i += 1;
        }
        assert(defaults@.take(i as int) =~= defaults@);
    }
}

/// An entry that a search finds lies in the part searched and is filed as asked.
pub proof fn lemma_find_key_found(
    entries: Seq<Binding>,
    screen: AppComponent,
    key: KeyEvent,
    from: int,
)
    requires
        0 <= from,
    ensures
        match find_key(entries, screen, key, from) {
            Some(i) => from <= i < entries.len() && entries[i].is_for(screen, key),
            None => true,
        },
    decreases entries.len() - from,
{
    if from < entries.len() && !entries[from].is_for(screen, key) {
        lemma_find_key_found(entries, screen, key, from + 1);
    }
}

/// A search finds an entry wherever one is filed as asked.
pub proof fn lemma_find_key_exists(
    entries: Seq<Binding>,
    screen: AppComponent,
    key: KeyEvent,
    from: int,
    at: int,
)
    requires
        0 <= from <= at < entries.len(),
        entries[at].is_for(screen, key),
    ensures
        find_key(entries, screen, key, from) is Some,
    decreases at - from,
{
    if from < at && !entries[from].is_for(screen, key) {
        lemma_find_key_exists(entries, screen, key, from + 1, at);
    }
}

/// The command of a key in a table with one more entry at its end: what
/// it was before, or else the command of the new entry if that one is filed
/// under the key.
pub proof fn lemma_action_in_push(
    entries: Seq<Binding>,
    binding: Binding,
    screen: AppComponent,
    key: KeyEvent,
)
    ensures
        action_in(entries.push(binding), screen, key) == match action_in(entries, screen, key) {
            Some(action) => Some(action),
            None => if binding.is_for(screen, key) {
                Some(binding.action)
            } else {
                None
            },
        },
{
    lemma_find_key_push(entries, binding, screen, key, 0);
    lemma_find_key_found(entries, screen, key, 0);
}

/// Replacing the first entry filed under a screen and key by one filed under
/// the same leaves it the first.
proof fn lemma_find_key_update(entries: Seq<Binding>, binding: Binding, at: int, from: int)
    requires
        0 <= from <= at < entries.len(),
        find_key(entries, binding.screen, binding.key, from) == Some(at),
    ensures
        find_key(entries.update(at, binding), binding.screen, binding.key, from) == Some(at),
    decreases at - from,
{
    if from < at {
        lemma_find_key_update(entries, binding, at, from + 1);
    }
}

/// A search through a table with one more entry at its end finds what it
/// found before, or else the new entry if that one is filed as asked.
pub proof fn lemma_find_key_push(
    entries: Seq<Binding>,
    binding: Binding,
    screen: AppComponent,
    key: KeyEvent,
    from: int,
)
    requires
        0 <= from <= entries.len(),
    ensures
        find_key(entries.push(binding), screen, key, from) == match find_key(
            entries,
            screen,
            key,
            from,
        ) {
            Some(i) => Some(i),
            None => if binding.is_for(screen, key) {
                Some(entries.len() as int)
            } else {
                None
            },
        },
    decreases entries.len() - from,
{
    if from < entries.len() {
        lemma_find_key_push(entries, binding, screen, key, from + 1);
    } else {
        assert(find_key(entries.push(binding), screen, key, from + 1) is None);
    }
}

} // verus!
