use vstd::prelude::*;

verus! {

/// A key event, as the terminal layer hands it to the session core after
/// decoding the raw input.
#[derive(Copy, Clone, Debug, PartialEq, Eq, Structural)]
pub enum Key {
    Char(char),
    Ctrl(char),
    Up,
    Down,
    Enter,
    Esc,
}

/// A command the interactive role can run. Which commands are available
/// depends on the session's progress: only quitting before initialization,
/// the full set afterwards.
#[derive(Copy, Clone, Debug, PartialEq, Eq, Structural)]
pub enum Action {
    Quit,
    PlaySound,
    PauseSound,
    SelectNextTrack,
    SelectPreviousTrack,
}

/// The single action a key is bound to, if any. Every binding lives here,
/// so the help pane and the dispatcher cannot disagree.
pub open spec fn spec_action_for(key: Key) -> Option<Action> {
    if key == Key::Char('q') || key == Key::Ctrl('c') {
        Some(Action::Quit)
    } else if key == Key::Char('p') {
        Some(Action::PlaySound)
    } else if key == Key::Char('s') {
        Some(Action::PauseSound)
    } else if key == Key::Down {
        Some(Action::SelectNextTrack)
    } else if key == Key::Up {
        Some(Action::SelectPreviousTrack)
    } else {
        None
    }
}

impl Action {
    /// The keys bound to this action, for the help pane.
    pub open spec fn spec_keys(self) -> Seq<Key> {
        match self {
            Action::Quit => seq![Key::Char('q'), Key::Ctrl('c')],
            Action::PlaySound => seq![Key::Char('p')],
            Action::PauseSound => seq![Key::Char('s')],
            Action::SelectNextTrack => seq![Key::Down],
            Action::SelectPreviousTrack => seq![Key::Up],
        }
    }

    pub fn keys(&self) -> (r: Vec<Key>)
        ensures
            r@ == self.spec_keys(),
    {
        match self {
            Action::Quit => {
                let r: Vec<Key> = vec![Key::Char('q'), Key::Ctrl('c')];
                assert(r@ =~= self.spec_keys());
                r
            },
            Action::PlaySound => {
                let r: Vec<Key> = vec![Key::Char('p')];
                assert(r@ =~= self.spec_keys());
                r
            },
            Action::PauseSound => {
                let r: Vec<Key> = vec![Key::Char('s')];
                assert(r@ =~= self.spec_keys());
                r
            },
            Action::SelectNextTrack => {
                let r: Vec<Key> = vec![Key::Down];
                assert(r@ =~= self.spec_keys());
                r
            },
            Action::SelectPreviousTrack => {
                let r: Vec<Key> = vec![Key::Up];
                assert(r@ =~= self.spec_keys());
                r
            },
        }
    }

    /// A short name for the help pane.
    pub open spec fn spec_label(self) -> Seq<char> {
        match self {
            Action::Quit => "Quit"@,
            Action::PlaySound => "Play"@,
            Action::PauseSound => "Pause"@,
            Action::SelectNextTrack => "Next track"@,
            Action::SelectPreviousTrack => "Previous track"@,
        }
    }

    pub fn label(&self) -> (r: &'static str)
        ensures
            r@ == self.spec_label(),
    {
        match self {
            Action::Quit => "Quit",
            Action::PlaySound => "Play",
            Action::PauseSound => "Pause",
            Action::SelectNextTrack => "Next track",
            Action::SelectPreviousTrack => "Previous track",
        }
    }
}

/// The help pane and the dispatcher agree: a key is bound to an action
/// exactly when that action lists the key.
pub proof fn lemma_bindings_consistent(key: Key, action: Action)
    ensures
        spec_action_for(key) == Some(action) <==> action.spec_keys().contains(key),
{
    if action.spec_keys().contains(key) {
        let i = choose|i: int|
            0 <= i < action.spec_keys().len() && action.spec_keys()[i] == key;
        assert(spec_action_for(key) == Some(action));
    }
    if spec_action_for(key) == Some(action) {
        match action {
            Action::Quit => {
                if key == Key::Char('q') {
                    assert(action.spec_keys()[0] == key);
                } else {
                    assert(action.spec_keys()[1] == key);
                }
            },
            Action::PlaySound => {
                assert(action.spec_keys()[0] == key);
            },
            Action::PauseSound => {
                assert(action.spec_keys()[0] == key);
            },
            Action::SelectNextTrack => {
                assert(action.spec_keys()[0] == key);
            },
            Action::SelectPreviousTrack => {
                assert(action.spec_keys()[0] == key);
            },
        }
    }
}

/// The set of actions currently available to the user.
pub struct Actions {
    pub items: Vec<Action>,
}

impl Actions {
    /// What `find` returns: the action the key is bound to, provided that
    /// action is currently available.
    pub open spec fn spec_find(&self, key: Key) -> Option<Action> {
        match spec_action_for(key) {
            Some(a) => if self.items@.contains(a) {
                Some(a)
            } else {
                None
            },
            None => None,
        }
    }

    pub fn new(items: Vec<Action>) -> (r: Actions)
        ensures
            r.items == items,
    {
        Actions { items }
    }

    /// The available actions, in order, for the help pane.
    pub fn actions(&self) -> (r: &Vec<Action>)
        ensures
            r@ == self.items@,
    {
        &self.items
    }

    /// Map a key to an available action: the key's binding, if that action
    /// is in the current set.
    pub fn find(&self, key: Key) -> (r: Option<Action>)
        ensures
            r == self.spec_find(key),
    {
        let bound: Option<Action> = match key {
            Key::Char(c) => {
                if c == 'q' {
                    Some(Action::Quit)
                } else if c == 'p' {
                    Some(Action::PlaySound)
                } else if c == 's' {
                    Some(Action::PauseSound)
                } else {
                    None
                }
            },
            Key::Ctrl(c) => if c == 'c' {
                Some(Action::Quit)
            } else {
                None
            },
            Key::Down => Some(Action::SelectNextTrack),
            Key::Up => Some(Action::SelectPreviousTrack),
            _ => None,
        };
        match bound {
            Some(a) => {
                let mut i: usize = 0;
                while i < self.items.len()
                    invariant
                        i <= self.items.len(),
                        spec_action_for(key) == Some(a),
                        forall|j: int| 0 <= j < i ==> self.items@[j] != a,
                    decreases self.items.len() - i,
                {
                    if self.items[i] == a {
                        assert(self.items@.contains(a)) by {
                            assert(self.items@[i as int] == a);
                        }
                        return Some(a);
                    }
                    i += 1;
                }
                assert(!self.items@.contains(a));
                None
            },
            None => None,
        }
    }
}

} // verus!
