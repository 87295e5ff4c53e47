use vstd::prelude::*;
use crate::label::WindowLabel;
use crate::action::Action;

verus! {

/// What a live window shows of itself.
#[derive(Clone, Copy, Debug, PartialEq, Eq, Structural)]
pub enum Visibility {
    Hidden,
    ShownUnfocused,
    ShownFocused,
}

impl Visibility {
    /// What a window shows, from what the host reports of it: a window that
    /// holds the focus is shown and focused, whatever else is reported.
    pub open spec fn of_flags(visible: bool, focused: bool) -> Visibility {
        if focused {
            Visibility::ShownFocused
        } else if visible {
            Visibility::ShownUnfocused
        } else {
            Visibility::Hidden
        }
    }

    pub fn from_flags(visible: bool, focused: bool) -> (r: Visibility)
        ensures
            r == Self::of_flags(visible, focused),
    {
        if focused {
            Visibility::ShownFocused
        } else if visible {
            Visibility::ShownUnfocused
        } else {
            Visibility::Hidden
        }
    }
}

/// The window registry: for each label, the visibility of its live window,
/// or `None` where no window with that label is live.
#[derive(Clone, Copy, Debug, PartialEq, Eq, Structural)]
pub struct Shell {
    pub main: Option<Visibility>,
    pub msgbox: Option<Visibility>,
    pub login: Option<Visibility>,
    pub extend: Option<Visibility>,
}

/// The visibility a window has right after it was built.
pub open spec fn initial_visibility(label: WindowLabel) -> Visibility {
    match label {
        WindowLabel::Login => Visibility::ShownUnfocused,
        _ => Visibility::Hidden,
    }
}

impl Shell {
    pub open spec fn slot(self, label: WindowLabel) -> Option<Visibility> {
        match label {
            WindowLabel::Main => self.main,
            WindowLabel::Msgbox => self.msgbox,
            WindowLabel::Login => self.login,
            WindowLabel::Extend => self.extend,
        }
    }

    pub open spec fn is_live(self, label: WindowLabel) -> bool {
        self.slot(label).is_some()
    }

    /// The registry with the slot of `label` replaced.
    pub open spec fn with_slot(self, label: WindowLabel, value: Option<Visibility>) -> Shell {
        match label {
            WindowLabel::Main => Shell { main: value, ..self },
            WindowLabel::Msgbox => Shell { msgbox: value, ..self },
            WindowLabel::Login => Shell { login: value, ..self },
            WindowLabel::Extend => Shell { extend: value, ..self },
        }
    }

    /// The registry after the host has performed `action`: showing, focusing
    /// and hiding act on live windows only, building adds a window only where
    /// the label is free, and nothing else touches the registry.
    pub open spec fn applied(self, action: Action) -> Shell {
        match action {
            Action::Surface(l) | Action::Focus(l) => if self.is_live(l) {
                self.with_slot(l, Some(Visibility::ShownFocused))
            } else {
                self
            },
            Action::Hide(l) => if self.is_live(l) {
                self.with_slot(l, Some(Visibility::Hidden))
            } else {
                self
            },
            Action::Create(l) => if self.is_live(l) {
                self
            } else {
                self.with_slot(l, Some(initial_visibility(l)))
            },
            _ => self,
        }
    }

    /// The registry after the host has performed `actions` in order.
    pub open spec fn run(self, actions: Seq<Action>) -> Shell
        decreases actions.len(),
    {
        if actions.len() == 0 {
            self
        } else {
            self.run(actions.drop_last()).applied(actions.last())
        }
    }

    /// The registry of a shell without windows.
    pub fn new() -> (r: Shell)
        ensures
            r == (Shell { main: None, msgbox: None, login: None, extend: None }),
    {
        Shell { main: None, msgbox: None, login: None, extend: None }
    }

    pub fn get(&self, label: WindowLabel) -> (r: Option<Visibility>)
        ensures
            r == self.slot(label),
    {
        match label {
            WindowLabel::Main => self.main,
            WindowLabel::Msgbox => self.msgbox,
            WindowLabel::Login => self.login,
            WindowLabel::Extend => self.extend,
        }
    }

    pub fn set(&mut self, label: WindowLabel, value: Option<Visibility>)
        ensures
            *final(self) == old(self).with_slot(label, value),
    {
        match label {
            WindowLabel::Main => {
                self.main = value;
            },
            WindowLabel::Msgbox => {
                self.msgbox = value;
            },
            WindowLabel::Login => {
                self.login = value;
            },
            WindowLabel::Extend => {
                self.extend = value;
            },
        }
    }

    /// Whether a window with this label is live.
    pub fn has_window(&self, label: WindowLabel) -> (r: bool)
        ensures
            r == self.is_live(label),
    {
        self.get(label).is_some()
    }

    /// Records what `action` does to the registry.
    pub fn apply(&mut self, action: Action)
        ensures
            *final(self) == old(self).applied(action),
    {
        match action {
            Action::Surface(l) => {
                if self.has_window(l) {
                    self.set(l, Some(Visibility::ShownFocused));
                }
            },
            Action::Focus(l) => {
                if self.has_window(l) {
                    self.set(l, Some(Visibility::ShownFocused));
                }
            },
            Action::Hide(l) => {
                if self.has_window(l) {
                    self.set(l, Some(Visibility::Hidden));
                }
            },
            Action::Create(l) => {
                if !self.has_window(l) {
                    let first = match l {
                        WindowLabel::Login => Visibility::ShownUnfocused,
                        _ => Visibility::Hidden,
                    };
                    self.set(l, Some(first));
                }
            },
            _ => {},
        }
    }

    /// Records what `actions` do to the registry, in order.
    pub fn apply_all(&mut self, actions: &Vec<Action>)
        ensures
            *final(self) == old(self).run(actions@),
    {
        let mut i: usize = 0;
        while i < actions.len()
            invariant
                i <= actions.len(),
                *self == old(self).run(actions@.subrange(0, i as int)),
            decreases actions.len() - i,
        {
            self.apply(actions[i]);
            i = i + 1;
            assert(actions@.subrange(0, i as int).drop_last() =~= actions@.subrange(0, i - 1));
        }
        assert(actions@.subrange(0, i as int) =~= actions@);
    }

    /// Records that the host destroyed the window of `label`.
    pub fn remove(&mut self, label: WindowLabel)
        ensures
            *final(self) == old(self).with_slot(label, None),
    {
        self.set(label, None);
    }
}

/// Running a list with one more action is running the list and then
/// applying that action; running no action changes nothing.
pub proof fn lemma_run_push(shell: Shell, actions: Seq<Action>, last: Action)
    ensures
        shell.run(actions.push(last)) == shell.run(actions).applied(last),
        shell.run(Seq::empty()) == shell,
{
    assert(actions.push(last).drop_last() =~= actions);
}

} // verus!
