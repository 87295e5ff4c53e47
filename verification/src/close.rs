use vstd::prelude::*;
use crate::action::{Action, occurrences, lemma_occurrences_push};
use crate::label::WindowLabel;
use crate::platform::Platform;
use crate::shell::{Shell, Visibility, lemma_run_push};

verus! {

/// What the host reports about one window.
#[derive(Clone, Copy, Debug, PartialEq, Eq, Structural)]
pub enum WindowEvent {
    CloseRequested,
    Destroyed,
    /// The window gained (`true`) or lost (`false`) the focus.
    Focused(bool),
    Other,
}

/// What the shell does on an event of a window.
///
/// A close request is suppressed on every window, and the handler of the
/// main window hides it as well on the platforms where it is to do so. The
/// destruction of the main window persists the window state once. The
/// notification window hides when it loses the focus.
pub open spec fn window_event_actions(
    label: WindowLabel,
    platform: Platform,
    event: WindowEvent,
) -> Seq<Action> {
    match (label, event) {
        (WindowLabel::Main, WindowEvent::CloseRequested) => if platform.hides_main_on_close() {
            seq![Action::PreventClose].push(Action::Hide(WindowLabel::Main))
        } else {
            seq![Action::PreventClose]
        },
        (WindowLabel::Main, WindowEvent::Destroyed) => seq![Action::PersistState],
        (WindowLabel::Msgbox, WindowEvent::CloseRequested) => seq![Action::PreventClose],
        (WindowLabel::Msgbox, WindowEvent::Focused(false)) => seq![
            Action::Hide(WindowLabel::Msgbox),
        ],
        (WindowLabel::Login, WindowEvent::CloseRequested) => seq![Action::PreventClose],
        (WindowLabel::Extend, WindowEvent::CloseRequested) => seq![Action::PreventClose],
        _ => seq![],
    }
}

/// The handler attached to every window at construction.
pub fn on_window_event(label: WindowLabel, platform: Platform, event: WindowEvent) -> (r: Vec<
    Action,
>)
    ensures
        r@ == window_event_actions(label, platform, event),
{
    let mut actions: Vec<Action> = Vec::new();
    match label {
        WindowLabel::Main => match event {
            WindowEvent::CloseRequested => {
                actions.push(Action::PreventClose);
                if !platform.is_mac() {
                    actions.push(Action::Hide(WindowLabel::Main));
                }
            },
            WindowEvent::Destroyed => {
                actions.push(Action::PersistState);
            },
            _ => {},
        },
        WindowLabel::Msgbox => match event {
            WindowEvent::CloseRequested => {
                actions.push(Action::PreventClose);
            },
            WindowEvent::Focused(focused) => {
                if !focused {
                    actions.push(Action::Hide(WindowLabel::Msgbox));
                }
            },
            _ => {},
        },
        WindowLabel::Login => match event {
            WindowEvent::CloseRequested => {
                actions.push(Action::PreventClose);
            },
            _ => {},
        },
        WindowLabel::Extend => match event {
            WindowEvent::CloseRequested => {
                actions.push(Action::PreventClose);
            },
            _ => {},
        },
    }
    assert(actions@ =~= window_event_actions(label, platform, event));
    actions
}

/// What the event itself does to the registry, before any handler runs: a
/// focus change moves a shown window between focused and unfocused, and a
/// destroyed window leaves the registry.
pub open spec fn host_effect(shell: Shell, label: WindowLabel, event: WindowEvent) -> Shell {
    match event {
        WindowEvent::Destroyed => shell.with_slot(label, None),
        WindowEvent::Focused(true) => if shell.is_live(label) {
            shell.with_slot(label, Some(Visibility::ShownFocused))
        } else {
            shell
        },
        WindowEvent::Focused(false) => if shell.slot(label) == Some(Visibility::ShownFocused) {
            shell.with_slot(label, Some(Visibility::ShownUnfocused))
        } else {
            shell
        },
        _ => shell,
    }
}

/// The registry after an event of the window of `label` was handled: the
/// event's own effect, then the handler's actions, and for a close request
/// that no action suppressed, the loss of the window.
pub open spec fn after_window_event(
    shell: Shell,
    label: WindowLabel,
    platform: Platform,
    event: WindowEvent,
) -> Shell {
    let actions = window_event_actions(label, platform, event);
    let handled = host_effect(shell, label, event).run(actions);
    if event == WindowEvent::CloseRequested && !actions.contains(Action::PreventClose) {
        handled.with_slot(label, None)
    } else {
        handled
    }
}

impl Shell {
    /// Records an event of the window of `label` and what its handler did.
    pub fn deliver(&mut self, label: WindowLabel, platform: Platform, event: WindowEvent) -> (r:
        Vec<Action>)
        ensures
            r@ == window_event_actions(label, platform, event),
            *final(self) == after_window_event(*old(self), label, platform, event),
    {
        match event {
            WindowEvent::Destroyed => {
                self.remove(label);
            },
            WindowEvent::Focused(focused) => {
                match self.get(label) {
                    Some(state) => {
                        if focused {
                            self.set(label, Some(Visibility::ShownFocused));
                        } else if state == Visibility::ShownFocused {
                            self.set(label, Some(Visibility::ShownUnfocused));
                        }
                    },
                    None => {},
                }
            },
            _ => {},
        }
        let actions = on_window_event(label, platform, event);
        self.apply_all(&actions);
        if event == WindowEvent::CloseRequested {
            let mut suppressed = false;
            let mut i: usize = 0;
            while i < actions.len()
                invariant
                    i <= actions.len(),
                    suppressed == actions@.subrange(0, i as int).contains(Action::PreventClose),
                decreases actions.len() - i,
            {
                if actions[i] == Action::PreventClose {
                    suppressed = true;
                }
                proof {
                    let before = actions@.subrange(0, i as int);
                    let after = actions@.subrange(0, i + 1);
                    assert(after =~= before.push(actions@[i as int]));
                    assert(after.last() == actions@[i as int]);
                    if before.contains(Action::PreventClose) {
                        let k = choose|k: int| 0 <= k < before.len() && before[k] == Action::PreventClose;
                        assert(after[k] == Action::PreventClose);
                    }
                    if after.contains(Action::PreventClose) && actions@[i as int] != Action::PreventClose {
                        let k = choose|k: int| 0 <= k < after.len() && after[k] == Action::PreventClose;
                        assert(before[k] == Action::PreventClose);
                    }
                }
                i = i + 1;
            }
            assert(actions@.subrange(0, i as int) =~= actions@);
            if !suppressed {
                self.remove(label);
            }
        }
        actions
    }
}

/// A close request never takes the window out of the registry, whichever
/// window it is, and leaves every other window as it was.
pub proof fn lemma_close_request_keeps_window(shell: Shell, label: WindowLabel, platform: Platform)
    requires
        shell.is_live(label),
    ensures
        after_window_event(shell, label, platform, WindowEvent::CloseRequested).is_live(label),
        forall|other: WindowLabel|
            other != label ==> after_window_event(
                shell,
                label,
                platform,
                WindowEvent::CloseRequested,
            ).slot(other) == shell.slot(other),
{
    let actions = window_event_actions(label, platform, WindowEvent::CloseRequested);
    assert(actions[0] == Action::PreventClose);
    lemma_run_push(shell, Seq::empty(), Action::PreventClose);
    lemma_run_push(shell, seq![Action::PreventClose], Action::Hide(WindowLabel::Main));
}

/// A close request hides the main window on the platforms where its handler
/// is to hide it; elsewhere the handler leaves the window's visibility to
/// the host.
pub proof fn lemma_close_request_hides_main(shell: Shell, platform: Platform)
    requires
        shell.is_live(WindowLabel::Main),
        platform.hides_main_on_close(),
    ensures
        after_window_event(shell, WindowLabel::Main, platform, WindowEvent::CloseRequested).main
            == Some(Visibility::Hidden),
{
    let actions = window_event_actions(WindowLabel::Main, platform, WindowEvent::CloseRequested);
    assert(actions[0] == Action::PreventClose);
    lemma_run_push(shell, Seq::empty(), Action::PreventClose);
    lemma_run_push(shell, seq![Action::PreventClose], Action::Hide(WindowLabel::Main));
}

/// The destruction of the main window persists the window state exactly
/// once, and no other window event of any window persists it at all.
pub proof fn lemma_destroyed_main_persists_once(
    label: WindowLabel,
    platform: Platform,
    event: WindowEvent,
)
    ensures
        occurrences(window_event_actions(label, platform, event), Action::PersistState) == (if label
            == WindowLabel::Main && event == WindowEvent::Destroyed {
            1nat
        } else {
            0nat
        }),
{
    let wanted = Action::PersistState;
    lemma_occurrences_push(Seq::empty(), Action::PersistState, wanted);
    lemma_occurrences_push(Seq::empty(), Action::PreventClose, wanted);
    lemma_occurrences_push(Seq::empty(), Action::Hide(WindowLabel::Msgbox), wanted);
    lemma_occurrences_push(seq![Action::PreventClose], Action::Hide(WindowLabel::Main), wanted);
}

/// The notification window is hidden once it has lost the focus, whatever
/// it showed before.
pub proof fn lemma_focus_loss_hides_msgbox(shell: Shell, platform: Platform)
    requires
        shell.is_live(WindowLabel::Msgbox),
    ensures
        after_window_event(shell, WindowLabel::Msgbox, platform, WindowEvent::Focused(false)).msgbox
            == Some(Visibility::Hidden),
{
    let first = host_effect(shell, WindowLabel::Msgbox, WindowEvent::Focused(false));
    lemma_run_push(first, Seq::empty(), Action::Hide(WindowLabel::Msgbox));
}

} // verus!
