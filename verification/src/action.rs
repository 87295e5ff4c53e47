use vstd::prelude::*;
use crate::label::WindowLabel;

verus! {

/// A fire-and-forget event for the content of the windows.
#[derive(Clone, Copy, Debug, PartialEq, Eq, Structural)]
pub enum Signal {
    /// Navigation hint carrying the settings route.
    Router,
    /// Request to open the project's home page.
    OpenUrl,
    TrayClick,
    TrayMouseEnter,
    TrayMouseLeave,
}

impl Signal {
    /// The event name on the wire.
    pub open spec fn name(self) -> Seq<char> {
        match self {
            Signal::Router => "router"@,
            Signal::OpenUrl => "open_url"@,
            Signal::TrayClick => "tray_click"@,
            Signal::TrayMouseEnter => "tray_mouseenter"@,
            Signal::TrayMouseLeave => "tray_mouseleave"@,
        }
    }

    /// The message the event carries, where it carries one.
    pub open spec fn payload(self) -> Option<Seq<char>> {
        match self {
            Signal::Router => Some("/setting"@),
            Signal::OpenUrl => Some("https://jiwuchat.kiwi233.top"@),
            _ => None,
        }
    }

    /// Whether the host attaches the pointer position to the event.
    pub open spec fn has_position(self) -> bool {
        self == Signal::TrayMouseEnter || self == Signal::TrayMouseLeave
    }

    pub fn event_name(self) -> (r: &'static str)
        ensures
            r@ == self.name(),
    {
        match self {
            Signal::Router => "router",
            Signal::OpenUrl => "open_url",
            Signal::TrayClick => "tray_click",
            Signal::TrayMouseEnter => "tray_mouseenter",
            Signal::TrayMouseLeave => "tray_mouseleave",
        }
    }

    pub fn message(self) -> (r: Option<&'static str>)
        ensures
            r.is_some() == self.payload().is_some(),
            r matches Some(m) ==> m@ == self.payload().unwrap(),
    {
        match self {
            Signal::Router => Some("/setting"),
            Signal::OpenUrl => Some("https://jiwuchat.kiwi233.top"),
            _ => None,
        }
    }

    pub fn carries_position(self) -> (r: bool)
        ensures
            r == self.has_position(),
    {
        match self {
            Signal::TrayMouseEnter => true,
            Signal::TrayMouseLeave => true,
            _ => false,
        }
    }
}

/// One thing a handler asks the host to do.
#[derive(Clone, Copy, Debug, PartialEq, Eq, Structural)]
pub enum Action {
    /// Suppress the close request being handled.
    PreventClose,
    /// Unminimize, show and focus the window.
    Surface(WindowLabel),
    /// Give the window the focus, showing it.
    Focus(WindowLabel),
    Hide(WindowLabel),
    /// Build the window from its profile.
    Create(WindowLabel),
    Broadcast(Signal),
    /// Write the window state to the persistent store.
    PersistState,
    Exit,
    Restart,
    /// Block for this many time units, then report that the grace delay is over.
    Pause(u64),
}

/// How often `wanted` occurs among `actions`.
pub open spec fn occurrences(actions: Seq<Action>, wanted: Action) -> nat
    decreases actions.len(),
{
    if actions.len() == 0 {
        0
    } else {
        occurrences(actions.drop_last(), wanted) + if actions.last() == wanted {
            1nat
        } else {
            0nat
        }
    }
}

/// Appending an action adds one occurrence where it is the wanted action,
/// and none otherwise.
pub proof fn lemma_occurrences_push(actions: Seq<Action>, last: Action, wanted: Action)
    ensures
        occurrences(actions.push(last), wanted) == occurrences(actions, wanted) + if last
            == wanted {
            1nat
        } else {
            0nat
        },
        occurrences(Seq::empty(), wanted) == 0,
{
    assert(actions.push(last).drop_last() =~= actions);
}

} // verus!
