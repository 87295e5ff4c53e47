use vstd::prelude::*;
use vstd::string::*;
use crate::action::{Action, Signal, occurrences, lemma_occurrences_push};
use crate::label::WindowLabel;
use crate::shell::{Shell, Visibility, lemma_run_push};

verus! {

/// How long the notification window stays after the pointer has left the
/// tray icon, in time units.
pub const GRACE_DELAY: u64 = 200;

/// The entries of the tray menu.
#[derive(Clone, Copy, Debug, PartialEq, Eq, Structural)]
pub enum MenuId {
    Restart,
    Setting,
    ToHost,
    Quit,
}

/// One entry of the tray menu as the host is to build it.
#[derive(Clone, Copy, Debug)]
pub struct TrayMenuItem {
    pub id: &'static str,
    pub label: &'static str,
}

/// The tray icon as the host is to build it.
#[derive(Debug)]
pub struct TrayConfig {
    pub icon_id: &'static str,
    pub title: &'static str,
    pub tooltip: &'static str,
    pub show_menu_on_left_click: bool,
    pub menu: Vec<TrayMenuItem>,
}

#[derive(Clone, Copy, Debug, PartialEq, Eq, Structural)]
pub enum MouseButton {
    Left,
    Right,
    Middle,
}

#[derive(Clone, Copy, Debug, PartialEq, Eq, Structural)]
pub enum ButtonState {
    Up,
    Down,
}

/// What the host reports about the tray icon.
#[derive(Clone, Copy, Debug, PartialEq, Eq, Structural)]
pub enum TrayEvent {
    Click { button: MouseButton, state: ButtonState },
    /// The pointer moved onto the icon.
    Enter,
    /// The pointer moved off the icon.
    Leave,
    /// The pause that followed a `Leave` is over.
    GraceElapsed,
    Other,
}

/// The menu from top to bottom.
pub open spec fn menu_order() -> Seq<MenuId> {
    seq![MenuId::Restart].push(MenuId::Setting).push(MenuId::ToHost).push(MenuId::Quit)
}

impl MenuId {
    pub open spec fn id(self) -> Seq<char> {
        match self {
            MenuId::Restart => "restart"@,
            MenuId::Setting => "setting"@,
            MenuId::ToHost => "to_host"@,
            MenuId::Quit => "quit"@,
        }
    }

    /// The text the menu shows for the entry.
    pub open spec fn title(self) -> Seq<char> {
        match self {
            MenuId::Restart => "重启"@,
            MenuId::Setting => "设置"@,
            MenuId::ToHost => "官网"@,
            MenuId::Quit => "退出"@,
        }
    }

    /// The entry an id string stands for, if any.
    pub open spec fn resolve(s: Seq<char>) -> Option<MenuId> {
        if s == "setting"@ {
            Some(MenuId::Setting)
        } else if s == "to_host"@ {
            Some(MenuId::ToHost)
        } else if s == "quit"@ {
            Some(MenuId::Quit)
        } else if s == "restart"@ {
            Some(MenuId::Restart)
        } else {
            None
        }
    }

    pub fn item(self) -> (r: TrayMenuItem)
        ensures
            r.id@ == self.id(),
            r.label@ == self.title(),
    {
        match self {
            MenuId::Restart => TrayMenuItem { id: "restart", label: "重启" },
            MenuId::Setting => TrayMenuItem { id: "setting", label: "设置" },
            MenuId::ToHost => TrayMenuItem { id: "to_host", label: "官网" },
            MenuId::Quit => TrayMenuItem { id: "quit", label: "退出" },
        }
    }

    pub fn parse(s: &str) -> (r: Option<MenuId>)
        ensures
            r == Self::resolve(s@),
    {
        let owned = String::from_str(s);
        if owned == String::from_str("setting") {
            Some(MenuId::Setting)
        } else if owned == String::from_str("to_host") {
            Some(MenuId::ToHost)
        } else if owned == String::from_str("quit") {
            Some(MenuId::Quit)
        } else if owned == String::from_str("restart") {
            Some(MenuId::Restart)
        } else {
            None
        }
    }
}

/// The four menu ids are pairwise different, so every entry resolves from
/// its own id.
pub proof fn lemma_menu_ids_resolve(id: MenuId)
    ensures
        MenuId::resolve(id.id()) == Some(id),
{
    reveal_strlit("restart");
    reveal_strlit("setting");
    reveal_strlit("to_host");
    reveal_strlit("quit");
    assert("restart"@.len() == 7 && "setting"@.len() == 7 && "to_host"@.len() == 7);
    assert("quit"@.len() == 4);
    assert("restart"@[0] == 'r' && "setting"@[0] == 's' && "to_host"@[0] == 't');
}

/// The tray icon with its menu of four entries: restart, setting, to_host,
/// quit. A left click does not open the menu.
pub fn setup_tray() -> (r: TrayConfig)
    ensures
        r.icon_id@ == "tray_icon"@,
        r.title@ == "极物聊天"@,
        r.tooltip@ == "极物聊天"@,
        !r.show_menu_on_left_click,
        r.menu@.len() == menu_order().len(),
        forall|i: int|
            0 <= i < r.menu@.len() ==> r.menu@[i].id@ == menu_order()[i].id() && r.menu@[i].label@
                == menu_order()[i].title(),
{
    let mut menu: Vec<TrayMenuItem> = Vec::new();
    menu.push(MenuId::Restart.item());
    menu.push(MenuId::Setting.item());
    menu.push(MenuId::ToHost.item());
    menu.push(MenuId::Quit.item());
    TrayConfig {
        icon_id: "tray_icon",
        title: "极物聊天",
        tooltip: "极物聊天",
        show_menu_on_left_click: false,
        menu,
    }
}

/// What a chosen menu entry leads to. The settings entry surfaces the main
/// window and sends it the settings route; the home page entry asks for the
/// page to be opened; both do nothing without a main window. Quit persists
/// the window state and then exits; restart restarts.
pub open spec fn menu_actions(id: Option<MenuId>, shell: Shell) -> Seq<Action> {
    match id {
        Some(MenuId::Setting) => if shell.is_live(WindowLabel::Main) {
            seq![Action::Surface(WindowLabel::Main)].push(Action::Broadcast(Signal::Router))
        } else {
            seq![]
        },
        Some(MenuId::ToHost) => if shell.is_live(WindowLabel::Main) {
            seq![Action::Broadcast(Signal::OpenUrl)]
        } else {
            seq![]
        },
        Some(MenuId::Quit) => seq![Action::PersistState].push(Action::Exit),
        Some(MenuId::Restart) => seq![Action::Restart],
        None => seq![],
    }
}

/// Which window to surface when the tray needs one: main, else login, else
/// a fresh main window.
pub open spec fn recovery_actions(shell: Shell) -> Seq<Action> {
    if shell.is_live(WindowLabel::Main) {
        seq![Action::Surface(WindowLabel::Main)]
    } else if shell.is_live(WindowLabel::Login) {
        seq![Action::Surface(WindowLabel::Login)]
    } else {
        seq![Action::Create(WindowLabel::Main)]
    }
}

/// What a tray event leads to.
///
/// A released left button surfaces the main window, or recovers one, and
/// then announces the click. Entering announces itself and focuses the
/// notification window. Leaving announces itself and pauses; once the pause
/// is over the notification window is hidden unless it holds the focus.
pub open spec fn tray_actions(event: TrayEvent, shell: Shell) -> Seq<Action> {
    match event {
        TrayEvent::Click { button: MouseButton::Left, state: ButtonState::Up } => recovery_actions(
            shell,
        ).push(Action::Broadcast(Signal::TrayClick)),
        TrayEvent::Enter => if shell.is_live(WindowLabel::Msgbox) {
            seq![Action::Broadcast(Signal::TrayMouseEnter)].push(Action::Focus(WindowLabel::Msgbox))
        } else {
            seq![Action::Broadcast(Signal::TrayMouseEnter)]
        },
        TrayEvent::Leave => seq![Action::Broadcast(Signal::TrayMouseLeave)].push(
            Action::Pause(GRACE_DELAY),
        ),
        TrayEvent::GraceElapsed => if shell.is_live(WindowLabel::Msgbox) && shell.msgbox != Some(
            Visibility::ShownFocused,
        ) {
            seq![Action::Hide(WindowLabel::Msgbox)]
        } else {
            seq![]
        },
        _ => seq![],
    }
}

/// Surfaces a window when the caller knows of none.
pub fn show_window(shell: &Shell) -> (r: Vec<Action>)
    ensures
        r@ == recovery_actions(*shell),
{
    let mut actions: Vec<Action> = Vec::new();
    if shell.has_window(WindowLabel::Main) {
        actions.push(Action::Surface(WindowLabel::Main));
    } else if shell.has_window(WindowLabel::Login) {
        actions.push(Action::Surface(WindowLabel::Login));
    } else {
        actions.push(Action::Create(WindowLabel::Main));
    }
    assert(actions@ =~= recovery_actions(*shell));
    actions
}

/// Handles a menu event by the id of its entry; an unknown id does nothing.
pub fn on_menu_event(id: &str, shell: &Shell) -> (r: Vec<Action>)
    ensures
        r@ == menu_actions(MenuId::resolve(id@), *shell),
{
    let mut actions: Vec<Action> = Vec::new();
    match MenuId::parse(id) {
        Some(MenuId::Setting) => {
            if shell.has_window(WindowLabel::Main) {
                actions.push(Action::Surface(WindowLabel::Main));
                actions.push(Action::Broadcast(Signal::Router));
            }
        },
        Some(MenuId::ToHost) => {
            if shell.has_window(WindowLabel::Main) {
                actions.push(Action::Broadcast(Signal::OpenUrl));
            }
        },
        Some(MenuId::Quit) => {
            actions.push(Action::PersistState);
            actions.push(Action::Exit);
        },
        Some(MenuId::Restart) => {
            actions.push(Action::Restart);
        },
        None => {},
    }
    assert(actions@ =~= menu_actions(MenuId::resolve(id@), *shell));
    actions
}

/// Handles a pointer event of the tray icon.
pub fn on_tray_icon_event(event: TrayEvent, shell: &Shell) -> (r: Vec<Action>)
    ensures
        r@ == tray_actions(event, *shell),
{
    let mut actions: Vec<Action> = Vec::new();
    match event {
        TrayEvent::Click { button: MouseButton::Left, state: ButtonState::Up } => {
            if shell.has_window(WindowLabel::Main) {
                actions.push(Action::Surface(WindowLabel::Main));
            } else {
                actions = show_window(shell);
            }
            actions.push(Action::Broadcast(Signal::TrayClick));
        },
        TrayEvent::Enter => {
            actions.push(Action::Broadcast(Signal::TrayMouseEnter));
            if shell.has_window(WindowLabel::Msgbox) {
                actions.push(Action::Focus(WindowLabel::Msgbox));
            }
        },
        TrayEvent::Leave => {
            actions.push(Action::Broadcast(Signal::TrayMouseLeave));
            actions.push(Action::Pause(GRACE_DELAY));
        },
        TrayEvent::GraceElapsed => {
            match shell.get(WindowLabel::Msgbox) {
                Some(Visibility::ShownFocused) => {},
                Some(_) => {
                    actions.push(Action::Hide(WindowLabel::Msgbox));
                },
                None => {},
            }
        },
        _ => {},
    }
    assert(actions@ =~= tray_actions(event, *shell));
    actions
}

/// The registry after a released left click on the tray icon.
pub open spec fn after_click(shell: Shell) -> Shell {
    shell.run(
        tray_actions(TrayEvent::Click { button: MouseButton::Left, state: ButtonState::Up }, shell),
    )
}

/// The registry after `n` released left clicks in a row.
pub open spec fn after_clicks(shell: Shell, n: nat) -> Shell
    decreases n,
{
    if n == 0 {
        shell
    } else {
        after_clicks(after_click(shell), (n - 1) as nat)
    }
}

/// How many times `n` released left clicks in a row ask for a main window
/// to be built.
pub open spec fn created_by_clicks(shell: Shell, n: nat) -> nat
    decreases n,
{
    if n == 0 {
        0
    } else {
        occurrences(
            tray_actions(
                TrayEvent::Click { button: MouseButton::Left, state: ButtonState::Up },
                shell,
            ),
            Action::Create(WindowLabel::Main),
        ) + created_by_clicks(after_click(shell), (n - 1) as nat)
    }
}

/// One released left click: it builds a main window exactly where neither a
/// main nor a login window is live, and a main window that is live
/// afterwards is focused unless it was just built.
pub proof fn lemma_click(shell: Shell)
    ensures
        occurrences(
            tray_actions(
                TrayEvent::Click { button: MouseButton::Left, state: ButtonState::Up },
                shell,
            ),
            Action::Create(WindowLabel::Main),
        ) == (if !shell.is_live(WindowLabel::Main) && !shell.is_live(WindowLabel::Login) {
            1nat
        } else {
            0nat
        }),
        after_click(shell).main == (if shell.is_live(WindowLabel::Main) {
            Some(Visibility::ShownFocused)
        } else if shell.is_live(WindowLabel::Login) {
            None
        } else {
            Some(Visibility::Hidden)
        }),
        after_click(shell).login == (if !shell.is_live(WindowLabel::Main) && shell.is_live(
            WindowLabel::Login,
        ) {
            Some(Visibility::ShownFocused)
        } else {
            shell.login
        }),
        after_click(shell).msgbox == shell.msgbox,
        after_click(shell).extend == shell.extend,
{
    let wanted = Action::Create(WindowLabel::Main);
    let click = Action::Broadcast(Signal::TrayClick);
    let first = recovery_actions(shell);
    lemma_occurrences_push(first, click, wanted);
    lemma_occurrences_push(Seq::empty(), first[0], wanted);
    lemma_run_push(shell, first, click);
    lemma_run_push(shell, Seq::empty(), first[0]);
    assert(first =~= Seq::empty().push(first[0]));
}

/// Released left clicks in a row never build more than one main window:
/// exactly one where the first click finds neither a main nor a login
/// window, and none otherwise.
pub proof fn lemma_repeated_clicks_build_one_main(shell: Shell, n: nat)
    ensures
        created_by_clicks(shell, n) == (if n >= 1 && !shell.is_live(WindowLabel::Main)
            && !shell.is_live(WindowLabel::Login) {
            1nat
        } else {
            0nat
        }),
        n >= 1 && !shell.is_live(WindowLabel::Login) ==> after_clicks(shell, n).is_live(
            WindowLabel::Main,
        ),
    decreases n,
{
    if n > 0 {
        lemma_click(shell);
        lemma_repeated_clicks_build_one_main(after_click(shell), (n - 1) as nat);
    }
}

/// Recovery with a live main window builds nothing and leaves the set of
/// live windows as it was.
pub proof fn lemma_recovery_idempotent(shell: Shell, label: WindowLabel)
    requires
        shell.is_live(WindowLabel::Main),
    ensures
        occurrences(recovery_actions(shell), Action::Create(WindowLabel::Main)) == 0,
        shell.run(recovery_actions(shell)).is_live(label) == shell.is_live(label),
{
    let first = recovery_actions(shell);
    lemma_occurrences_push(Seq::empty(), first[0], Action::Create(WindowLabel::Main));
    lemma_run_push(shell, Seq::empty(), first[0]);
}

/// Entering the tray icon leaves a live notification window shown and
/// focused, whatever it showed before, and touches no other window.
pub proof fn lemma_hover_enter_focuses(shell: Shell)
    ensures
        shell.run(tray_actions(TrayEvent::Enter, shell)) == (if shell.is_live(
            WindowLabel::Msgbox,
        ) {
            shell.with_slot(WindowLabel::Msgbox, Some(Visibility::ShownFocused))
        } else {
            shell
        }),
{
    let enter = Action::Broadcast(Signal::TrayMouseEnter);
    lemma_run_push(shell, Seq::empty(), enter);
    lemma_run_push(shell, seq![enter], Action::Focus(WindowLabel::Msgbox));
}

/// Leaving the tray icon changes no window before the grace delay is over;
/// after it, a live notification window is hidden exactly if it does not
/// hold the focus then, and no other window changes.
pub proof fn lemma_hover_leave_hides_unless_focused(shell: Shell)
    ensures
        shell.run(tray_actions(TrayEvent::Leave, shell)) == shell,
        occurrences(tray_actions(TrayEvent::Leave, shell), Action::Pause(GRACE_DELAY)) == 1,
        shell.run(tray_actions(TrayEvent::GraceElapsed, shell)) == (if shell.is_live(
            WindowLabel::Msgbox,
        ) && shell.msgbox != Some(Visibility::ShownFocused) {
            shell.with_slot(WindowLabel::Msgbox, Some(Visibility::Hidden))
        } else {
            shell
        }),
{
    let leave = Action::Broadcast(Signal::TrayMouseLeave);
    lemma_run_push(shell, Seq::empty(), leave);
    lemma_run_push(shell, seq![leave], Action::Pause(GRACE_DELAY));
    lemma_run_push(shell, Seq::empty(), Action::Hide(WindowLabel::Msgbox));
    lemma_occurrences_push(Seq::empty(), leave, Action::Pause(GRACE_DELAY));
    lemma_occurrences_push(seq![leave], Action::Pause(GRACE_DELAY), Action::Pause(GRACE_DELAY));
}

/// Quitting persists the window state exactly once, and before it exits.
pub proof fn lemma_quit_persists_first(shell: Shell)
    ensures
        menu_actions(Some(MenuId::Quit), shell).len() == 2,
        menu_actions(Some(MenuId::Quit), shell)[0] == Action::PersistState,
        menu_actions(Some(MenuId::Quit), shell)[1] == Action::Exit,
{
}

} // verus!
