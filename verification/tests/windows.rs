use desktop_shell::action::Action;
use desktop_shell::close::{on_window_event, WindowEvent};
use desktop_shell::geometry::{Position, Size};
use desktop_shell::label::WindowLabel;
use desktop_shell::platform::Platform;
use desktop_shell::shell::{Shell, Visibility};
use desktop_shell::window::{
    create_extend_window, create_login_window, create_main_window, create_msgbox_window,
    create_window,
};

#[test]
fn labels_parse_and_print() {
    assert_eq!(WindowLabel::parse("main"), Some(WindowLabel::Main));
    assert_eq!(WindowLabel::parse("msgbox"), Some(WindowLabel::Msgbox));
    assert_eq!(WindowLabel::parse("login"), Some(WindowLabel::Login));
    assert_eq!(WindowLabel::parse("extend"), Some(WindowLabel::Extend));
    assert_eq!(WindowLabel::parse("Main"), None);
    assert_eq!(WindowLabel::parse(""), None);
    assert_eq!(WindowLabel::Msgbox.as_str(), "msgbox");
    assert_eq!(WindowLabel::Extend.as_str(), "extend");
    assert_eq!(WindowLabel::Main.as_str(), "main");
    assert_eq!(WindowLabel::Login.as_str(), "login");
}

#[test]
fn main_profile_values() {
    let d = create_main_window(Platform::Windows);
    assert_eq!(d.label, WindowLabel::Main);
    assert_eq!(d.url, "/");
    assert_eq!(d.title, "极物聊天");
    assert!(d.resizable && d.centered && !d.decorations && !d.shadow);
    assert_eq!(d.min_size, Some(Size { width: 375, height: 780 }));
    assert_eq!(d.max_size, Some(Size { width: 1920, height: 1080 }));
    assert_eq!(d.inner_size, Size { width: 1280, height: 860 });
    assert!(!d.visible);
    assert!(d.transparent && !d.translucent_title_bar && !d.tinted);
    assert!(d.intercepts_events);
    let m = create_main_window(Platform::MacOs);
    assert!(!m.transparent && m.translucent_title_bar && m.tinted);
}

#[test]
fn msgbox_profile_values() {
    let d = create_msgbox_window(Platform::Linux);
    assert_eq!(d.label, WindowLabel::Msgbox);
    assert_eq!(d.url, "/msg");
    assert_eq!(d.title, "消息通知");
    assert!(!d.resizable && d.always_on_top && d.skip_taskbar && !d.decorations);
    assert_eq!(d.inner_size, Size { width: 240, height: 300 });
    assert_eq!(d.position, Some(Position { x: -240, y: -300 }));
    assert!(!d.visible && d.transparent && !d.tinted);
    assert!(!create_msgbox_window(Platform::MacOs).tinted);
}

#[test]
fn login_profile_values() {
    let d = create_login_window(Platform::MacOs);
    assert_eq!(d.label, WindowLabel::Login);
    assert_eq!(d.url, "/login");
    assert_eq!(d.title, "极物聊天 - 登录");
    assert!(!d.resizable && d.centered && !d.decorations);
    assert_eq!(d.inner_size, Size { width: 360, height: 480 });
    assert!(d.visible);
    assert!(!d.transparent && d.translucent_title_bar && d.tinted);
}

#[test]
fn extend_profile_takes_title_and_content() {
    let d = create_extend_window(Platform::Windows, String::from("Help"), String::from("/help"));
    assert_eq!(d.label, WindowLabel::Extend);
    assert_eq!(d.title, "Help");
    assert_eq!(d.url, "/help");
    assert_eq!(d.inner_size, Size { width: 1024, height: 960 });
    assert_eq!(d.min_size, Some(Size { width: 375, height: 780 }));
    assert_eq!(d.max_size, Some(Size { width: 1920, height: 1080 }));
    assert!(d.resizable && d.centered && !d.visible && d.intercepts_events);
}

#[test]
fn create_window_dispatches_on_label() {
    let p = Platform::Linux;
    let d = create_window(p, "main", String::from("/x"), String::from("t")).unwrap();
    assert_eq!(d.label, WindowLabel::Main);
    assert_eq!(d.url, "/");
    let d = create_window(p, "msgbox", String::from("/x"), String::from("t")).unwrap();
    assert_eq!(d.label, WindowLabel::Msgbox);
    let d = create_window(p, "login", String::from("/x"), String::from("t")).unwrap();
    assert_eq!(d.label, WindowLabel::Login);
    let d = create_window(p, "extend", String::from("/x"), String::from("t")).unwrap();
    assert_eq!(d.label, WindowLabel::Extend);
    assert_eq!(d.url, "/x");
    assert_eq!(d.title, "t");
}

#[test]
fn create_window_with_unknown_label_builds_nothing() {
    assert!(create_window(Platform::Linux, "settings", String::from("/"), String::from("t")).is_none());
    let mut shell = Shell::new();
    assert!(!shell.record_create_window("settings"));
    assert_eq!(shell, Shell::new());
}

#[test]
fn create_window_keeps_one_window_per_label() {
    let mut shell = Shell::new();
    assert!(shell.record_create_window("login"));
    assert_eq!(shell.login, Some(Visibility::ShownUnfocused));
    assert!(shell.record_create_window("main"));
    assert_eq!(shell.main, Some(Visibility::Hidden));
    shell.apply(Action::Surface(WindowLabel::Main));
    assert!(shell.record_create_window("main"));
    assert_eq!(shell.main, Some(Visibility::ShownFocused));
}

#[test]
fn close_request_is_suppressed() {
    assert_eq!(
        on_window_event(WindowLabel::Main, Platform::Windows, WindowEvent::CloseRequested),
        vec![Action::PreventClose, Action::Hide(WindowLabel::Main)]
    );
    assert_eq!(
        on_window_event(WindowLabel::Main, Platform::Linux, WindowEvent::CloseRequested),
        vec![Action::PreventClose, Action::Hide(WindowLabel::Main)]
    );
    assert_eq!(
        on_window_event(WindowLabel::Main, Platform::MacOs, WindowEvent::CloseRequested),
        vec![Action::PreventClose]
    );
    assert_eq!(
        on_window_event(WindowLabel::Msgbox, Platform::Linux, WindowEvent::CloseRequested),
        vec![Action::PreventClose]
    );
    assert_eq!(
        on_window_event(WindowLabel::Login, Platform::Linux, WindowEvent::CloseRequested),
        vec![Action::PreventClose]
    );
    assert_eq!(
        on_window_event(WindowLabel::Extend, Platform::Linux, WindowEvent::CloseRequested),
        vec![Action::PreventClose]
    );
}

#[test]
fn close_request_keeps_window_in_registry() {
    for label in [
        WindowLabel::Main,
        WindowLabel::Msgbox,
        WindowLabel::Login,
        WindowLabel::Extend,
    ] {
        for platform in [Platform::Windows, Platform::Linux, Platform::MacOs] {
            let mut shell = Shell::new();
            shell.set(label, Some(Visibility::ShownFocused));
            shell.deliver(label, platform, WindowEvent::CloseRequested);
            assert!(shell.has_window(label));
        }
    }
    let mut shell = Shell::new();
    shell.set(WindowLabel::Main, Some(Visibility::ShownFocused));
    shell.deliver(WindowLabel::Main, Platform::Windows, WindowEvent::CloseRequested);
    assert_eq!(shell.get(WindowLabel::Main), Some(Visibility::Hidden));
    let mut shell = Shell::new();
    shell.set(WindowLabel::Main, Some(Visibility::ShownFocused));
    shell.deliver(WindowLabel::Main, Platform::MacOs, WindowEvent::CloseRequested);
    assert_eq!(shell.get(WindowLabel::Main), Some(Visibility::ShownFocused));
}

#[test]
fn close_request_on_extend_is_suppressed() {
    let mut shell = Shell::new();
    shell.set(WindowLabel::Extend, Some(Visibility::ShownFocused));
    shell.set(WindowLabel::Main, Some(Visibility::Hidden));
    let actions = shell.deliver(WindowLabel::Extend, Platform::Linux, WindowEvent::CloseRequested);
    assert_eq!(actions, vec![Action::PreventClose]);
    assert_eq!(shell.get(WindowLabel::Extend), Some(Visibility::ShownFocused));
    assert_eq!(shell.get(WindowLabel::Main), Some(Visibility::Hidden));
    assert!(on_window_event(WindowLabel::Extend, Platform::Linux, WindowEvent::Focused(false))
        .is_empty());
}

#[test]
fn destroyed_main_persists_once() {
    let actions = on_window_event(WindowLabel::Main, Platform::Linux, WindowEvent::Destroyed);
    assert_eq!(actions, vec![Action::PersistState]);
    for label in [WindowLabel::Msgbox, WindowLabel::Login, WindowLabel::Extend] {
        assert!(on_window_event(label, Platform::Linux, WindowEvent::Destroyed).is_empty());
    }
    let mut shell = Shell::new();
    shell.set(WindowLabel::Main, Some(Visibility::Hidden));
    let actions = shell.deliver(WindowLabel::Main, Platform::Linux, WindowEvent::Destroyed);
    assert_eq!(actions.iter().filter(|a| **a == Action::PersistState).count(), 1);
    assert!(!shell.has_window(WindowLabel::Main));
}

#[test]
fn msgbox_hides_on_focus_loss() {
    assert_eq!(
        on_window_event(WindowLabel::Msgbox, Platform::Linux, WindowEvent::Focused(false)),
        vec![Action::Hide(WindowLabel::Msgbox)]
    );
    assert!(on_window_event(WindowLabel::Msgbox, Platform::Linux, WindowEvent::Focused(true))
        .is_empty());
    assert!(on_window_event(WindowLabel::Main, Platform::Linux, WindowEvent::Focused(false))
        .is_empty());
    assert!(on_window_event(WindowLabel::Main, Platform::Linux, WindowEvent::Other).is_empty());
    let mut shell = Shell::new();
    shell.set(WindowLabel::Msgbox, Some(Visibility::ShownFocused));
    shell.deliver(WindowLabel::Msgbox, Platform::Linux, WindowEvent::Focused(false));
    assert_eq!(shell.msgbox, Some(Visibility::Hidden));
    let mut shell = Shell::new();
    shell.set(WindowLabel::Main, Some(Visibility::ShownFocused));
    shell.deliver(WindowLabel::Main, Platform::Linux, WindowEvent::Focused(false));
    assert_eq!(shell.main, Some(Visibility::ShownUnfocused));
    shell.deliver(WindowLabel::Main, Platform::Linux, WindowEvent::Focused(true));
    assert_eq!(shell.main, Some(Visibility::ShownFocused));
}

#[test]
fn actions_on_missing_windows_change_nothing() {
    let mut shell = Shell::new();
    shell.apply_all(&vec![
        Action::Surface(WindowLabel::Main),
        Action::Focus(WindowLabel::Msgbox),
        Action::Hide(WindowLabel::Login),
        Action::PersistState,
        Action::Pause(200),
    ]);
    assert_eq!(shell, Shell::new());
    shell.apply_all(&vec![Action::Create(WindowLabel::Msgbox), Action::Focus(WindowLabel::Msgbox)]);
    assert_eq!(shell.msgbox, Some(Visibility::ShownFocused));
    shell.remove(WindowLabel::Msgbox);
    assert_eq!(shell, Shell::new());
}

#[test]
fn visibility_from_host_flags() {
    assert_eq!(Visibility::from_flags(false, false), Visibility::Hidden);
    assert_eq!(Visibility::from_flags(true, false), Visibility::ShownUnfocused);
    assert_eq!(Visibility::from_flags(true, true), Visibility::ShownFocused);
    assert_eq!(Visibility::from_flags(false, true), Visibility::ShownFocused);
}
