use vstd::prelude::*;
use vstd::string::*;
use crate::geometry::{Position, Size};
use crate::label::WindowLabel;
use crate::platform::Platform;
use crate::action::Action;
use crate::label::lemma_label_names_distinct;
use crate::shell::{Shell, Visibility, initial_visibility};

verus! {

/// Everything the host needs to build one window.
#[derive(Debug)]
pub struct WindowDescriptor {
    pub label: WindowLabel,
    /// The content locator, relative to the application.
    pub url: String,
    pub title: String,
    pub resizable: bool,
    pub centered: bool,
    pub decorations: bool,
    pub shadow: bool,
    pub always_on_top: bool,
    pub skip_taskbar: bool,
    pub min_size: Option<Size>,
    pub max_size: Option<Size>,
    pub inner_size: Size,
    /// Where the window is placed, unless it is centered.
    pub position: Option<Position>,
    pub visible: bool,
    /// Whether the window background is transparent.
    pub transparent: bool,
    /// Whether the title bar is translucent.
    pub translucent_title_bar: bool,
    /// Whether the fixed background tint is applied after building.
    pub tinted: bool,
    /// Whether the window's events are handed to the close handler.
    pub intercepts_events: bool,
}

/// A descriptor with its strings as sequences of characters.
pub struct DescriptorModel {
    pub label: WindowLabel,
    pub url: Seq<char>,
    pub title: Seq<char>,
    pub resizable: bool,
    pub centered: bool,
    pub decorations: bool,
    pub shadow: bool,
    pub always_on_top: bool,
    pub skip_taskbar: bool,
    pub min_size: Option<Size>,
    pub max_size: Option<Size>,
    pub inner_size: Size,
    pub position: Option<Position>,
    pub visible: bool,
    pub transparent: bool,
    pub translucent_title_bar: bool,
    pub tinted: bool,
    pub intercepts_events: bool,
}

impl View for WindowDescriptor {
    type V = DescriptorModel;

    open spec fn view(&self) -> DescriptorModel {
        DescriptorModel {
            label: self.label,
            url: self.url@,
            title: self.title@,
            resizable: self.resizable,
            centered: self.centered,
            decorations: self.decorations,
            shadow: self.shadow,
            always_on_top: self.always_on_top,
            skip_taskbar: self.skip_taskbar,
            min_size: self.min_size,
            max_size: self.max_size,
            inner_size: self.inner_size,
            position: self.position,
            visible: self.visible,
            transparent: self.transparent,
            translucent_title_bar: self.translucent_title_bar,
            tinted: self.tinted,
            intercepts_events: self.intercepts_events,
        }
    }
}

/// The smallest size of a resizable window.
pub open spec fn min_bounds() -> Size {
    Size { width: 375, height: 780 }
}

/// The largest size of a resizable window.
pub open spec fn max_bounds() -> Size {
    Size { width: 1920, height: 1080 }
}

/// The main window: resizable between 375x780 and 1920x1080, 1280x860 at
/// first, centered, bare, built hidden.
pub open spec fn main_profile(platform: Platform) -> DescriptorModel {
    DescriptorModel {
        label: WindowLabel::Main,
        url: "/"@,
        title: "极物聊天"@,
        resizable: true,
        centered: true,
        decorations: false,
        shadow: false,
        always_on_top: false,
        skip_taskbar: false,
        min_size: Some(min_bounds()),
        max_size: Some(max_bounds()),
        inner_size: Size { width: 1280, height: 860 },
        position: None,
        visible: false,
        transparent: platform.transparent_windows(),
        translucent_title_bar: platform.styled_title_bar(),
        tinted: platform.styled_title_bar(),
        intercepts_events: true,
    }
}

/// The notification window: fixed at 240x300, always on top, kept out of
/// the taskbar, bare, built hidden and off screen.
pub open spec fn msgbox_profile(platform: Platform) -> DescriptorModel {
    DescriptorModel {
        label: WindowLabel::Msgbox,
        url: "/msg"@,
        title: "消息通知"@,
        resizable: false,
        centered: false,
        decorations: false,
        shadow: false,
        always_on_top: true,
        skip_taskbar: true,
        min_size: None,
        max_size: None,
        inner_size: Size { width: 240, height: 300 },
        position: Some(Position { x: -240i32, y: -300i32 }),
        visible: false,
        transparent: platform.transparent_windows(),
        translucent_title_bar: platform.styled_title_bar(),
        tinted: false,
        intercepts_events: true,
    }
}

/// The login window: fixed at 360x480, centered, bare, built visible.
pub open spec fn login_profile(platform: Platform) -> DescriptorModel {
    DescriptorModel {
        label: WindowLabel::Login,
        url: "/login"@,
        title: "极物聊天 - 登录"@,
        resizable: false,
        centered: true,
        decorations: false,
        shadow: false,
        always_on_top: false,
        skip_taskbar: false,
        min_size: None,
        max_size: None,
        inner_size: Size { width: 360, height: 480 },
        position: None,
        visible: true,
        transparent: platform.transparent_windows(),
        translucent_title_bar: platform.styled_title_bar(),
        tinted: platform.styled_title_bar(),
        intercepts_events: true,
    }
}

/// An extension window with the caller's title and content: resizable
/// between 375x780 and 1920x1080, 1024x960 at first, centered, bare, built
/// hidden.
pub open spec fn extend_profile(platform: Platform, title: Seq<char>, url: Seq<char>) -> DescriptorModel {
    DescriptorModel {
        label: WindowLabel::Extend,
        url: url,
        title: title,
        resizable: true,
        centered: true,
        decorations: false,
        shadow: false,
        always_on_top: false,
        skip_taskbar: false,
        min_size: Some(min_bounds()),
        max_size: Some(max_bounds()),
        inner_size: Size { width: 1024, height: 960 },
        position: None,
        visible: false,
        transparent: platform.transparent_windows(),
        translucent_title_bar: platform.styled_title_bar(),
        tinted: platform.styled_title_bar(),
        intercepts_events: true,
    }
}

/// The profile a label selects.
pub open spec fn profile(
    platform: Platform,
    label: WindowLabel,
    url: Seq<char>,
    title: Seq<char>,
) -> DescriptorModel {
    match label {
        WindowLabel::Main => main_profile(platform),
        WindowLabel::Msgbox => msgbox_profile(platform),
        WindowLabel::Login => login_profile(platform),
        WindowLabel::Extend => extend_profile(platform, title, url),
    }
}

/// The descriptor of the main window.
pub fn create_main_window(platform: Platform) -> (r: WindowDescriptor)
    ensures
        r@ == main_profile(platform),
{
    let mac = platform.is_mac();
    WindowDescriptor {
        label: WindowLabel::Main,
        url: String::from_str("/"),
        title: String::from_str("极物聊天"),
        resizable: true,
        centered: true,
        decorations: false,
        shadow: false,
        always_on_top: false,
        skip_taskbar: false,
        min_size: Some(Size { width: 375, height: 780 }),
        max_size: Some(Size { width: 1920, height: 1080 }),
        inner_size: Size { width: 1280, height: 860 },
        position: None,
        visible: false,
        transparent: !mac,
        translucent_title_bar: mac,
        tinted: mac,
        intercepts_events: true,
    }
}

/// The descriptor of the notification window.
pub fn create_msgbox_window(platform: Platform) -> (r: WindowDescriptor)
    ensures
        r@ == msgbox_profile(platform),
{
    let mac = platform.is_mac();
    WindowDescriptor {
        label: WindowLabel::Msgbox,
        url: String::from_str("/msg"),
        title: String::from_str("消息通知"),
        resizable: false,
        centered: false,
        decorations: false,
        shadow: false,
        always_on_top: true,
        skip_taskbar: true,
        min_size: None,
        max_size: None,
        inner_size: Size { width: 240, height: 300 },
        position: Some(Position { x: -240, y: -300 }),
        visible: false,
        transparent: !mac,
        translucent_title_bar: mac,
        tinted: false,
        intercepts_events: true,
    }
}

/// The descriptor of the login window.
pub fn create_login_window(platform: Platform) -> (r: WindowDescriptor)
    ensures
        r@ == login_profile(platform),
{
    let mac = platform.is_mac();
    WindowDescriptor {
        label: WindowLabel::Login,
        url: String::from_str("/login"),
        title: String::from_str("极物聊天 - 登录"),
        resizable: false,
        centered: true,
        decorations: false,
        shadow: false,
        always_on_top: false,
        skip_taskbar: false,
        min_size: None,
        max_size: None,
        inner_size: Size { width: 360, height: 480 },
        position: None,
        visible: true,
        transparent: !mac,
        translucent_title_bar: mac,
        tinted: mac,
        intercepts_events: true,
    }
}

/// The descriptor of an extension window with the caller's title and content.
pub fn create_extend_window(platform: Platform, title: String, url: String) -> (r: WindowDescriptor)
    ensures
        r@ == extend_profile(platform, title@, url@),
{
    let mac = platform.is_mac();
    WindowDescriptor {
        label: WindowLabel::Extend,
        url,
        title,
        resizable: true,
        centered: true,
        decorations: false,
        shadow: false,
        always_on_top: false,
        skip_taskbar: false,
        min_size: Some(Size { width: 375, height: 780 }),
        max_size: Some(Size { width: 1920, height: 1080 }),
        inner_size: Size { width: 1024, height: 960 },
        position: None,
        visible: false,
        transparent: !mac,
        translucent_title_bar: mac,
        tinted: mac,
        intercepts_events: true,
    }
}

/// Selects the profile for a label string. A label outside main, msgbox,
/// login and extend selects nothing, and that is no error: the caller then
/// builds no window and reports success.
pub fn create_window(platform: Platform, label: &str, url: String, title: String) -> (r: Option<
    WindowDescriptor,
>)
    ensures
        r.is_some() == WindowLabel::known(label@),
        r matches Some(d) ==> d.label.name() == label@ && d@ == profile(
            platform,
            d.label,
            url@,
            title@,
        ),
{
    match WindowLabel::parse(label) {
        Some(WindowLabel::Main) => Some(create_main_window(platform)),
        Some(WindowLabel::Msgbox) => Some(create_msgbox_window(platform)),
        Some(WindowLabel::Login) => Some(create_login_window(platform)),
        Some(WindowLabel::Extend) => Some(create_extend_window(platform, title, url)),
        None => None,
    }
}

/// The registry after a creation command for `label` was carried out: a
/// known label whose window is not live yet gains its window, and any other
/// label changes nothing.
pub open spec fn after_create_window(shell: Shell, label: Seq<char>) -> Shell {
    if label == "main"@ {
        shell.applied(Action::Create(WindowLabel::Main))
    } else if label == "msgbox"@ {
        shell.applied(Action::Create(WindowLabel::Msgbox))
    } else if label == "login"@ {
        shell.applied(Action::Create(WindowLabel::Login))
    } else if label == "extend"@ {
        shell.applied(Action::Create(WindowLabel::Extend))
    } else {
        shell
    }
}

impl Shell {
    /// Records a creation command for `label`; the result says whether a
    /// profile was selected.
    pub fn record_create_window(&mut self, label: &str) -> (r: bool)
        ensures
            r == WindowLabel::known(label@),
            *final(self) == after_create_window(*old(self), label@),
    {
        match WindowLabel::parse(label) {
            Some(l) => {
                proof {
                    lemma_label_names_distinct();
                }
                self.apply(Action::Create(l));
                true
            },
            None => false,
        }
    }
}

/// A creation command with a label outside main, msgbox, login and extend
/// selects no profile and leaves the registry as it was.
pub proof fn lemma_unknown_label_creates_nothing(shell: Shell, label: Seq<char>)
    requires
        !WindowLabel::known(label),
    ensures
        after_create_window(shell, label) == shell,
{
}

/// A creation command never leaves two windows under one label: a live
/// window keeps its slot, and every other slot is untouched.
pub proof fn lemma_create_keeps_live_windows(shell: Shell, label: Seq<char>, other: WindowLabel)
    requires
        shell.is_live(other),
    ensures
        after_create_window(shell, label).slot(other) == shell.slot(other),
{
}

/// A window starts in the registry with the visibility of its profile.
pub proof fn lemma_initial_visibility_matches_profile(
    platform: Platform,
    label: WindowLabel,
    url: Seq<char>,
    title: Seq<char>,
)
    ensures
        profile(platform, label, url, title).label == label,
        profile(platform, label, url, title).visible == (initial_visibility(label)
            != Visibility::Hidden),
{
}

} // verus!
