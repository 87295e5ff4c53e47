use vstd::prelude::*;

verus! {

/// The platform family the shell runs on.
#[derive(Clone, Copy, Debug, PartialEq, Eq, Structural)]
pub enum Platform {
    Windows,
    Linux,
    MacOs,
}

impl Platform {
    /// Whether windows are built with a transparent background here.
    pub open spec fn transparent_windows(self) -> bool {
        self == Platform::Windows || self == Platform::Linux
    }

    /// Whether windows get a translucent title bar and a background tint here.
    pub open spec fn styled_title_bar(self) -> bool {
        self == Platform::MacOs
    }

    /// Whether the close handler of the main window hides the window itself
    /// here, besides suppressing the close. Where it does not, the handler
    /// only suppresses the close and what the window shows is the host's
    /// affair.
    pub open spec fn hides_main_on_close(self) -> bool {
        self == Platform::Windows || self == Platform::Linux
    }

    pub fn is_mac(self) -> (r: bool)
        ensures
            r == self.styled_title_bar(),
            r == !self.transparent_windows(),
            r == !self.hides_main_on_close(),
    {
        match self {
            Platform::MacOs => true,
            _ => false,
        }
    }
}

} // verus!
