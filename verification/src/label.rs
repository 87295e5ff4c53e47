use vstd::prelude::*;
use vstd::string::*;

verus! {

/// The closed set of windows the shell knows.
#[derive(Clone, Copy, Debug, PartialEq, Eq, Structural)]
pub enum WindowLabel {
    Main,
    Msgbox,
    Login,
    Extend,
}

/// The four labels are pairwise different strings.
pub proof fn lemma_label_names_distinct()
    ensures
        "main"@ != "msgbox"@,
        "main"@ != "login"@,
        "main"@ != "extend"@,
        "msgbox"@ != "login"@,
        "msgbox"@ != "extend"@,
        "login"@ != "extend"@,
{
    reveal_strlit("main");
    reveal_strlit("msgbox");
    reveal_strlit("login");
    reveal_strlit("extend");
    assert("main"@.len() == 4);
    assert("msgbox"@.len() == 6);
    assert("login"@.len() == 5);
    assert("extend"@.len() == 6);
    assert("msgbox"@[0] == 'm');
    assert("extend"@[0] == 'e');
}

impl WindowLabel {
    /// The string by which the host addresses the window.
    pub open spec fn name(self) -> Seq<char> {
        match self {
            WindowLabel::Main => "main"@,
            WindowLabel::Msgbox => "msgbox"@,
            WindowLabel::Login => "login"@,
            WindowLabel::Extend => "extend"@,
        }
    }

    /// Whether `s` names one of the four windows.
    pub open spec fn known(s: Seq<char>) -> bool {
        s == "main"@ || s == "msgbox"@ || s == "login"@ || s == "extend"@
    }

    pub fn as_str(self) -> (r: &'static str)
        ensures
            r@ == self.name(),
    {
        match self {
            WindowLabel::Main => "main",
            WindowLabel::Msgbox => "msgbox",
            WindowLabel::Login => "login",
            WindowLabel::Extend => "extend",
        }
    }

    /// Resolves a label string: `Some` exactly for the four known names.
    pub fn parse(s: &str) -> (r: Option<WindowLabel>)
        ensures
            r.is_some() == Self::known(s@),
            r matches Some(l) ==> l.name() == s@,
    {
        let owned = String::from_str(s);
        if owned == String::from_str("main") {
            Some(WindowLabel::Main)
        } else if owned == String::from_str("msgbox") {
            Some(WindowLabel::Msgbox)
        } else if owned == String::from_str("login") {
            Some(WindowLabel::Login)
        } else if owned == String::from_str("extend") {
            Some(WindowLabel::Extend)
        } else {
            None
        }
    }
}

/// Two labels with the same name are the same label.
pub proof fn lemma_name_determines_label(a: WindowLabel, b: WindowLabel)
    requires
        a.name() == b.name(),
    ensures
        a == b,
{
    lemma_label_names_distinct();
}

} // verus!
