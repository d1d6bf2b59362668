use vstd::prelude::*;

use crate::text::{lower_of, lowercase, str_eq};

verus! {

/// A macOS terminal application known to the launcher, or `Auto` for the
/// first one available.
#[derive(Debug, Clone, Copy, PartialEq, Eq, Structural)]
pub enum Terminal {
    Auto,
    ITerm,
    Terminal,
    Warp,
    Kitty,
    Ghostty,
    Wezterm,
}

/// The application each terminal is opened through; `Auto` names none.
pub open spec fn spec_app(t: Terminal) -> Option<Seq<char>> {
    match t {
        Terminal::Auto => None,
        Terminal::ITerm => Some("iTerm"@),
        Terminal::Terminal => Some("Terminal"@),
        Terminal::Warp => Some("Warp"@),
        Terminal::Kitty => Some("kitty"@),
        Terminal::Ghostty => Some("Ghostty"@),
        Terminal::Wezterm => Some("WezTerm"@),
    }
}

/// The launch command of the terminals that are not opened through the
/// system's `open -a`; only WezTerm has one.
pub open spec fn spec_custom_launch(t: Terminal) -> Option<Seq<Seq<char>>> {
    match t {
        Terminal::Wezterm => Some(
            seq!["open"@, "-na"@, "wezterm"@, "--args"@, "start"@, "--"@],
        ),
        _ => None,
    }
}

/// Which terminal a preference string names; anything unknown is `Auto`.
pub open spec fn spec_terminal_of(s: Seq<char>) -> Terminal {
    if s == "iterm"@ {
        Terminal::ITerm
    } else if s == "terminal"@ || s == "terminal.app"@ {
        Terminal::Terminal
    } else if s == "warp"@ {
        Terminal::Warp
    } else if s == "kitty"@ {
        Terminal::Kitty
    } else if s == "ghostty"@ {
        Terminal::Ghostty
    } else if s == "wezterm"@ {
        Terminal::Wezterm
    } else {
        Terminal::Auto
    }
}

impl Terminal {
    /// The application this terminal is opened through; `Auto` names none.
    pub fn app(&self) -> (r: Option<&'static str>)
        ensures
            match r {
                Some(s) => spec_app(*self) == Some(s@),
                None => spec_app(*self) is None,
            },
    {
        match self {
            Terminal::Auto => None,
            Terminal::ITerm => Some("iTerm"),
            Terminal::Terminal => Some("Terminal"),
            Terminal::Warp => Some("Warp"),
            Terminal::Kitty => Some("kitty"),
            Terminal::Ghostty => Some("Ghostty"),
            Terminal::Wezterm => Some("WezTerm"),
        }
    }

    /// The launch command of the terminals that are not opened through the
    /// system's `open -a`.
    pub fn custom_launch(&self) -> (r: Option<Vec<String>>)
        ensures
            match r {
                Some(args) => spec_custom_launch(*self) == Some(args.deep_view()),
                None => spec_custom_launch(*self) is None,
            },
    {
        match self {
            Terminal::Wezterm => {
                let mut args: Vec<String> = Vec::new();
                args.push(String::from_str("open"));
                args.push(String::from_str("-na"));
                args.push(String::from_str("wezterm"));
                args.push(String::from_str("--args"));
                args.push(String::from_str("start"));
                args.push(String::from_str("--"));
                proof {
                    assert(args.deep_view() =~= seq![
                        "open"@,
                        "-na"@,
                        "wezterm"@,
                        "--args"@,
                        "start"@,
                        "--"@,
                    ]);
                }
                Some(args)
            },
            _ => None,
        }
    }

    /// Every terminal the launcher knows, in preference order.
    pub fn all() -> (r: Vec<Terminal>)
        ensures
            r@ == seq![
                Terminal::ITerm,
                Terminal::Terminal,
                Terminal::Warp,
                Terminal::Kitty,
                Terminal::Ghostty,
                Terminal::Wezterm,
            ],
    {
        let r = vec![
            Terminal::ITerm,
            Terminal::Terminal,
            Terminal::Warp,
            Terminal::Kitty,
            Terminal::Ghostty,
            Terminal::Wezterm,
        ];
        proof {
            assert(r@ =~= seq![
                Terminal::ITerm,
                Terminal::Terminal,
                Terminal::Warp,
                Terminal::Kitty,
                Terminal::Ghostty,
                Terminal::Wezterm,
            ]);
        }
        r
    }

    /// Which terminal a preference string names, case folded; anything
    /// unknown is `Auto`.
    pub fn from_name(s: &str) -> (r: Terminal)
        ensures
            r == spec_terminal_of(lower_of(s@)),
    {
        let low = lowercase(s);
        let l = low.as_str();
        if str_eq(l, "iterm") {
            Terminal::ITerm
        } else if str_eq(l, "terminal") || str_eq(l, "terminal.app") {
            Terminal::Terminal
        } else if str_eq(l, "warp") {
            Terminal::Warp
        } else if str_eq(l, "kitty") {
            Terminal::Kitty
        } else if str_eq(l, "ghostty") {
            Terminal::Ghostty
        } else if str_eq(l, "wezterm") {
            Terminal::Wezterm
        } else {
            Terminal::Auto
        }
    }

    /// The text of the script that runs `command` in a fresh login shell
    /// and keeps the shell open.
    pub fn script_content(command: &str) -> (r: String)
        ensures
            r@ == "#!/bin/zsh -il\n"@ + command@ + "\nexec $SHELL"@,
    {
        let mut s = String::from_str("#!/bin/zsh -il\n");
        s.append(command);
        s.append("\nexec $SHELL");
        s
    }
}

impl Default for Terminal {
    /// The default preference: pick automatically.
    fn default() -> (r: Terminal)
        ensures
            r == Terminal::Auto,
    {
        Terminal::Auto
    }
}

impl vstd::std_specs::convert::FromSpecImpl<&str> for Terminal {
    open spec fn obeys_from_spec() -> bool {
        true
    }

    open spec fn from_spec(s: &str) -> Terminal {
        spec_terminal_of(lower_of(s@))
    }
}

impl From<&str> for Terminal {
    /// Which terminal a preference string names, case folded; anything
    /// unknown is `Auto`.
    fn from(s: &str) -> (r: Terminal)
        ensures
            r == spec_terminal_of(lower_of(s@)),
    {
        Terminal::from_name(s)
    }
}

} // verus!
