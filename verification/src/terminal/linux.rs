use vstd::prelude::*;

use crate::text::{lower_of, lowercase, str_eq};

verus! {

/// A Linux terminal emulator known to the launcher, or `Default` for
/// whatever the system offers.
#[derive(Debug, Clone, Copy, PartialEq, Eq, Structural)]
pub enum Terminal {
    Default,
    Gnome,
    Konsole,
    Xfce4,
    Alacritty,
    Kitty,
    Ghostty,
    Wezterm,
    Tilix,
    Terminator,
    XTerminalEmulator,
    Xterm,
}

/// The binary each terminal is started through; `Default` names none.
pub open spec fn spec_bin(t: Terminal) -> Option<Seq<char>> {
    match t {
        Terminal::Default => None,
        Terminal::Gnome => Some("gnome-terminal"@),
        Terminal::Konsole => Some("konsole"@),
        Terminal::Xfce4 => Some("xfce4-terminal"@),
        Terminal::Alacritty => Some("alacritty"@),
        Terminal::Kitty => Some("kitty"@),
        Terminal::Ghostty => Some("ghostty"@),
        Terminal::Wezterm => Some("wezterm"@),
        Terminal::Tilix => Some("tilix"@),
        Terminal::Terminator => Some("terminator"@),
        Terminal::XTerminalEmulator => Some("x-terminal-emulator"@),
        Terminal::Xterm => Some("xterm"@),
    }
}

/// The argument list that runs `cmd` in the terminal and leaves a shell
/// open afterwards.
pub open spec fn spec_launch_args(t: Terminal, cmd: Seq<char>) -> Seq<Seq<char>> {
    match t {
        Terminal::Default => Seq::empty(),
        Terminal::Gnome => seq!["--"@, "sh"@, "-c"@, cmd + "; exec bash"@],
        Terminal::Konsole => seq!["-e"@, "sh"@, "-c"@, cmd + "; exec bash"@],
        Terminal::Xfce4 => seq!["-e"@, "sh -c '"@ + cmd + "; exec bash'"@],
        Terminal::Alacritty => seq!["-e"@, "sh"@, "-c"@, cmd + "; exec bash"@],
        Terminal::Kitty => seq!["sh"@, "-c"@, cmd + "; exec bash"@],
        Terminal::Ghostty => seq!["-e"@, "sh"@, "-c"@, cmd + "; exec bash"@],
        Terminal::Wezterm => seq!["start"@, "--"@, "sh"@, "-c"@, cmd + "; exec bash"@],
        Terminal::Tilix => seq!["-e"@, "sh -c '"@ + cmd + "; exec bash'"@],
        Terminal::Terminator => seq!["-e"@, "sh -c '"@ + cmd + "; exec bash'"@],
        Terminal::XTerminalEmulator => seq!["-e"@, "sh"@, "-c"@, cmd + "; exec bash"@],
        Terminal::Xterm => seq!["-e"@, "sh"@, "-c"@, cmd + "; exec bash"@],
    }
}

/// Which terminal a preference string names; anything unknown is `Default`.
pub open spec fn spec_terminal_of(s: Seq<char>) -> Terminal {
    if s == "gnome-terminal"@ {
        Terminal::Gnome
    } else if s == "konsole"@ {
        Terminal::Konsole
    } else if s == "xfce4-terminal"@ {
        Terminal::Xfce4
    } else if s == "alacritty"@ {
        Terminal::Alacritty
    } else if s == "kitty"@ {
        Terminal::Kitty
    } else if s == "ghostty"@ {
        Terminal::Ghostty
    } else if s == "wezterm"@ {
        Terminal::Wezterm
    } else if s == "tilix"@ {
        Terminal::Tilix
    } else if s == "terminator"@ {
        Terminal::Terminator
    } else if s == "x-terminal-emulator"@ {
        Terminal::XTerminalEmulator
    } else if s == "xterm"@ {
        Terminal::Xterm
    } else {
        Terminal::Default
    }
}

impl Terminal {
    /// The binary this terminal is started through; `Default` names none.
    pub fn bin(&self) -> (r: Option<&'static str>)
        ensures
            match r {
                Some(s) => spec_bin(*self) == Some(s@),
                None => spec_bin(*self) is None,
            },
    {
        match self {
            Terminal::Default => None,
            Terminal::Gnome => Some("gnome-terminal"),
            Terminal::Konsole => Some("konsole"),
            Terminal::Xfce4 => Some("xfce4-terminal"),
            Terminal::Alacritty => Some("alacritty"),
            Terminal::Kitty => Some("kitty"),
            Terminal::Ghostty => Some("ghostty"),
            Terminal::Wezterm => Some("wezterm"),
            Terminal::Tilix => Some("tilix"),
            Terminal::Terminator => Some("terminator"),
            Terminal::XTerminalEmulator => Some("x-terminal-emulator"),
            Terminal::Xterm => Some("xterm"),
        }
    }

    /// The arguments that run `command` in this terminal and leave a shell
    /// open afterwards.
    pub fn launch_args(&self, command: &str) -> (r: Vec<String>)
        ensures
            r.deep_view() == spec_launch_args(*self, command@),
    {
        let tail = String::from_str(command).concat("; exec bash");
        match self {
            Terminal::Default => {
                let r: Vec<String> = Vec::new();
                proof {
                    assert(r.deep_view() =~= spec_launch_args(*self, command@));
                }
                r
            },
            Terminal::Gnome => {
                let mut r: Vec<String> = Vec::new();
                r.push(String::from_str("--"));
                r.push(String::from_str("sh"));
                r.push(String::from_str("-c"));
                r.push(tail);
                proof {
                    assert(r.deep_view() =~= spec_launch_args(*self, command@));
                }
                r
            },
            Terminal::Kitty => {
                let mut r: Vec<String> = Vec::new();
                r.push(String::from_str("sh"));
                r.push(String::from_str("-c"));
                r.push(tail);
                proof {
                    assert(r.deep_view() =~= spec_launch_args(*self, command@));
                }
                r
            },
            Terminal::Wezterm => {
                let mut r: Vec<String> = Vec::new();
                r.push(String::from_str("start"));
                r.push(String::from_str("--"));
                r.push(String::from_str("sh"));
                r.push(String::from_str("-c"));
                r.push(tail);
                proof {
                    assert(r.deep_view() =~= spec_launch_args(*self, command@));
                }
                r
            },
            Terminal::Xfce4 | Terminal::Tilix | Terminal::Terminator => {
                let mut single = String::from_str("sh -c '");
                single.append(command);
                single.append("; exec bash'");
                let mut r: Vec<String> = Vec::new();
                r.push(String::from_str("-e"));
                r.push(single);
                proof {
                    assert(r.deep_view() =~= spec_launch_args(*self, command@));
                }
                r
            },
            Terminal::Konsole | Terminal::Alacritty | Terminal::Ghostty
                | Terminal::XTerminalEmulator | Terminal::Xterm => {
                let mut r: Vec<String> = Vec::new();
                r.push(String::from_str("-e"));
                r.push(String::from_str("sh"));
                r.push(String::from_str("-c"));
                r.push(tail);
                proof {
                    assert(r.deep_view() =~= spec_launch_args(*self, command@));
                }
                r
            },
        }
    }

    /// Every terminal the launcher knows, in preference order.
    pub fn all() -> (r: Vec<Terminal>)
        ensures
            r@ == seq![
                Terminal::Gnome,
                Terminal::Konsole,
                Terminal::Xfce4,
                Terminal::Alacritty,
                Terminal::Kitty,
                Terminal::Ghostty,
                Terminal::Wezterm,
                Terminal::Tilix,
                Terminal::Terminator,
                Terminal::XTerminalEmulator,
                Terminal::Xterm,
            ],
    {
        let r = vec![
            Terminal::Gnome,
            Terminal::Konsole,
            Terminal::Xfce4,
            Terminal::Alacritty,
            Terminal::Kitty,
            Terminal::Ghostty,
            Terminal::Wezterm,
            Terminal::Tilix,
            Terminal::Terminator,
            Terminal::XTerminalEmulator,
            Terminal::Xterm,
        ];
        proof {
            assert(r@ =~= seq![
                Terminal::Gnome,
                Terminal::Konsole,
                Terminal::Xfce4,
                Terminal::Alacritty,
                Terminal::Kitty,
                Terminal::Ghostty,
                Terminal::Wezterm,
                Terminal::Tilix,
                Terminal::Terminator,
                Terminal::XTerminalEmulator,
                Terminal::Xterm,
            ]);
        }
        r
    }

    /// Which terminal a preference string names, case folded; anything
    /// unknown is `Default`.
    pub fn from_name(s: &str) -> (r: Terminal)
        ensures
            r == spec_terminal_of(lower_of(s@)),
    {
        let low = lowercase(s);
        let l = low.as_str();
        if str_eq(l, "gnome-terminal") {
            Terminal::Gnome
        } else if str_eq(l, "konsole") {
            Terminal::Konsole
        } else if str_eq(l, "xfce4-terminal") {
            Terminal::Xfce4
        } else if str_eq(l, "alacritty") {
            Terminal::Alacritty
        } else if str_eq(l, "kitty") {
            Terminal::Kitty
        } else if str_eq(l, "ghostty") {
            Terminal::Ghostty
        } else if str_eq(l, "wezterm") {
            Terminal::Wezterm
        } else if str_eq(l, "tilix") {
            Terminal::Tilix
        } else if str_eq(l, "terminator") {
            Terminal::Terminator
        } else if str_eq(l, "x-terminal-emulator") {
            Terminal::XTerminalEmulator
        } else if str_eq(l, "xterm") {
            Terminal::Xterm
        } else {
            Terminal::Default
        }
    }
}

impl Default for Terminal {
    /// The default preference: no particular terminal.
    fn default() -> (r: Terminal)
        ensures
            r == Terminal::Default,
    {
        Terminal::Default
    }
}

impl vstd::std_specs::convert::FromSpecImpl<&str> for Terminal {
    open spec fn obeys_from_spec() -> bool {
        true
    }

    open spec fn from_spec(s: &str) -> Terminal {
        spec_terminal_of(lower_of(s@))
    }
}

impl From<&str> for Terminal {
    /// Which terminal a preference string names, case folded; anything
    /// unknown is `Default`.
    fn from(s: &str) -> (r: Terminal)
        ensures
            r == spec_terminal_of(lower_of(s@)),
    {
        Terminal::from_name(s)
    }
}

} // verus!
