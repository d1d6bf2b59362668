use xshuttle::terminal::{linux, macos};

#[test]
fn test_linux_terminal_from_name_case_folded() {
    assert_eq!(linux::Terminal::from_name("KITTY"), linux::Terminal::Kitty);
    assert_eq!(linux::Terminal::from_name("gnome-terminal"), linux::Terminal::Gnome);
    assert_eq!(linux::Terminal::from_name("something-else"), linux::Terminal::Default);
}

#[test]
fn test_linux_terminal_from_trait() {
    assert_eq!(linux::Terminal::from("Alacritty"), linux::Terminal::Alacritty);
    assert_eq!(linux::Terminal::default(), linux::Terminal::Default);
}

#[test]
fn test_linux_terminal_bin() {
    assert_eq!(linux::Terminal::Gnome.bin(), Some("gnome-terminal"));
    assert_eq!(linux::Terminal::Default.bin(), None);
    assert_eq!(linux::Terminal::XTerminalEmulator.bin(), Some("x-terminal-emulator"));
}

#[test]
fn test_linux_terminal_launch_args() {
    let args = linux::Terminal::Gnome.launch_args("echo hi");
    assert_eq!(args, vec!["--", "sh", "-c", "echo hi; exec bash"]);
    let args = linux::Terminal::Xfce4.launch_args("echo hi");
    assert_eq!(args, vec!["-e", "sh -c 'echo hi; exec bash'"]);
    let args = linux::Terminal::Kitty.launch_args("echo hi");
    assert_eq!(args, vec!["sh", "-c", "echo hi; exec bash"]);
    assert!(linux::Terminal::Default.launch_args("echo hi").is_empty());
}

#[test]
fn test_linux_terminal_all() {
    let all = linux::Terminal::all();
    assert_eq!(all.len(), 11);
    assert_eq!(all[0], linux::Terminal::Gnome);
    assert_eq!(all[10], linux::Terminal::Xterm);
}

#[test]
fn test_macos_terminal_from_name() {
    assert_eq!(macos::Terminal::from_name("iTerm"), macos::Terminal::ITerm);
    assert_eq!(macos::Terminal::from_name("Terminal.app"), macos::Terminal::Terminal);
    assert_eq!(macos::Terminal::from_name("unknown"), macos::Terminal::Auto);
}

#[test]
fn test_macos_terminal_app() {
    assert_eq!(macos::Terminal::ITerm.app(), Some("iTerm"));
    assert_eq!(macos::Terminal::Auto.app(), None);
    assert_eq!(macos::Terminal::Wezterm.app(), Some("WezTerm"));
}

#[test]
fn test_macos_terminal_custom_launch() {
    let args = macos::Terminal::Wezterm.custom_launch().unwrap();
    assert_eq!(args, vec!["open", "-na", "wezterm", "--args", "start", "--"]);
    assert!(macos::Terminal::ITerm.custom_launch().is_none());
}

#[test]
fn test_macos_terminal_all() {
    let all = macos::Terminal::all();
    assert_eq!(all.len(), 6);
    assert_eq!(all[0], macos::Terminal::ITerm);
}

#[test]
fn test_macos_script_content() {
    assert_eq!(
        macos::Terminal::script_content("ssh prod"),
        "#!/bin/zsh -il\nssh prod\nexec $SHELL"
    );
}
