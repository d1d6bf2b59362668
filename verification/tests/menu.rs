use xshuttle::{
    build_menu, configure_plan, dispatch_menu_id, is_terminal_editor, ConfigSource, ConfigurePlan,
    HostSource, MenuAction, MenuEntry, Settings,
};

fn sample_settings() -> Settings {
    Settings::load(
        ConfigSource::Contents(
            r#"{"terminal":"kitty","editor":"vim","actions":[{"name":"Deploy","cmd":"deploy.sh"}]}"#
                .to_string(),
        ),
        HostSource::Hosts(vec!["alpha".to_string()]),
    )
    .unwrap()
}

#[test]
fn test_build_menu_layout() {
    let settings = sample_settings();
    let plan = build_menu(&settings);

    assert_eq!(plan.entries.len(), 7);
    match &plan.entries[0] {
        MenuEntry::Item { id, label } => {
            assert_eq!(id, "action_0");
            assert_eq!(label, "Deploy");
        }
        _ => panic!("Expected the action item"),
    }
    assert!(matches!(plan.entries[1], MenuEntry::Separator));
    match &plan.entries[2] {
        MenuEntry::Item { id, label } => {
            assert_eq!(id, "host_0");
            assert_eq!(label, "alpha");
        }
        _ => panic!("Expected the host item"),
    }
    assert!(matches!(plan.entries[3], MenuEntry::Separator));
    match &plan.entries[4] {
        MenuEntry::Item { id, label } => {
            assert_eq!(id, "configure");
            assert_eq!(label, "Configure");
        }
        _ => panic!("Expected the configure item"),
    }
    match &plan.entries[5] {
        MenuEntry::Item { id, label } => {
            assert_eq!(id, "reload");
            assert_eq!(label, "Reload");
        }
        _ => panic!("Expected the reload item"),
    }
    match &plan.entries[6] {
        MenuEntry::Item { id, label } => {
            assert_eq!(id, "quit");
            assert_eq!(label, "Quit");
        }
        _ => panic!("Expected the quit item"),
    }

    assert_eq!(plan.commands.len(), 2);
    assert_eq!(plan.commands[0].0, "action_0");
    assert_eq!(plan.commands[0].1, "deploy.sh");
    assert_eq!(plan.commands[1].0, "host_0");
    assert_eq!(plan.commands[1].1, "ssh alpha");
}

#[test]
fn test_build_menu_empty_settings() {
    let settings = Settings::default();
    let plan = build_menu(&settings);
    // no dynamic items, no separators, only the three static items
    assert_eq!(plan.entries.len(), 3);
    assert!(plan.commands.is_empty());
}

#[test]
fn test_build_menu_submenu_for_group() {
    let settings = Settings::load(
        ConfigSource::Contents(
            r#"{"actions":[{"Prod":[{"name":"S1","cmd":"ssh s1"}]}]}"#.to_string(),
        ),
        HostSource::Missing,
    )
    .unwrap();
    let plan = build_menu(&settings);
    match &plan.entries[0] {
        MenuEntry::Submenu { name, children } => {
            assert_eq!(name, "Prod");
            assert_eq!(children.len(), 1);
            match &children[0] {
                MenuEntry::Item { id, label } => {
                    assert_eq!(id, "action_0");
                    assert_eq!(label, "S1");
                }
                _ => panic!("Expected the nested item"),
            }
        }
        _ => panic!("Expected a submenu"),
    }
}

#[test]
fn test_dispatch_static_items() {
    let commands: Vec<(String, String)> = Vec::new();
    assert!(matches!(dispatch_menu_id("quit", &commands), MenuAction::Quit));
    assert!(matches!(dispatch_menu_id("configure", &commands), MenuAction::Configure));
    assert!(matches!(dispatch_menu_id("reload", &commands), MenuAction::Reload));
}

#[test]
fn test_dispatch_runs_the_mapped_command() {
    let settings = sample_settings();
    let plan = build_menu(&settings);
    match dispatch_menu_id("action_0", &plan.commands) {
        MenuAction::Run(cmd) => assert_eq!(cmd, "deploy.sh"),
        _ => panic!("Expected a command"),
    }
    match dispatch_menu_id("host_0", &plan.commands) {
        MenuAction::Run(cmd) => assert_eq!(cmd, "ssh alpha"),
        _ => panic!("Expected a command"),
    }
}

#[test]
fn test_dispatch_unknown_id_is_ignored() {
    let settings = sample_settings();
    let plan = build_menu(&settings);
    assert!(matches!(dispatch_menu_id("action_99", &plan.commands), MenuAction::Ignored));
}

#[test]
fn test_is_terminal_editor() {
    assert!(is_terminal_editor("vim"));
    assert!(is_terminal_editor("nano"));
    assert!(is_terminal_editor("ed"));
    assert!(!is_terminal_editor("code"));
    assert!(!is_terminal_editor("default"));
}

#[test]
fn test_configure_plan_default_editor() {
    assert!(matches!(
        configure_plan("default", "/home/u/.xshuttle.json"),
        ConfigurePlan::OpenDefault
    ));
}

#[test]
fn test_configure_plan_terminal_editor() {
    match configure_plan("vim", "/home/u/.xshuttle.json") {
        ConfigurePlan::InTerminal(cmd) => assert_eq!(cmd, "vim /home/u/.xshuttle.json"),
        _ => panic!("Expected a terminal command"),
    }
}

#[test]
fn test_configure_plan_gui_editor() {
    match configure_plan("code", "/home/u/.xshuttle.json") {
        ConfigurePlan::OpenWith(editor) => assert_eq!(editor, "code"),
        _ => panic!("Expected an open-with plan"),
    }
}
