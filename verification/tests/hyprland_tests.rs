use leafshell::hyprland::{
    keyboards_are_well_formed, switch_workspace_command, HyprlandError, HyprlandState, Keyboard, Workspace,
};

fn kb(main: Option<bool>, keymap: Option<&str>) -> Keyboard {
    Keyboard { main, active_keymap: keymap.map(|s| s.to_string()) }
}

fn command_words(inv: &leafshell::command::Invocation) -> Vec<&str> {
    inv.args.iter().map(|s| s.as_str()).collect()
}

#[test]
fn layout_of_first_main_keyboard() {
    let kbs = vec![
        kb(Some(false), Some("German")),
        kb(Some(true), Some("English (US)")),
        kb(Some(true), Some("French")),
    ];
    assert!(keyboards_are_well_formed(Some(&kbs)));
    assert_eq!(HyprlandState::keyboard_layout(Some(&kbs)), "English (US)");
}

#[test]
fn layout_unknown_without_main_keyboard() {
    let kbs = vec![kb(Some(false), Some("German"))];
    assert_eq!(HyprlandState::keyboard_layout(Some(&kbs)), "Unknown");
    assert_eq!(HyprlandState::keyboard_layout(Some(&vec![])), "Unknown");
    assert_eq!(HyprlandState::keyboard_layout(None), "Unknown");
}

#[test]
fn layout_unknown_when_main_keyboard_has_no_keymap() {
    let kbs = vec![kb(Some(true), None), kb(Some(true), Some("French"))];
    assert_eq!(HyprlandState::keyboard_layout(Some(&kbs)), "Unknown");
}

#[test]
fn non_boolean_main_flag_is_refused_only_before_the_match() {
    assert!(!keyboards_are_well_formed(Some(&vec![kb(None, Some("x")), kb(Some(true), Some("y"))])));
    let kbs = vec![kb(Some(true), Some("y")), kb(None, Some("x"))];
    assert!(keyboards_are_well_formed(Some(&kbs)));
    assert_eq!(HyprlandState::keyboard_layout(Some(&kbs)), "y");
    assert!(keyboards_are_well_formed(None));
}

#[test]
fn state_from_reports() {
    let ws = vec![
        Workspace { id: 1, name: "1".to_string() },
        Workspace { id: 3, name: "web".to_string() },
    ];
    let active = Workspace { id: 3, name: "web".to_string() };
    let kbs = vec![kb(Some(true), Some("Dvorak"))];
    let s = HyprlandState::from_reports(ws, &active, Some(&kbs));
    assert_eq!(s.workspaces.len(), 2);
    assert_eq!(s.workspaces[1].name, "web");
    assert_eq!(s.current_workspace, 3);
    assert_eq!(s.keyboard_layout, "Dvorak");
}

#[test]
fn hyprctl_commands() {
    let c = HyprlandState::cycle_layout_command();
    assert_eq!(c.program, "hyprctl");
    assert_eq!(command_words(&c), vec!["switchxkblayout", "all", "next"]);
    let s = switch_workspace_command(7);
    assert_eq!(s.program, "hyprctl");
    assert_eq!(command_words(&s), vec!["dispatch", "workspace", "7"]);
    assert_eq!(command_words(&switch_workspace_command(0))[2], "0");
    assert_eq!(command_words(&switch_workspace_command(10))[2], "10");
    assert_eq!(command_words(&switch_workspace_command(255))[2], "255");
}

fn two_workspaces() -> (Vec<Workspace>, Workspace) {
    (
        vec![Workspace { id: 1, name: "1".to_string() }, Workspace { id: 2, name: "2".to_string() }],
        Workspace { id: 2, name: "2".to_string() },
    )
}

#[test]
fn state_from_hyprctl_output() {
    let (ws, active) = two_workspaces();
    let json = r#"{"mice":[],"keyboards":[
        {"name":"virtual","main":false,"active_keymap":"German"},
        {"name":"at-keyboard","main":true,"active_keymap":"English (US)"}]}"#;
    let s = HyprlandState::from_hyprctl(ws, &active, json).unwrap();
    assert_eq!(s.keyboard_layout, "English (US)");
    assert_eq!(s.current_workspace, 2);
    assert_eq!(s.workspaces.len(), 2);
}

#[test]
fn hyprctl_output_without_keyboards_gives_unknown_layout() {
    let (ws, active) = two_workspaces();
    let s = HyprlandState::from_hyprctl(ws, &active, r#"{"keyboards":"none"}"#).unwrap();
    assert_eq!(s.keyboard_layout, "Unknown");
    let (ws, active) = two_workspaces();
    let s = HyprlandState::from_hyprctl(ws, &active, "[1, 2]").unwrap();
    assert_eq!(s.keyboard_layout, "Unknown");
    let (ws, active) = two_workspaces();
    let json = r#"{"keyboards":[{"main":true,"active_keymap":7}]}"#;
    assert_eq!(HyprlandState::from_hyprctl(ws, &active, json).unwrap().keyboard_layout, "Unknown");
}

#[test]
fn hyprctl_output_that_is_not_json_is_an_error() {
    let (ws, active) = two_workspaces();
    assert_eq!(
        HyprlandState::from_hyprctl(ws, &active, "{keyboards").err(),
        Some(HyprlandError::InvalidDevicesJson)
    );
    let (ws, active) = two_workspaces();
    assert!(matches!(
        HyprlandState::checked_from_hyprctl(ws, &active, ""),
        Some(Err(HyprlandError::InvalidDevicesJson))
    ));
}

#[test]
fn hyprctl_main_flag_must_be_a_boolean() {
    let (ws, active) = two_workspaces();
    let json = r#"{"keyboards":[{"main":"true","active_keymap":"x"},{"main":true,"active_keymap":"y"}]}"#;
    assert!(HyprlandState::checked_from_hyprctl(ws, &active, json).is_none());
    let (ws, active) = two_workspaces();
    let json = r#"{"keyboards":[{"main":true,"active_keymap":"y"},{"active_keymap":"x"}]}"#;
    let s = HyprlandState::checked_from_hyprctl(ws, &active, json).unwrap().unwrap();
    assert_eq!(s.keyboard_layout, "y");
}
