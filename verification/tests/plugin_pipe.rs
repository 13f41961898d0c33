use yazelix_zellij_pane_orchestrator::horizontal_focus_contract::HorizontalDirection;
use yazelix_zellij_pane_orchestrator::layout_state_contract::LayoutFamilyDirection;
use yazelix_zellij_pane_orchestrator::plugin_pipe::{
    command_name, ensure_action_ready, pipe_command_for, PipeCommand, RESULT_DENIED,
    RESULT_NOT_READY,
};

const NAMES: [&str; 27] = [
    "focus_editor",
    "focus_sidebar",
    "toggle_editor_sidebar_focus",
    "toggle_editor_right_sidebar_focus",
    "move_focus_left_or_tab",
    "move_focus_right_or_tab",
    "smart_reveal",
    "open_file",
    "set_managed_editor_cwd",
    "next_family",
    "previous_family",
    "toggle_sidebar",
    "toggle_agent_sidebar",
    "hide_sidebar",
    "register_sidebar_yazi_state",
    "register_ai_pane_activity",
    "reconcile_terminal_title_activity_snapshot",
    "get_active_tab_session_state",
    "get_all_tab_activity_state",
    "retarget_workspace",
    "toggle_workspace_popup",
    "open_terminal_in_cwd",
    "open_workspace_terminal",
    "reload_runtime_config",
    "maintainer_debug_editor_state",
    "debug_write_literal",
    "debug_send_escape",
];

#[test]
fn every_pipe_name_reads_back_to_itself() {
    let mut seen = Vec::new();
    for name in NAMES {
        let command = pipe_command_for(name).unwrap();
        assert_eq!(command_name(command), name);
        assert!(!seen.contains(&command));
        seen.push(command);
    }
}

#[test]
fn directional_commands_carry_their_direction() {
    assert_eq!(
        pipe_command_for("move_focus_left_or_tab"),
        Some(PipeCommand::MoveFocusOrTab(HorizontalDirection::Left))
    );
    assert_eq!(
        pipe_command_for("previous_family"),
        Some(PipeCommand::SwitchLayoutFamily(LayoutFamilyDirection::Previous))
    );
}

#[test]
fn unknown_or_padded_names_are_ignored() {
    assert_eq!(pipe_command_for(""), None);
    assert_eq!(pipe_command_for(" focus_editor"), None);
    assert_eq!(pipe_command_for("open_workspace_zoxide_picker"), None);
    assert_eq!(
        pipe_command_for("toggle_workspace_popup"),
        Some(PipeCommand::ToggleWorkspacePopup)
    );
}

#[test]
fn actions_wait_for_permissions_then_for_an_active_tab() {
    assert_eq!(ensure_action_ready(false, Some(3)), Err(RESULT_DENIED));
    assert_eq!(ensure_action_ready(false, None), Err(RESULT_DENIED));
    assert_eq!(ensure_action_ready(true, None), Err(RESULT_NOT_READY));
    assert_eq!(ensure_action_ready(true, Some(3)), Ok(3));
    assert_eq!(RESULT_DENIED, "permissions_denied");
    assert_eq!(RESULT_NOT_READY, "not_ready");
}
