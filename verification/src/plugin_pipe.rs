use vstd::prelude::*;

use crate::horizontal_focus_contract::HorizontalDirection;
use crate::layout_state_contract::LayoutFamilyDirection;
use crate::text::str_equal;

verus! {

/// Answer to a command that did what it was asked.
pub const RESULT_OK: &'static str = "ok";
/// Answer when focus moved to the managed editor.
pub const RESULT_FOCUSED_EDITOR: &'static str = "focused_editor";
/// Answer when focus moved to the sidebar.
pub const RESULT_FOCUSED_SIDEBAR: &'static str = "focused_sidebar";
/// Answer when focus moved to the right-sidebar agent.
pub const RESULT_FOCUSED_AGENT: &'static str = "focused_agent";
/// Answer when the sidebar was opened.
pub const RESULT_OPENED_SIDEBAR: &'static str = "opened_sidebar";
/// Answer when the pane, tab or setting the command needs does not exist.
pub const RESULT_MISSING: &'static str = "missing";
/// Answer before the first tab update has named an active tab.
pub const RESULT_NOT_READY: &'static str = "not_ready";
/// Answer while the plugin lacks its permissions.
pub const RESULT_DENIED: &'static str = "permissions_denied";
/// Answer to a payload that is absent or malformed.
pub const RESULT_INVALID_PAYLOAD: &'static str = "invalid_payload";
/// Answer when the active swap layout is not one the plugin knows.
pub const RESULT_UNKNOWN_LAYOUT: &'static str = "unknown_layout";
/// Answer when the configured editor cannot change its directory.
pub const RESULT_UNSUPPORTED_EDITOR: &'static str = "unsupported_editor";
/// Answer to a request made for an older runtime configuration.
pub const RESULT_STALE_GENERATION: &'static str = "stale_generation";
/// Answer to a request from a client of another protocol version.
pub const RESULT_VERSION_MISMATCH: &'static str = "version_mismatch";

/// A command that a pipe message can name.
#[derive(Clone, Copy, Debug, PartialEq, Eq, Structural)]
pub enum PipeCommand {
    FocusEditor,
    FocusSidebar,
    ToggleEditorSidebarFocus,
    ToggleEditorRightSidebarFocus,
    MoveFocusOrTab(HorizontalDirection),
    SmartReveal,
    OpenFile,
    SetManagedEditorCwd,
    SwitchLayoutFamily(LayoutFamilyDirection),
    ToggleSidebar,
    ToggleAgentSidebar,
    HideSidebar,
    RegisterSidebarYaziState,
    RegisterAiPaneActivity,
    ReconcileTerminalTitleActivitySnapshot,
    GetActiveTabSessionState,
    GetAllTabActivityState,
    RetargetWorkspace,
    ToggleWorkspacePopup,
    OpenTerminalInCwd,
    OpenWorkspaceTerminal,
    ReloadRuntimeConfig,
    MaintainerDebugEditorState,
    DebugWriteLiteral,
    DebugSendEscape,
}

/// The pipe message name of each command.
pub open spec fn pipe_command_name(command: PipeCommand) -> Seq<char> {
    match command {
        PipeCommand::FocusEditor => "focus_editor"@,
        PipeCommand::FocusSidebar => "focus_sidebar"@,
        PipeCommand::ToggleEditorSidebarFocus => "toggle_editor_sidebar_focus"@,
        PipeCommand::ToggleEditorRightSidebarFocus => "toggle_editor_right_sidebar_focus"@,
        PipeCommand::MoveFocusOrTab(HorizontalDirection::Left) => "move_focus_left_or_tab"@,
        PipeCommand::MoveFocusOrTab(HorizontalDirection::Right) => "move_focus_right_or_tab"@,
        PipeCommand::SmartReveal => "smart_reveal"@,
        PipeCommand::OpenFile => "open_file"@,
        PipeCommand::SetManagedEditorCwd => "set_managed_editor_cwd"@,
        PipeCommand::SwitchLayoutFamily(LayoutFamilyDirection::Next) => "next_family"@,
        PipeCommand::SwitchLayoutFamily(LayoutFamilyDirection::Previous) => "previous_family"@,
        PipeCommand::ToggleSidebar => "toggle_sidebar"@,
        PipeCommand::ToggleAgentSidebar => "toggle_agent_sidebar"@,
        PipeCommand::HideSidebar => "hide_sidebar"@,
        PipeCommand::RegisterSidebarYaziState => "register_sidebar_yazi_state"@,
        PipeCommand::RegisterAiPaneActivity => "register_ai_pane_activity"@,
        PipeCommand::ReconcileTerminalTitleActivitySnapshot => "reconcile_terminal_title_activity_snapshot"@,
        PipeCommand::GetActiveTabSessionState => "get_active_tab_session_state"@,
        PipeCommand::GetAllTabActivityState => "get_all_tab_activity_state"@,
        PipeCommand::RetargetWorkspace => "retarget_workspace"@,
        PipeCommand::ToggleWorkspacePopup => "toggle_workspace_popup"@,
        PipeCommand::OpenTerminalInCwd => "open_terminal_in_cwd"@,
        PipeCommand::OpenWorkspaceTerminal => "open_workspace_terminal"@,
        PipeCommand::ReloadRuntimeConfig => "reload_runtime_config"@,
        PipeCommand::MaintainerDebugEditorState => "maintainer_debug_editor_state"@,
        PipeCommand::DebugWriteLiteral => "debug_write_literal"@,
        PipeCommand::DebugSendEscape => "debug_send_escape"@,
    }
}

/// The command a pipe message name stands for: the command whose name it
/// is; `None` for a name the plugin ignores.
pub open spec fn command_named(name: Seq<char>) -> Option<PipeCommand> {
    if exists|command: PipeCommand| #[trigger] pipe_command_name(command) == name {
        Some(choose|command: PipeCommand| #[trigger] pipe_command_name(command) == name)
    } else {
        None
    }
}

/// The command names, told apart by their length or a letter.
proof fn lemma_command_names_differ()
    ensures
        "focus_editor"@.len() == 12,
        "focus_sidebar"@.len() == 13,
        "toggle_editor_sidebar_focus"@.len() == 27,
        "toggle_editor_right_sidebar_focus"@.len() == 33,
        "move_focus_left_or_tab"@.len() == 22,
        "move_focus_right_or_tab"@.len() == 23,
        "smart_reveal"@.len() == 12,
        "open_file"@.len() == 9,
        "set_managed_editor_cwd"@.len() == 22,
        "next_family"@.len() == 11,
        "previous_family"@.len() == 15,
        "toggle_sidebar"@.len() == 14,
        "toggle_agent_sidebar"@.len() == 20,
        "hide_sidebar"@.len() == 12,
        "register_sidebar_yazi_state"@.len() == 27,
        "register_ai_pane_activity"@.len() == 25,
        "reconcile_terminal_title_activity_snapshot"@.len() == 42,
        "get_active_tab_session_state"@.len() == 28,
        "get_all_tab_activity_state"@.len() == 26,
        "retarget_workspace"@.len() == 18,
        "toggle_workspace_popup"@.len() == 22,
        "open_terminal_in_cwd"@.len() == 20,
        "open_workspace_terminal"@.len() == 23,
        "reload_runtime_config"@.len() == 21,
        "maintainer_debug_editor_state"@.len() == 29,
        "debug_write_literal"@.len() == 19,
        "debug_send_escape"@.len() == 17,
        "smart_reveal"@[0] != "focus_editor"@[0],
        "set_managed_editor_cwd"@[0] != "move_focus_left_or_tab"@[0],
        "hide_sidebar"@[0] != "focus_editor"@[0],
        "hide_sidebar"@[0] != "smart_reveal"@[0],
        "register_sidebar_yazi_state"@[0] != "toggle_editor_sidebar_focus"@[0],
        "toggle_workspace_popup"@[0] != "move_focus_left_or_tab"@[0],
        "toggle_workspace_popup"@[0] != "set_managed_editor_cwd"@[0],
        "open_terminal_in_cwd"@[0] != "toggle_agent_sidebar"@[0],
        "open_workspace_terminal"@[0] != "move_focus_right_or_tab"@[0],
{
    reveal_strlit("focus_editor");
    reveal_strlit("focus_sidebar");
    reveal_strlit("toggle_editor_sidebar_focus");
    reveal_strlit("toggle_editor_right_sidebar_focus");
    reveal_strlit("move_focus_left_or_tab");
    reveal_strlit("move_focus_right_or_tab");
    reveal_strlit("smart_reveal");
    reveal_strlit("open_file");
    reveal_strlit("set_managed_editor_cwd");
    reveal_strlit("next_family");
    reveal_strlit("previous_family");
    reveal_strlit("toggle_sidebar");
    reveal_strlit("toggle_agent_sidebar");
    reveal_strlit("hide_sidebar");
    reveal_strlit("register_sidebar_yazi_state");
    reveal_strlit("register_ai_pane_activity");
    reveal_strlit("reconcile_terminal_title_activity_snapshot");
    reveal_strlit("get_active_tab_session_state");
    reveal_strlit("get_all_tab_activity_state");
    reveal_strlit("retarget_workspace");
    reveal_strlit("toggle_workspace_popup");
    reveal_strlit("open_terminal_in_cwd");
    reveal_strlit("open_workspace_terminal");
    reveal_strlit("reload_runtime_config");
    reveal_strlit("maintainer_debug_editor_state");
    reveal_strlit("debug_write_literal");
    reveal_strlit("debug_send_escape");
}

/// The commands listed by name, first match wins: a table that tells a
/// name's command apart from every other.
spec fn command_by_name(name: Seq<char>) -> Option<PipeCommand> {
    if name == "focus_editor"@ {
        Some(PipeCommand::FocusEditor)
    } else if name == "focus_sidebar"@ {
        Some(PipeCommand::FocusSidebar)
    } else if name == "toggle_editor_sidebar_focus"@ {
        Some(PipeCommand::ToggleEditorSidebarFocus)
    } else if name == "toggle_editor_right_sidebar_focus"@ {
        Some(PipeCommand::ToggleEditorRightSidebarFocus)
    } else if name == "move_focus_left_or_tab"@ {
        Some(PipeCommand::MoveFocusOrTab(HorizontalDirection::Left))
    } else if name == "move_focus_right_or_tab"@ {
        Some(PipeCommand::MoveFocusOrTab(HorizontalDirection::Right))
    } else if name == "smart_reveal"@ {
        Some(PipeCommand::SmartReveal)
    } else if name == "open_file"@ {
        Some(PipeCommand::OpenFile)
    } else if name == "set_managed_editor_cwd"@ {
        Some(PipeCommand::SetManagedEditorCwd)
    } else if name == "next_family"@ {
        Some(PipeCommand::SwitchLayoutFamily(LayoutFamilyDirection::Next))
    } else if name == "previous_family"@ {
        Some(PipeCommand::SwitchLayoutFamily(LayoutFamilyDirection::Previous))
    } else if name == "toggle_sidebar"@ {
        Some(PipeCommand::ToggleSidebar)
    } else if name == "toggle_agent_sidebar"@ {
        Some(PipeCommand::ToggleAgentSidebar)
    } else if name == "hide_sidebar"@ {
        Some(PipeCommand::HideSidebar)
    } else if name == "register_sidebar_yazi_state"@ {
        Some(PipeCommand::RegisterSidebarYaziState)
    } else if name == "register_ai_pane_activity"@ {
        Some(PipeCommand::RegisterAiPaneActivity)
    } else if name == "reconcile_terminal_title_activity_snapshot"@ {
        Some(PipeCommand::ReconcileTerminalTitleActivitySnapshot)
    } else if name == "get_active_tab_session_state"@ {
        Some(PipeCommand::GetActiveTabSessionState)
    } else if name == "get_all_tab_activity_state"@ {
        Some(PipeCommand::GetAllTabActivityState)
    } else if name == "retarget_workspace"@ {
        Some(PipeCommand::RetargetWorkspace)
    } else if name == "toggle_workspace_popup"@ {
        Some(PipeCommand::ToggleWorkspacePopup)
    } else if name == "open_terminal_in_cwd"@ {
        Some(PipeCommand::OpenTerminalInCwd)
    } else if name == "open_workspace_terminal"@ {
        Some(PipeCommand::OpenWorkspaceTerminal)
    } else if name == "reload_runtime_config"@ {
        Some(PipeCommand::ReloadRuntimeConfig)
    } else if name == "maintainer_debug_editor_state"@ {
        Some(PipeCommand::MaintainerDebugEditorState)
    } else if name == "debug_write_literal"@ {
        Some(PipeCommand::DebugWriteLiteral)
    } else if name == "debug_send_escape"@ {
        Some(PipeCommand::DebugSendEscape)
    } else {
        None
    }
}

/// The table gives each command back from its own name.
proof fn lemma_command_by_name(command: PipeCommand)
    ensures
        command_by_name(pipe_command_name(command)) == Some(command),
{
    lemma_command_names_differ();
    match command {
        PipeCommand::FocusEditor => {},
        PipeCommand::FocusSidebar => {},
        PipeCommand::ToggleEditorSidebarFocus => {},
        PipeCommand::ToggleEditorRightSidebarFocus => {},
        PipeCommand::MoveFocusOrTab(HorizontalDirection::Left) => {},
        PipeCommand::MoveFocusOrTab(HorizontalDirection::Right) => {},
        PipeCommand::SmartReveal => {},
        PipeCommand::OpenFile => {},
        PipeCommand::SetManagedEditorCwd => {},
        PipeCommand::SwitchLayoutFamily(LayoutFamilyDirection::Next) => {},
        PipeCommand::SwitchLayoutFamily(LayoutFamilyDirection::Previous) => {},
        PipeCommand::ToggleSidebar => {},
        PipeCommand::ToggleAgentSidebar => {},
        PipeCommand::HideSidebar => {},
        PipeCommand::RegisterSidebarYaziState => {},
        PipeCommand::RegisterAiPaneActivity => {},
        PipeCommand::ReconcileTerminalTitleActivitySnapshot => {},
        PipeCommand::GetActiveTabSessionState => {},
        PipeCommand::GetAllTabActivityState => {},
        PipeCommand::RetargetWorkspace => {},
        PipeCommand::ToggleWorkspacePopup => {},
        PipeCommand::OpenTerminalInCwd => {},
        PipeCommand::OpenWorkspaceTerminal => {},
        PipeCommand::ReloadRuntimeConfig => {},
        PipeCommand::MaintainerDebugEditorState => {},
        PipeCommand::DebugWriteLiteral => {},
        PipeCommand::DebugSendEscape => {},
    }
}

/// No two commands share a name.
proof fn lemma_command_name_injective(a: PipeCommand, b: PipeCommand)
    requires
        pipe_command_name(a) == pipe_command_name(b),
    ensures
        a == b,
{
    lemma_command_by_name(a);
    lemma_command_by_name(b);
}

/// A name that is some command's own name stands for that command.
proof fn lemma_named(command: PipeCommand, name: Seq<char>)
    requires
        pipe_command_name(command) == name,
    ensures
        command_named(name) == Some(command),
{
    let chosen = choose|c: PipeCommand| #[trigger] pipe_command_name(c) == name;
    lemma_command_name_injective(chosen, command);
}

/// Reads the command that a pipe message names.
pub fn pipe_command_for(name: &str) -> (command: Option<PipeCommand>)
    ensures
        command == command_named(name@),
{
    if str_equal(name, "focus_editor") {
        proof {
            lemma_named(PipeCommand::FocusEditor, name@);
        }
        Some(PipeCommand::FocusEditor)
    } else if str_equal(name, "focus_sidebar") {
        proof {
            lemma_named(PipeCommand::FocusSidebar, name@);
        }
        Some(PipeCommand::FocusSidebar)
    } else if str_equal(name, "toggle_editor_sidebar_focus") {
        proof {
            lemma_named(PipeCommand::ToggleEditorSidebarFocus, name@);
        }
        Some(PipeCommand::ToggleEditorSidebarFocus)
    } else if str_equal(name, "toggle_editor_right_sidebar_focus") {
        proof {
            lemma_named(PipeCommand::ToggleEditorRightSidebarFocus, name@);
        }
        Some(PipeCommand::ToggleEditorRightSidebarFocus)
    } else if str_equal(name, "move_focus_left_or_tab") {
        proof {
            lemma_named(PipeCommand::MoveFocusOrTab(HorizontalDirection::Left), name@);
        }
        Some(PipeCommand::MoveFocusOrTab(HorizontalDirection::Left))
    } else if str_equal(name, "move_focus_right_or_tab") {
        proof {
            lemma_named(PipeCommand::MoveFocusOrTab(HorizontalDirection::Right), name@);
        }
        Some(PipeCommand::MoveFocusOrTab(HorizontalDirection::Right))
    } else if str_equal(name, "smart_reveal") {
        proof {
            lemma_named(PipeCommand::SmartReveal, name@);
        }
        Some(PipeCommand::SmartReveal)
    } else if str_equal(name, "open_file") {
        proof {
            lemma_named(PipeCommand::OpenFile, name@);
        }
        Some(PipeCommand::OpenFile)
    } else if str_equal(name, "set_managed_editor_cwd") {
        proof {
            lemma_named(PipeCommand::SetManagedEditorCwd, name@);
        }
        Some(PipeCommand::SetManagedEditorCwd)
    } else if str_equal(name, "next_family") {
        proof {
            lemma_named(PipeCommand::SwitchLayoutFamily(LayoutFamilyDirection::Next), name@);
        }
        Some(PipeCommand::SwitchLayoutFamily(LayoutFamilyDirection::Next))
    } else if str_equal(name, "previous_family") {
        proof {
            lemma_named(PipeCommand::SwitchLayoutFamily(LayoutFamilyDirection::Previous), name@);
        }
        Some(PipeCommand::SwitchLayoutFamily(LayoutFamilyDirection::Previous))
    } else if str_equal(name, "toggle_sidebar") {
        proof {
            lemma_named(PipeCommand::ToggleSidebar, name@);
        }
        Some(PipeCommand::ToggleSidebar)
    } else if str_equal(name, "toggle_agent_sidebar") {
        proof {
            lemma_named(PipeCommand::ToggleAgentSidebar, name@);
        }
        Some(PipeCommand::ToggleAgentSidebar)
    } else if str_equal(name, "hide_sidebar") {
        proof {
            lemma_named(PipeCommand::HideSidebar, name@);
        }
        Some(PipeCommand::HideSidebar)
    } else if str_equal(name, "register_sidebar_yazi_state") {
        proof {
            lemma_named(PipeCommand::RegisterSidebarYaziState, name@);
        }
        Some(PipeCommand::RegisterSidebarYaziState)
    } else if str_equal(name, "register_ai_pane_activity") {
        proof {
            lemma_named(PipeCommand::RegisterAiPaneActivity, name@);
        }
        Some(PipeCommand::RegisterAiPaneActivity)
    } else if str_equal(name, "reconcile_terminal_title_activity_snapshot") {
        proof {
            lemma_named(PipeCommand::ReconcileTerminalTitleActivitySnapshot, name@);
        }
        Some(PipeCommand::ReconcileTerminalTitleActivitySnapshot)
    } else if str_equal(name, "get_active_tab_session_state") {
        proof {
            lemma_named(PipeCommand::GetActiveTabSessionState, name@);
        }
        Some(PipeCommand::GetActiveTabSessionState)
    } else if str_equal(name, "get_all_tab_activity_state") {
        proof {
            lemma_named(PipeCommand::GetAllTabActivityState, name@);
        }
        Some(PipeCommand::GetAllTabActivityState)
    } else if str_equal(name, "retarget_workspace") {
        proof {
            lemma_named(PipeCommand::RetargetWorkspace, name@);
        }
        Some(PipeCommand::RetargetWorkspace)
    } else if str_equal(name, "toggle_workspace_popup") {
        proof {
            lemma_named(PipeCommand::ToggleWorkspacePopup, name@);
        }
        Some(PipeCommand::ToggleWorkspacePopup)
    } else if str_equal(name, "open_terminal_in_cwd") {
        proof {
            lemma_named(PipeCommand::OpenTerminalInCwd, name@);
        }
        Some(PipeCommand::OpenTerminalInCwd)
    } else if str_equal(name, "open_workspace_terminal") {
        proof {
            lemma_named(PipeCommand::OpenWorkspaceTerminal, name@);
        }
        Some(PipeCommand::OpenWorkspaceTerminal)
    } else if str_equal(name, "reload_runtime_config") {
        proof {
            lemma_named(PipeCommand::ReloadRuntimeConfig, name@);
        }
        Some(PipeCommand::ReloadRuntimeConfig)
    } else if str_equal(name, "maintainer_debug_editor_state") {
        proof {
            lemma_named(PipeCommand::MaintainerDebugEditorState, name@);
        }
        Some(PipeCommand::MaintainerDebugEditorState)
    } else if str_equal(name, "debug_write_literal") {
        proof {
            lemma_named(PipeCommand::DebugWriteLiteral, name@);
        }
        Some(PipeCommand::DebugWriteLiteral)
    } else if str_equal(name, "debug_send_escape") {
        proof {
            lemma_named(PipeCommand::DebugSendEscape, name@);
        }
        Some(PipeCommand::DebugSendEscape)
    } else {
        proof {
            assert forall|command: PipeCommand| #[trigger] pipe_command_name(command) != name@ by {
                match command {
                    PipeCommand::FocusEditor => {},
                    PipeCommand::FocusSidebar => {},
                    PipeCommand::ToggleEditorSidebarFocus => {},
                    PipeCommand::ToggleEditorRightSidebarFocus => {},
                    PipeCommand::MoveFocusOrTab(HorizontalDirection::Left) => {},
                    PipeCommand::MoveFocusOrTab(HorizontalDirection::Right) => {},
                    PipeCommand::SmartReveal => {},
                    PipeCommand::OpenFile => {},
                    PipeCommand::SetManagedEditorCwd => {},
                    PipeCommand::SwitchLayoutFamily(LayoutFamilyDirection::Next) => {},
                    PipeCommand::SwitchLayoutFamily(LayoutFamilyDirection::Previous) => {},
                    PipeCommand::ToggleSidebar => {},
                    PipeCommand::ToggleAgentSidebar => {},
                    PipeCommand::HideSidebar => {},
                    PipeCommand::RegisterSidebarYaziState => {},
                    PipeCommand::RegisterAiPaneActivity => {},
                    PipeCommand::ReconcileTerminalTitleActivitySnapshot => {},
                    PipeCommand::GetActiveTabSessionState => {},
                    PipeCommand::GetAllTabActivityState => {},
                    PipeCommand::RetargetWorkspace => {},
                    PipeCommand::ToggleWorkspacePopup => {},
                    PipeCommand::OpenTerminalInCwd => {},
                    PipeCommand::OpenWorkspaceTerminal => {},
                    PipeCommand::ReloadRuntimeConfig => {},
                    PipeCommand::MaintainerDebugEditorState => {},
                    PipeCommand::DebugWriteLiteral => {},
                    PipeCommand::DebugSendEscape => {},
                }
            }
        }
        None
    }
}

/// The pipe message name of `command`.
pub fn command_name(command: PipeCommand) -> (name: &'static str)
    ensures
        name@ == pipe_command_name(command),
{
    match command {
        PipeCommand::FocusEditor => "focus_editor",
        PipeCommand::FocusSidebar => "focus_sidebar",
        PipeCommand::ToggleEditorSidebarFocus => "toggle_editor_sidebar_focus",
        PipeCommand::ToggleEditorRightSidebarFocus => "toggle_editor_right_sidebar_focus",
        PipeCommand::MoveFocusOrTab(HorizontalDirection::Left) => "move_focus_left_or_tab",
        PipeCommand::MoveFocusOrTab(HorizontalDirection::Right) => "move_focus_right_or_tab",
        PipeCommand::SmartReveal => "smart_reveal",
        PipeCommand::OpenFile => "open_file",
        PipeCommand::SetManagedEditorCwd => "set_managed_editor_cwd",
        PipeCommand::SwitchLayoutFamily(LayoutFamilyDirection::Next) => "next_family",
        PipeCommand::SwitchLayoutFamily(LayoutFamilyDirection::Previous) => "previous_family",
        PipeCommand::ToggleSidebar => "toggle_sidebar",
        PipeCommand::ToggleAgentSidebar => "toggle_agent_sidebar",
        PipeCommand::HideSidebar => "hide_sidebar",
        PipeCommand::RegisterSidebarYaziState => "register_sidebar_yazi_state",
        PipeCommand::RegisterAiPaneActivity => "register_ai_pane_activity",
        PipeCommand::ReconcileTerminalTitleActivitySnapshot => "reconcile_terminal_title_activity_snapshot",
        PipeCommand::GetActiveTabSessionState => "get_active_tab_session_state",
        PipeCommand::GetAllTabActivityState => "get_all_tab_activity_state",
        PipeCommand::RetargetWorkspace => "retarget_workspace",
        PipeCommand::ToggleWorkspacePopup => "toggle_workspace_popup",
        PipeCommand::OpenTerminalInCwd => "open_terminal_in_cwd",
        PipeCommand::OpenWorkspaceTerminal => "open_workspace_terminal",
        PipeCommand::ReloadRuntimeConfig => "reload_runtime_config",
        PipeCommand::MaintainerDebugEditorState => "maintainer_debug_editor_state",
        PipeCommand::DebugWriteLiteral => "debug_write_literal",
        PipeCommand::DebugSendEscape => "debug_send_escape",
    }
}

/// Each command is named by exactly one pipe message name: reading a
/// command's own name gives the command back.
pub proof fn law_command_name_round_trip(command: PipeCommand)
    ensures
        command_named(pipe_command_name(command)) == Some(command),
{
    lemma_named(command, pipe_command_name(command));
}

/// Whether an action may run, and on which tab: the plugin answers
/// `RESULT_DENIED` without its permissions and `RESULT_NOT_READY` before a
/// tab update has named the active tab.
pub fn ensure_action_ready(permissions_granted: bool, active_tab_id: Option<usize>) -> (ready:
    Result<usize, &'static str>)
    ensures
        !permissions_granted ==> ready == Err::<usize, &'static str>(RESULT_DENIED),
        permissions_granted && active_tab_id is None ==> ready == Err::<usize, &'static str>(
            RESULT_NOT_READY,
        ),
        permissions_granted && active_tab_id is Some ==> ready == Ok::<usize, &'static str>(
            active_tab_id->0,
        ),
{
    if !permissions_granted {
        return Err(RESULT_DENIED);
    }
    match active_tab_id {
        Some(tab_id) => Ok(tab_id),
        None => Err(RESULT_NOT_READY),
    }
}

} // verus!
