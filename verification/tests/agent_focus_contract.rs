use yazelix_zellij_pane_orchestrator::agent_focus_contract::{
    resolve_agent_focus_toggle, AgentFocusTogglePlan,
};

#[test]
fn focused_agent_returns_to_editor() {
    assert_eq!(
        resolve_agent_focus_toggle(true, true, false, true, true),
        AgentFocusTogglePlan::FocusEditor
    );
}

#[test]
fn collapsed_existing_agent_is_opened_and_focused() {
    assert_eq!(
        resolve_agent_focus_toggle(false, true, true, true, true),
        AgentFocusTogglePlan::OpenAndFocusAgent
    );
}

#[test]
fn missing_agent_is_created_and_focused() {
    assert_eq!(
        resolve_agent_focus_toggle(false, false, false, true, true),
        AgentFocusTogglePlan::CreateAndFocusAgent
    );
}

#[test]
fn focused_agent_without_editor_uses_fallback_then_reports_missing() {
    assert_eq!(
        resolve_agent_focus_toggle(true, true, false, false, true),
        AgentFocusTogglePlan::FocusFallback
    );
    assert_eq!(
        resolve_agent_focus_toggle(true, true, false, false, false),
        AgentFocusTogglePlan::MissingTarget
    );
}

#[test]
fn open_unfocused_agent_is_focused() {
    assert_eq!(
        resolve_agent_focus_toggle(false, true, false, true, false),
        AgentFocusTogglePlan::FocusAgent
    );
}
