use yazelix_zellij_pane_orchestrator::agent_plan::{
    focus_after_agent_hide, plan_agent_sidebar_toggle, plan_editor_right_sidebar_focus,
    AgentFocusAction, AgentSidebarToggle, PaneRef,
};
use yazelix_zellij_pane_orchestrator::plugin_pipe::{
    RESULT_FOCUSED_AGENT, RESULT_FOCUSED_EDITOR, RESULT_MISSING, RESULT_OK,
};

const AGENT: PaneRef = PaneRef::Terminal(3);
const EDITOR: PaneRef = PaneRef::Terminal(1);
const FALLBACK: PaneRef = PaneRef::Terminal(7);

#[test]
fn focused_agent_hands_focus_to_the_editor_then_the_fallback() {
    assert_eq!(
        plan_editor_right_sidebar_focus(true, Some(AGENT), Some(AGENT), Some(EDITOR), Some(FALLBACK), false),
        AgentFocusAction::Focus {
            pane: EDITOR,
            result: RESULT_FOCUSED_EDITOR
        }
    );
    assert_eq!(
        plan_editor_right_sidebar_focus(true, Some(AGENT), Some(AGENT), None, Some(FALLBACK), false),
        AgentFocusAction::Focus {
            pane: FALLBACK,
            result: RESULT_OK
        }
    );
    assert_eq!(
        plan_editor_right_sidebar_focus(true, Some(AGENT), Some(AGENT), None, None, false),
        AgentFocusAction::Answer(RESULT_MISSING)
    );
}

#[test]
fn unfocused_agent_is_focused_opened_or_created() {
    assert_eq!(
        plan_editor_right_sidebar_focus(true, Some(EDITOR), Some(AGENT), Some(EDITOR), None, false),
        AgentFocusAction::Focus {
            pane: AGENT,
            result: RESULT_FOCUSED_AGENT
        }
    );
    assert_eq!(
        plan_editor_right_sidebar_focus(true, Some(EDITOR), Some(AGENT), Some(EDITOR), None, true),
        AgentFocusAction::OpenAndFocusAgent(AGENT)
    );
    assert_eq!(
        plan_editor_right_sidebar_focus(true, None, None, Some(EDITOR), None, false),
        AgentFocusAction::CreateAndFocusAgent
    );
    assert_eq!(
        plan_editor_right_sidebar_focus(false, None, Some(AGENT), Some(EDITOR), None, false),
        AgentFocusAction::Answer(RESULT_MISSING)
    );
}

#[test]
fn agent_sidebar_toggle_hides_opens_or_creates() {
    assert_eq!(
        plan_agent_sidebar_toggle(Some(AGENT), Some(AGENT)),
        AgentSidebarToggle::HideAgent
    );
    assert_eq!(
        plan_agent_sidebar_toggle(Some(EDITOR), Some(AGENT)),
        AgentSidebarToggle::OpenAgent(AGENT)
    );
    assert_eq!(
        plan_agent_sidebar_toggle(Some(PaneRef::Plugin(3)), Some(AGENT)),
        AgentSidebarToggle::OpenAgent(AGENT)
    );
    assert_eq!(plan_agent_sidebar_toggle(None, None), AgentSidebarToggle::CreateAgent);
    assert_eq!(focus_after_agent_hide(Some(EDITOR), Some(FALLBACK)), Some(EDITOR));
    assert_eq!(focus_after_agent_hide(None, Some(FALLBACK)), Some(FALLBACK));
    assert_eq!(focus_after_agent_hide(None, None), None);
}
