use vstd::prelude::*;

verus! {

/// What the editor/right-sidebar focus switch should do.
#[derive(Clone, Copy, Debug, PartialEq, Eq, Structural)]
pub enum AgentFocusTogglePlan {
    FocusEditor,
    FocusFallback,
    FocusAgent,
    OpenAndFocusAgent,
    CreateAndFocusAgent,
    MissingTarget,
}

/// The plan the focus switch follows, as a decision table over its inputs.
pub open spec fn agent_focus_toggle_plan(
    agent_is_focused: bool,
    has_agent: bool,
    agent_is_closed: bool,
    has_editor: bool,
    has_focus_fallback: bool,
) -> AgentFocusTogglePlan {
    if agent_is_focused {
        if has_editor {
            AgentFocusTogglePlan::FocusEditor
        } else if has_focus_fallback {
            AgentFocusTogglePlan::FocusFallback
        } else {
            AgentFocusTogglePlan::MissingTarget
        }
    } else if has_agent {
        if agent_is_closed {
            AgentFocusTogglePlan::OpenAndFocusAgent
        } else {
            AgentFocusTogglePlan::FocusAgent
        }
    } else {
        AgentFocusTogglePlan::CreateAndFocusAgent
    }
}

/// Decides how to switch focus between the editor and the right-sidebar agent:
/// a focused agent hands focus back (editor first, then the fallback pane);
/// an unfocused agent is focused, opened first when collapsed, or created
/// when there is none.
pub fn resolve_agent_focus_toggle(
    agent_is_focused: bool,
    has_agent: bool,
    agent_is_closed: bool,
    has_editor: bool,
    has_focus_fallback: bool,
) -> (plan: AgentFocusTogglePlan)
    ensures
        plan == agent_focus_toggle_plan(
            agent_is_focused,
            has_agent,
            agent_is_closed,
            has_editor,
            has_focus_fallback,
        ),
        agent_is_focused ==> plan != AgentFocusTogglePlan::FocusAgent
            && plan != AgentFocusTogglePlan::OpenAndFocusAgent
            && plan != AgentFocusTogglePlan::CreateAndFocusAgent,
        !agent_is_focused && has_agent ==> plan == if agent_is_closed {
            AgentFocusTogglePlan::OpenAndFocusAgent
        } else {
            AgentFocusTogglePlan::FocusAgent
        },
        !agent_is_focused && !has_agent ==> plan == AgentFocusTogglePlan::CreateAndFocusAgent,
{
    proof {
        law_existing_agent_is_never_recreated(
            agent_is_focused,
            has_agent,
            agent_is_closed,
            has_editor,
            has_focus_fallback,
        );
    }
    if agent_is_focused && has_editor {
        AgentFocusTogglePlan::FocusEditor
    } else if agent_is_focused && has_focus_fallback {
        AgentFocusTogglePlan::FocusFallback
    } else if agent_is_focused {
        AgentFocusTogglePlan::MissingTarget
    } else if has_agent && agent_is_closed {
        AgentFocusTogglePlan::OpenAndFocusAgent
    } else if has_agent {
        AgentFocusTogglePlan::FocusAgent
    } else {
        AgentFocusTogglePlan::CreateAndFocusAgent
    }
}

/// An existing agent that is not focused is focused (opened first when
/// collapsed), never created again, whatever the editor and fallback panes
/// are; only a missing agent is created; and a focused agent hands focus to
/// the editor when there is one, else to the fallback pane.
pub proof fn law_existing_agent_is_never_recreated(
    agent_is_focused: bool,
    has_agent: bool,
    agent_is_closed: bool,
    has_editor: bool,
    has_focus_fallback: bool,
)
    ensures
        ({
            let plan = agent_focus_toggle_plan(
                agent_is_focused,
                has_agent,
                agent_is_closed,
                has_editor,
                has_focus_fallback,
            );
            &&& !agent_is_focused && has_agent ==> plan == if agent_is_closed {
                AgentFocusTogglePlan::OpenAndFocusAgent
            } else {
                AgentFocusTogglePlan::FocusAgent
            }
            &&& plan == AgentFocusTogglePlan::CreateAndFocusAgent <==> !agent_is_focused
                && !has_agent
            &&& agent_is_focused && has_editor ==> plan == AgentFocusTogglePlan::FocusEditor
            &&& agent_is_focused && !has_editor && has_focus_fallback ==> plan
                == AgentFocusTogglePlan::FocusFallback
            &&& plan == AgentFocusTogglePlan::MissingTarget <==> agent_is_focused && !has_editor
                && !has_focus_fallback
        }),
{
}

} // verus!
