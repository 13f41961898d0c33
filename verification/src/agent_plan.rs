use vstd::prelude::*;

use crate::agent_focus_contract::{
    agent_focus_toggle_plan, resolve_agent_focus_toggle, AgentFocusTogglePlan,
};
use crate::plugin_pipe::{RESULT_FOCUSED_AGENT, RESULT_FOCUSED_EDITOR, RESULT_MISSING, RESULT_OK};

verus! {

/// A pane, as Zellij names it: a terminal or a plugin, by number.
#[derive(Clone, Copy, Debug, PartialEq, Eq, Structural)]
pub enum PaneRef {
    Terminal(u32),
    Plugin(u32),
}

/// What the editor/right-sidebar focus switch does.
#[derive(Clone, Copy, Debug, PartialEq, Eq)]
pub enum AgentFocusAction {
    /// Focus the pane and answer with the result.
    Focus { pane: PaneRef, result: &'static str },
    /// Open the collapsed agent sidebar, focus the agent, and answer
    /// `RESULT_FOCUSED_AGENT`.
    OpenAndFocusAgent(PaneRef),
    /// Start the agent command in a new sidebar pane, focus it, and answer
    /// `RESULT_FOCUSED_AGENT`.
    CreateAndFocusAgent,
    /// Do nothing and answer with the result.
    Answer(&'static str),
}

/// The agent pane has focus.
pub open spec fn agent_has_focus(focused_pane: Option<PaneRef>, agent_pane: Option<PaneRef>) -> bool {
    agent_pane is Some && focused_pane == agent_pane
}

/// What the focus switch does once the plan is known, given the panes.
pub open spec fn focus_action_for(
    plan: AgentFocusTogglePlan,
    agent_pane: Option<PaneRef>,
    editor_pane: Option<PaneRef>,
    fallback_pane: Option<PaneRef>,
) -> AgentFocusAction {
    match plan {
        AgentFocusTogglePlan::FocusEditor => match editor_pane {
            Some(pane) => AgentFocusAction::Focus { pane, result: RESULT_FOCUSED_EDITOR },
            None => AgentFocusAction::Answer(RESULT_MISSING),
        },
        AgentFocusTogglePlan::FocusFallback => match fallback_pane {
            Some(pane) => AgentFocusAction::Focus { pane, result: RESULT_OK },
            None => AgentFocusAction::Answer(RESULT_MISSING),
        },
        AgentFocusTogglePlan::FocusAgent => match agent_pane {
            Some(pane) => AgentFocusAction::Focus { pane, result: RESULT_FOCUSED_AGENT },
            None => AgentFocusAction::Answer(RESULT_MISSING),
        },
        AgentFocusTogglePlan::OpenAndFocusAgent => match agent_pane {
            Some(pane) => AgentFocusAction::OpenAndFocusAgent(pane),
            None => AgentFocusAction::Answer(RESULT_MISSING),
        },
        AgentFocusTogglePlan::CreateAndFocusAgent => AgentFocusAction::CreateAndFocusAgent,
        AgentFocusTogglePlan::MissingTarget => AgentFocusAction::Answer(RESULT_MISSING),
    }
}

/// The editor/right-sidebar focus switch of the active tab: `RESULT_MISSING`
/// when the tab's managed panes are unknown; else the plan of
/// `resolve_agent_focus_toggle`, carried out on the tab's agent, editor and
/// fallback panes.
pub fn plan_editor_right_sidebar_focus(
    has_managed_panes: bool,
    focused_pane: Option<PaneRef>,
    agent_pane: Option<PaneRef>,
    editor_pane: Option<PaneRef>,
    fallback_pane: Option<PaneRef>,
    agent_is_closed: bool,
) -> (action: AgentFocusAction)
    ensures
        !has_managed_panes ==> action == AgentFocusAction::Answer(RESULT_MISSING),
        has_managed_panes ==> action == focus_action_for(
            agent_focus_toggle_plan(
                agent_has_focus(focused_pane, agent_pane),
                agent_pane is Some,
                agent_is_closed,
                editor_pane is Some,
                fallback_pane is Some,
            ),
            agent_pane,
            editor_pane,
            fallback_pane,
        ),
{
    if !has_managed_panes {
        return AgentFocusAction::Answer(RESULT_MISSING);
    }
    let agent_is_focused = match agent_pane {
        Some(agent) => match focused_pane {
            Some(focused) => focused == agent,
            None => false,
        },
        None => false,
    };
    let plan = resolve_agent_focus_toggle(
        agent_is_focused,
        agent_pane.is_some(),
        agent_is_closed,
        editor_pane.is_some(),
        fallback_pane.is_some(),
    );
    match plan {
        AgentFocusTogglePlan::FocusEditor => match editor_pane {
            Some(pane) => AgentFocusAction::Focus { pane, result: RESULT_FOCUSED_EDITOR },
            None => AgentFocusAction::Answer(RESULT_MISSING),
        },
        AgentFocusTogglePlan::FocusFallback => match fallback_pane {
            Some(pane) => AgentFocusAction::Focus { pane, result: RESULT_OK },
            None => AgentFocusAction::Answer(RESULT_MISSING),
        },
        AgentFocusTogglePlan::FocusAgent => match agent_pane {
            Some(pane) => AgentFocusAction::Focus { pane, result: RESULT_FOCUSED_AGENT },
            None => AgentFocusAction::Answer(RESULT_MISSING),
        },
        AgentFocusTogglePlan::OpenAndFocusAgent => match agent_pane {
            Some(pane) => AgentFocusAction::OpenAndFocusAgent(pane),
            None => AgentFocusAction::Answer(RESULT_MISSING),
        },
        AgentFocusTogglePlan::CreateAndFocusAgent => AgentFocusAction::CreateAndFocusAgent,
        AgentFocusTogglePlan::MissingTarget => AgentFocusAction::Answer(RESULT_MISSING),
    }
}

/// The focus switch answers `RESULT_MISSING` only when its plan has no
/// target, every pane it focuses is one of the tab's panes, and a focused
/// agent always hands focus to the editor or the fallback pane.
pub proof fn law_focus_switch_names_an_existing_pane(
    focused_pane: Option<PaneRef>,
    agent_pane: Option<PaneRef>,
    editor_pane: Option<PaneRef>,
    fallback_pane: Option<PaneRef>,
    agent_is_closed: bool,
)
    ensures
        ({
            let plan = agent_focus_toggle_plan(
                agent_has_focus(focused_pane, agent_pane),
                agent_pane is Some,
                agent_is_closed,
                editor_pane is Some,
                fallback_pane is Some,
            );
            let action = focus_action_for(plan, agent_pane, editor_pane, fallback_pane);
            &&& plan != AgentFocusTogglePlan::MissingTarget ==> action != AgentFocusAction::Answer(
                RESULT_MISSING,
            )
            &&& action matches AgentFocusAction::Focus { pane, .. } ==> Some(pane) == editor_pane
                || Some(pane) == fallback_pane || Some(pane) == agent_pane
            &&& agent_has_focus(focused_pane, agent_pane) ==> !(action is OpenAndFocusAgent)
                && !(action is CreateAndFocusAgent) && (action matches AgentFocusAction::Focus {
                pane,
                ..
            } ==> Some(pane) == editor_pane || Some(pane) == fallback_pane)
        }),
{
}

/// What the agent sidebar toggle does.
#[derive(Clone, Copy, Debug, PartialEq, Eq, Structural)]
pub enum AgentSidebarToggle {
    /// Collapse the agent sidebar and focus another pane.
    HideAgent,
    /// Open the existing agent sidebar and focus the agent.
    OpenAgent(PaneRef),
    /// Start the agent command in a new sidebar pane.
    CreateAgent,
}

/// The agent sidebar toggle: a focused agent is hidden, an unfocused one is
/// opened and focused, and a missing one is created.
pub fn plan_agent_sidebar_toggle(focused_pane: Option<PaneRef>, agent_pane: Option<PaneRef>) -> (toggle:
    AgentSidebarToggle)
    ensures
        toggle == match agent_pane {
            Some(agent) => if focused_pane == Some(agent) {
                AgentSidebarToggle::HideAgent
            } else {
                AgentSidebarToggle::OpenAgent(agent)
            },
            None => AgentSidebarToggle::CreateAgent,
        },
{
    match agent_pane {
        Some(agent) => {
            let focused = match focused_pane {
                Some(focused) => focused == agent,
                None => false,
            };
            if focused {
                AgentSidebarToggle::HideAgent
            } else {
                AgentSidebarToggle::OpenAgent(agent)
            }
        },
        None => AgentSidebarToggle::CreateAgent,
    }
}

/// The pane that takes focus once the agent is hidden: the editor, else the
/// fallback pane.
pub fn focus_after_agent_hide(editor_pane: Option<PaneRef>, fallback_pane: Option<PaneRef>) -> (pane:
    Option<PaneRef>)
    ensures
        pane == match editor_pane {
            Some(editor) => Some(editor),
            None => fallback_pane,
        },
{
    match editor_pane {
        Some(editor) => Some(editor),
        None => fallback_pane,
    }
}

} // verus!
