use vstd::prelude::*;

use crate::ai_pane_activity_contract::opt_str_view;
use crate::layout_state_contract::{
    layout_index, shortest_swap_plan, swap_step_plan, swap_step_plan_from_base, variant_named,
    AgentState, LayoutFamily, LayoutFamilyDirection, LayoutVariant, SidebarState,
    SwapLayoutStepPlan, SwapStepDirection,
};
use crate::plugin_pipe::{RESULT_OK, RESULT_UNKNOWN_LAYOUT};
use crate::text::str_equal;

verus! {

/// Name of the tab layout that precedes the swap layouts.
pub const BASE_LAYOUT_NAME: &'static str = "BASE";

/// Widest sidebar, in columns, that still counts as collapsed in the base
/// layout.
pub const CLOSED_BASE_SIDEBAR_COLUMNS: usize = 2;

/// The active swap layout is the base layout.
pub open spec fn is_base_layout(active_swap_layout_name: Option<Seq<char>>) -> bool {
    active_swap_layout_name == Some(BASE_LAYOUT_NAME@)
}

/// In the base layout, whether the sidebar pane is collapsed (no wider than
/// `CLOSED_BASE_SIDEBAR_COLUMNS`); `None` outside the base layout or without
/// a sidebar pane.
pub open spec fn base_sidebar_closed(
    active_swap_layout_name: Option<Seq<char>>,
    sidebar_columns: Option<usize>,
) -> Option<bool> {
    if !is_base_layout(active_swap_layout_name) {
        None
    } else {
        match sidebar_columns {
            Some(columns) => Some(columns <= CLOSED_BASE_SIDEBAR_COLUMNS),
            None => None,
        }
    }
}

/// The variant the base layout stands for: its sidebar as the pane width
/// shows, and an open agent when the tab has an agent pane.
pub open spec fn base_variant(
    active_swap_layout_name: Option<Seq<char>>,
    sidebar_columns: Option<usize>,
    has_agent: bool,
) -> Option<LayoutVariant> {
    match base_sidebar_closed(active_swap_layout_name, sidebar_columns) {
        Some(closed) => Some(
            LayoutVariant {
                family: LayoutFamily::Single,
                sidebar_state: if closed {
                    SidebarState::Closed
                } else {
                    SidebarState::Open
                },
                agent_state: if has_agent {
                    AgentState::Open
                } else {
                    AgentState::Absent
                },
            },
        ),
        None => None,
    }
}

/// The variant a tab is in: the one its swap layout names, else the one the
/// base layout stands for.
pub open spec fn tab_variant(
    active_swap_layout_name: Option<Seq<char>>,
    sidebar_columns: Option<usize>,
    has_agent: bool,
) -> Option<LayoutVariant> {
    match active_swap_layout_name {
        Some(name) => match variant_named(name) {
            Some(variant) => Some(variant),
            None => base_variant(active_swap_layout_name, sidebar_columns, has_agent),
        },
        None => base_variant(active_swap_layout_name, sidebar_columns, has_agent),
    }
}

/// Whether the active swap layout is the base layout.
pub fn active_layout_is_base(active_swap_layout_name: Option<&str>) -> (is_base: bool)
    ensures
        is_base == is_base_layout(opt_str_view(active_swap_layout_name)),
{
    match active_swap_layout_name {
        Some(name) => str_equal(name, BASE_LAYOUT_NAME),
        None => false,
    }
}

/// In the base layout, whether the sidebar pane is collapsed.
pub fn base_layout_sidebar_is_closed(
    active_swap_layout_name: Option<&str>,
    sidebar_columns: Option<usize>,
) -> (closed: Option<bool>)
    ensures
        closed == base_sidebar_closed(opt_str_view(active_swap_layout_name), sidebar_columns),
{
    if !active_layout_is_base(active_swap_layout_name) {
        return None;
    }
    match sidebar_columns {
        Some(columns) => Some(columns <= CLOSED_BASE_SIDEBAR_COLUMNS),
        None => None,
    }
}

/// Whether the tab is in the base layout with its sidebar collapsed.
pub fn active_layout_is_collapsed_base(
    active_swap_layout_name: Option<&str>,
    sidebar_columns: Option<usize>,
) -> (collapsed: bool)
    ensures
        collapsed == (base_sidebar_closed(opt_str_view(active_swap_layout_name), sidebar_columns)
            == Some(true)),
{
    match base_layout_sidebar_is_closed(active_swap_layout_name, sidebar_columns) {
        Some(closed) => closed,
        None => false,
    }
}

/// The variant the base layout stands for.
pub fn base_layout_variant(
    active_swap_layout_name: Option<&str>,
    sidebar_columns: Option<usize>,
    has_agent: bool,
) -> (variant: Option<LayoutVariant>)
    ensures
        variant == base_variant(opt_str_view(active_swap_layout_name), sidebar_columns, has_agent),
        variant is Some <==> opt_str_view(active_swap_layout_name) == Some("BASE"@)
            && sidebar_columns is Some,
        variant matches Some(v) ==> v.family == LayoutFamily::Single && v.agent_state == (if has_agent {
            AgentState::Open
        } else {
            AgentState::Absent
        }) && v.sidebar_state == (if sidebar_columns->0 <= 2 {
            SidebarState::Closed
        } else {
            SidebarState::Open
        }),
{
    proof {
        law_base_variant_reads_panes(opt_str_view(active_swap_layout_name), sidebar_columns, has_agent);
    }
    let closed = match base_layout_sidebar_is_closed(active_swap_layout_name, sidebar_columns) {
        Some(closed) => closed,
        None => {
            return None;
        },
    };
    let sidebar_state = if closed {
        SidebarState::Closed
    } else {
        SidebarState::Open
    };
    let agent_state = if has_agent {
        AgentState::Open
    } else {
        AgentState::Absent
    };
    Some(LayoutVariant::new(LayoutFamily::Single, sidebar_state, agent_state))
}

/// The variant a tab is in, from its active swap layout name, the width of
/// its sidebar pane and whether it has an agent pane.
pub fn layout_variant_for_tab(
    active_swap_layout_name: Option<&str>,
    sidebar_columns: Option<usize>,
    has_agent: bool,
) -> (variant: Option<LayoutVariant>)
    ensures
        variant == tab_variant(opt_str_view(active_swap_layout_name), sidebar_columns, has_agent),
{
    let named = match active_swap_layout_name {
        Some(name) => LayoutVariant::from_layout_name(name),
        None => None,
    };
    match named {
        Some(variant) => Some(variant),
        None => base_layout_variant(active_swap_layout_name, sidebar_columns, has_agent),
    }
}

/// Whether a tab has enough panes for its layout family to change: two user
/// panes without a sidebar, four with an agent, three otherwise.
pub fn can_switch_layout_family(user_pane_count: usize, has_sidebar: bool, has_agent: bool) -> (can:
    bool)
    ensures
        can == if !has_sidebar {
            user_pane_count >= 2
        } else if has_agent {
            user_pane_count >= 4
        } else {
            user_pane_count >= 3
        },
{
    if !has_sidebar {
        user_pane_count >= 2
    } else if has_agent {
        user_pane_count >= 4
    } else {
        user_pane_count >= 3
    }
}

/// The swap steps from `current` to `target` for a tab: counted from before
/// the first swap layout in the base layout, the shortest way round
/// otherwise.
pub open spec fn tab_swap_plan(
    is_base: bool,
    current: LayoutVariant,
    target: LayoutVariant,
) -> SwapLayoutStepPlan {
    if is_base {
        SwapLayoutStepPlan {
            direction: SwapStepDirection::Next,
            steps: (layout_index(target) + 1) as usize,
        }
    } else {
        shortest_swap_plan(current, target)
    }
}

/// The swap steps that take a tab from `current` to `target`.
pub fn swap_plan_for_tab(is_base: bool, current: LayoutVariant, target: LayoutVariant) -> (plan:
    SwapLayoutStepPlan)
    ensures
        plan == tab_swap_plan(is_base, current, target),
{
    let plan = if is_base {
        swap_step_plan_from_base(target)
    } else {
        swap_step_plan(current, target)
    };
    match plan {
        Some(plan) => plan,
        None => {
            assert(false);
            SwapLayoutStepPlan { direction: SwapStepDirection::Next, steps: 0 }
        },
    }
}

/// What a layout-family switch does.
#[derive(Clone, Copy, Debug, PartialEq, Eq)]
pub enum LayoutFamilySwitch {
    /// Nothing to do; answer with the result.
    Answer(&'static str),
    /// Run the steps, move the agent right afterwards if asked, and answer
    /// `RESULT_OK`.
    Run { plan: SwapLayoutStepPlan, move_agent_right: bool },
}

/// The layout-family switch of a tab: nothing when the tab has too few
/// panes or the family would not change, `RESULT_UNKNOWN_LAYOUT` when the
/// tab's variant is unknown, else the steps to the variant of the next
/// family, moving an open agent back to the right.
pub fn plan_layout_family_switch(
    can_switch: bool,
    variant: Option<LayoutVariant>,
    is_base: bool,
    direction: LayoutFamilyDirection,
) -> (switch: LayoutFamilySwitch)
    ensures
        !can_switch ==> switch == LayoutFamilySwitch::Answer(RESULT_OK),
        can_switch && variant is None ==> switch == LayoutFamilySwitch::Answer(
            RESULT_UNKNOWN_LAYOUT,
        ),
        can_switch && variant is Some ==> ({
            let current = variant->0;
            let target = LayoutVariant {
                family: current.family.next_family_spec(direction),
                ..current
            };
            if target == current {
                switch == LayoutFamilySwitch::Answer(RESULT_OK)
            } else {
                switch == LayoutFamilySwitch::Run {
                    plan: tab_swap_plan(is_base, current, target),
                    move_agent_right: target.agent_state == AgentState::Open,
                }
            }
        }),
{
    if !can_switch {
        return LayoutFamilySwitch::Answer(RESULT_OK);
    }
    let current = match variant {
        Some(current) => current,
        None => {
            return LayoutFamilySwitch::Answer(RESULT_UNKNOWN_LAYOUT);
        },
    };
    let target = current.with_next_family(direction);
    if target == current {
        return LayoutFamilySwitch::Answer(RESULT_OK);
    }
    LayoutFamilySwitch::Run {
        plan: swap_plan_for_tab(is_base, current, target),
        move_agent_right: target.agent_state == AgentState::Open,
    }
}

/// The swap steps that give a tab the agent state `agent_state`; `None` when
/// the tab's variant is unknown.
pub fn plan_agent_state(
    variant: Option<LayoutVariant>,
    is_base: bool,
    agent_state: AgentState,
) -> (plan: Option<SwapLayoutStepPlan>)
    ensures
        match variant {
            Some(current) => plan == Some(
                tab_swap_plan(is_base, current, LayoutVariant { agent_state, ..current }),
            ),
            None => plan is None,
        },
{
    match variant {
        Some(current) => Some(swap_plan_for_tab(is_base, current, current.with_agent_state(agent_state))),
        None => None,
    }
}

/// The swap steps that give a tab the sidebar state `sidebar_state` when it
/// is not in the base layout; `None` when the tab's variant is unknown.
pub fn plan_sidebar_state(
    variant: Option<LayoutVariant>,
    is_base: bool,
    sidebar_state: SidebarState,
) -> (plan: Option<SwapLayoutStepPlan>)
    ensures
        match variant {
            Some(current) => plan == Some(
                tab_swap_plan(is_base, current, LayoutVariant { sidebar_state, ..current }),
            ),
            None => plan is None,
        },
{
    match variant {
        Some(current) => Some(
            swap_plan_for_tab(is_base, current, current.with_sidebar_state(sidebar_state)),
        ),
        None => None,
    }
}

/// In the base layout the variant is read off the panes: the sidebar is
/// closed exactly when its pane is at most two columns wide, and the agent is
/// open when the tab has an agent pane and absent otherwise, whatever the
/// sidebar width. Outside the base layout, or without a sidebar pane, the
/// base layout stands for no variant. A tab in the base layout is in that
/// variant, since `BASE` names no swap layout.
pub proof fn law_base_variant_reads_panes(
    active_swap_layout_name: Option<Seq<char>>,
    sidebar_columns: Option<usize>,
    has_agent: bool,
)
    ensures
        base_variant(active_swap_layout_name, sidebar_columns, has_agent) is Some
            <==> active_swap_layout_name == Some("BASE"@) && sidebar_columns is Some,
        base_variant(active_swap_layout_name, sidebar_columns, has_agent) matches Some(v) ==> v.family
            == LayoutFamily::Single && v.agent_state == (if has_agent {
            AgentState::Open
        } else {
            AgentState::Absent
        }) && v.sidebar_state == (if sidebar_columns->0 <= 2 {
            SidebarState::Closed
        } else {
            SidebarState::Open
        }),
        active_swap_layout_name == Some("BASE"@) ==> tab_variant(
            active_swap_layout_name,
            sidebar_columns,
            has_agent,
        ) == base_variant(active_swap_layout_name, sidebar_columns, has_agent),
{
    reveal_strlit("BASE");
    if active_swap_layout_name == Some("BASE"@) {
        crate::layout_state_contract::lemma_base_names_no_variant();
    }
}

} // verus!
