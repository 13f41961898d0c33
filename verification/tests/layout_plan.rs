use yazelix_zellij_pane_orchestrator::layout_plan::{
    active_layout_is_base, active_layout_is_collapsed_base, base_layout_sidebar_is_closed,
    base_layout_variant, can_switch_layout_family, layout_variant_for_tab, plan_agent_state,
    plan_layout_family_switch, plan_sidebar_state, swap_plan_for_tab, LayoutFamilySwitch,
};
use yazelix_zellij_pane_orchestrator::layout_state_contract::{
    AgentState, LayoutFamily, LayoutFamilyDirection, LayoutVariant, SidebarState,
    SwapLayoutStepPlan, SwapStepDirection,
};
use yazelix_zellij_pane_orchestrator::plugin_pipe::{RESULT_OK, RESULT_UNKNOWN_LAYOUT};

fn single(sidebar_state: SidebarState, agent_state: AgentState) -> LayoutVariant {
    LayoutVariant::new(LayoutFamily::Single, sidebar_state, agent_state)
}

#[test]
fn base_layout_is_recognised_by_name() {
    assert!(active_layout_is_base(Some("BASE")));
    assert!(!active_layout_is_base(Some("single_open")));
    assert!(!active_layout_is_base(None));
}

#[test]
fn base_sidebar_width_decides_its_state() {
    assert_eq!(base_layout_sidebar_is_closed(Some("BASE"), Some(2)), Some(true));
    assert_eq!(base_layout_sidebar_is_closed(Some("BASE"), Some(3)), Some(false));
    assert_eq!(base_layout_sidebar_is_closed(Some("BASE"), None), None);
    assert_eq!(base_layout_sidebar_is_closed(Some("single_open"), Some(2)), None);
    assert!(active_layout_is_collapsed_base(Some("BASE"), Some(1)));
    assert!(!active_layout_is_collapsed_base(Some("BASE"), Some(30)));
}

#[test]
fn tab_variant_comes_from_the_swap_layout_then_the_base_layout() {
    assert_eq!(
        layout_variant_for_tab(Some("single_closed_agent_open"), Some(30), false),
        Some(single(SidebarState::Closed, AgentState::Open))
    );
    assert_eq!(
        layout_variant_for_tab(Some("BASE"), Some(30), true),
        Some(single(SidebarState::Open, AgentState::Open))
    );
    assert_eq!(
        base_layout_variant(Some("BASE"), Some(2), false),
        Some(single(SidebarState::Closed, AgentState::Absent))
    );
    assert_eq!(layout_variant_for_tab(Some("mystery"), Some(30), false), None);
    assert_eq!(layout_variant_for_tab(None, Some(30), false), None);
}

#[test]
fn family_switch_needs_enough_panes() {
    assert!(!can_switch_layout_family(1, false, false));
    assert!(can_switch_layout_family(2, false, false));
    assert!(!can_switch_layout_family(2, true, false));
    assert!(can_switch_layout_family(3, true, false));
    assert!(!can_switch_layout_family(3, true, true));
    assert!(can_switch_layout_family(4, true, true));
}

#[test]
fn family_switch_with_one_family_only_answers() {
    let variant = single(SidebarState::Open, AgentState::Absent);
    assert_eq!(
        plan_layout_family_switch(false, Some(variant), false, LayoutFamilyDirection::Next),
        LayoutFamilySwitch::Answer(RESULT_OK)
    );
    assert_eq!(
        plan_layout_family_switch(true, None, false, LayoutFamilyDirection::Next),
        LayoutFamilySwitch::Answer(RESULT_UNKNOWN_LAYOUT)
    );
    assert_eq!(
        plan_layout_family_switch(true, Some(variant), false, LayoutFamilyDirection::Previous),
        LayoutFamilySwitch::Answer(RESULT_OK)
    );
}

#[test]
fn swap_plans_count_from_base_or_go_the_short_way() {
    let open = single(SidebarState::Open, AgentState::Absent);
    let closed_agent = single(SidebarState::Closed, AgentState::Closed);
    assert_eq!(
        swap_plan_for_tab(true, open, closed_agent),
        SwapLayoutStepPlan {
            direction: SwapStepDirection::Next,
            steps: 6
        }
    );
    assert_eq!(
        swap_plan_for_tab(false, open, closed_agent),
        SwapLayoutStepPlan {
            direction: SwapStepDirection::Previous,
            steps: 1
        }
    );
    assert_eq!(
        plan_agent_state(Some(open), false, AgentState::Open),
        Some(SwapLayoutStepPlan {
            direction: SwapStepDirection::Next,
            steps: 2
        })
    );
    assert_eq!(plan_agent_state(None, false, AgentState::Open), None);
    assert_eq!(
        plan_sidebar_state(Some(open), false, SidebarState::Closed),
        Some(SwapLayoutStepPlan {
            direction: SwapStepDirection::Next,
            steps: 1
        })
    );
    assert_eq!(plan_sidebar_state(None, true, SidebarState::Closed), None);
}
