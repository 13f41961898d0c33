use yazelix_zellij_pane_orchestrator::layout_state_contract::{
    swap_step_plan, swap_step_plan_from_base, AgentState, LayoutFamily, LayoutFamilyDirection,
    LayoutVariant, SidebarState, SwapLayoutStepPlan, SwapStepDirection,
};

#[test]
fn parses_existing_no_agent_layout_names() {
    assert_eq!(
        LayoutVariant::from_layout_name("single_closed"),
        Some(LayoutVariant::new(
            LayoutFamily::Single,
            SidebarState::Closed,
            AgentState::Absent
        ))
    );
}

#[test]
fn parses_agent_layout_names() {
    assert_eq!(
        LayoutVariant::from_layout_name("single_closed_agent_open"),
        Some(LayoutVariant::new(
            LayoutFamily::Single,
            SidebarState::Closed,
            AgentState::Open
        ))
    );
}

#[test]
fn no_agent_sidebar_toggle_is_adjacent() {
    let plan = swap_step_plan(
        LayoutVariant::new(LayoutFamily::Single, SidebarState::Open, AgentState::Absent),
        LayoutVariant::new(
            LayoutFamily::Single,
            SidebarState::Closed,
            AgentState::Absent,
        ),
    )
    .unwrap();

    assert_eq!(
        plan,
        SwapLayoutStepPlan {
            direction: SwapStepDirection::Next,
            steps: 1
        }
    );
}

#[test]
fn agent_visibility_toggle_is_adjacent() {
    let plan = swap_step_plan(
        LayoutVariant::new(LayoutFamily::Single, SidebarState::Open, AgentState::Open),
        LayoutVariant::new(LayoutFamily::Single, SidebarState::Open, AgentState::Closed),
    )
    .unwrap();

    assert_eq!(
        plan,
        SwapLayoutStepPlan {
            direction: SwapStepDirection::Next,
            steps: 1
        }
    );
}

#[test]
fn base_to_agent_layout_counts_from_before_first_swap_layout() {
    let target = LayoutVariant::new(LayoutFamily::Single, SidebarState::Open, AgentState::Open);

    assert_eq!(
        swap_step_plan_from_base(target),
        Some(SwapLayoutStepPlan {
            direction: SwapStepDirection::Next,
            steps: 3
        })
    );
}

#[test]
fn layout_family_switch_is_noop() {
    let current = LayoutVariant::new(LayoutFamily::Single, SidebarState::Closed, AgentState::Open);
    let target = current.with_next_family(LayoutFamilyDirection::Next);

    assert_eq!(target, current);
}

fn all_variants() -> Vec<LayoutVariant> {
    let single = |sidebar_state, agent_state| {
        LayoutVariant::new(LayoutFamily::Single, sidebar_state, agent_state)
    };
    vec![
        single(SidebarState::Open, AgentState::Absent),
        single(SidebarState::Closed, AgentState::Absent),
        single(SidebarState::Open, AgentState::Open),
        single(SidebarState::Open, AgentState::Closed),
        single(SidebarState::Closed, AgentState::Open),
        single(SidebarState::Closed, AgentState::Closed),
    ]
}

#[test]
fn every_layout_name_reads_back() {
    for variant in all_variants() {
        assert_eq!(LayoutVariant::from_layout_name(variant.layout_name()), Some(variant));
    }
    assert_eq!(LayoutVariant::from_layout_name("BASE"), None);
    assert_eq!(LayoutVariant::from_layout_name(" single_open"), None);
}

#[test]
fn shortest_plan_goes_backwards_when_nearer() {
    let open = LayoutVariant::new(LayoutFamily::Single, SidebarState::Open, AgentState::Absent);
    let closed_closed =
        LayoutVariant::new(LayoutFamily::Single, SidebarState::Closed, AgentState::Closed);
    assert_eq!(
        swap_step_plan(open, closed_closed),
        Some(SwapLayoutStepPlan {
            direction: SwapStepDirection::Previous,
            steps: 1
        })
    );
    let open_open = LayoutVariant::new(LayoutFamily::Single, SidebarState::Open, AgentState::Open);
    assert_eq!(
        swap_step_plan(open, LayoutVariant::new(LayoutFamily::Single, SidebarState::Open, AgentState::Closed)),
        Some(SwapLayoutStepPlan {
            direction: SwapStepDirection::Next,
            steps: 3
        })
    );
    assert_eq!(
        swap_step_plan(open_open, open_open),
        Some(SwapLayoutStepPlan {
            direction: SwapStepDirection::Next,
            steps: 0
        })
    );
}

#[test]
fn every_plan_lands_on_its_target() {
    let variants = all_variants();
    let index = |v: LayoutVariant| variants.iter().position(|c| *c == v).unwrap() as i64;
    for current in &variants {
        for target in &variants {
            let plan = swap_step_plan(*current, *target).unwrap();
            assert!(plan.steps <= 3);
            let signed = match plan.direction {
                SwapStepDirection::Next => plan.steps as i64,
                SwapStepDirection::Previous => -(plan.steps as i64),
            };
            assert_eq!((index(*current) + signed).rem_euclid(6), index(*target));
        }
    }
}

#[test]
fn variant_accessors_and_setters() {
    let variant = LayoutVariant::new(LayoutFamily::Single, SidebarState::Closed, AgentState::Absent);
    assert!(variant.is_sidebar_closed());
    assert_eq!(variant.agent_is_closed(), None);
    let with_agent = variant.with_agent_state(AgentState::Closed);
    assert_eq!(with_agent.agent_is_closed(), Some(true));
    assert_eq!(with_agent.layout_name(), "single_closed_agent_closed");
    let opened = with_agent.with_sidebar_state(SidebarState::Open);
    assert!(!opened.is_sidebar_closed());
    assert_eq!(opened.with_agent_state(AgentState::Open).agent_is_closed(), Some(false));
    assert_eq!(opened.with_sidebar_state(SidebarState::Closed), with_agent);
}
