use vstd::prelude::*;

use crate::text::str_equal;

verus! {

/// Direction of a layout-family switch.
#[derive(Clone, Copy, Debug, PartialEq, Eq, Structural)]
pub enum LayoutFamilyDirection {
    Next,
    Previous,
}

/// Direction of swap-layout steps.
#[derive(Clone, Copy, Debug, PartialEq, Eq, Structural)]
pub enum SwapStepDirection {
    Next,
    Previous,
}

/// How many swap-layout steps to take, and which way.
#[derive(Clone, Copy, Debug, PartialEq, Eq, Structural)]
pub struct SwapLayoutStepPlan {
    pub direction: SwapStepDirection,
    pub steps: usize,
}

/// Layout family; one family remains.
#[derive(Clone, Copy, Debug, PartialEq, Eq, Structural)]
pub enum LayoutFamily {
    Single,
}

/// Whether the left sidebar is open.
#[derive(Clone, Copy, Debug, PartialEq, Eq, Structural)]
pub enum SidebarState {
    Open,
    Closed,
}

/// Whether the right agent sidebar exists, and whether it is open.
#[derive(Clone, Copy, Debug, PartialEq, Eq, Structural)]
pub enum AgentState {
    Absent,
    Open,
    Closed,
}

/// One swap layout: family, left-sidebar state and agent state.
#[derive(Clone, Copy, Debug, PartialEq, Eq, Structural)]
pub struct LayoutVariant {
    pub family: LayoutFamily,
    pub sidebar_state: SidebarState,
    pub agent_state: AgentState,
}

/// Number of swap layouts in the cycle.
pub const LAYOUT_COUNT: usize = 6;

/// Position of a variant in the swap-layout cycle: the no-agent pair first
/// (open, closed), then the agent layouts (open/open, open/closed,
/// closed/open, closed/closed).
pub open spec fn layout_index(variant: LayoutVariant) -> int {
    match (variant.sidebar_state, variant.agent_state) {
        (SidebarState::Open, AgentState::Absent) => 0,
        (SidebarState::Closed, AgentState::Absent) => 1,
        (SidebarState::Open, AgentState::Open) => 2,
        (SidebarState::Open, AgentState::Closed) => 3,
        (SidebarState::Closed, AgentState::Open) => 4,
        (SidebarState::Closed, AgentState::Closed) => 5,
    }
}

/// The variant at position `index` of the cycle.
pub open spec fn layout_at(index: int) -> LayoutVariant {
    let (sidebar_state, agent_state) = if index == 0 {
        (SidebarState::Open, AgentState::Absent)
    } else if index == 1 {
        (SidebarState::Closed, AgentState::Absent)
    } else if index == 2 {
        (SidebarState::Open, AgentState::Open)
    } else if index == 3 {
        (SidebarState::Open, AgentState::Closed)
    } else if index == 4 {
        (SidebarState::Closed, AgentState::Open)
    } else {
        (SidebarState::Closed, AgentState::Closed)
    };
    LayoutVariant { family: LayoutFamily::Single, sidebar_state, agent_state }
}

/// The swap-layout name of a variant.
pub open spec fn layout_name_of(variant: LayoutVariant) -> Seq<char> {
    match (variant.sidebar_state, variant.agent_state) {
        (SidebarState::Open, AgentState::Absent) => "single_open"@,
        (SidebarState::Closed, AgentState::Absent) => "single_closed"@,
        (SidebarState::Open, AgentState::Open) => "single_open_agent_open"@,
        (SidebarState::Open, AgentState::Closed) => "single_open_agent_closed"@,
        (SidebarState::Closed, AgentState::Open) => "single_closed_agent_open"@,
        (SidebarState::Closed, AgentState::Closed) => "single_closed_agent_closed"@,
    }
}

/// The first variant of the cycle whose name is `name`, if any.
pub open spec fn variant_named(name: Seq<char>) -> Option<LayoutVariant> {
    if name == layout_name_of(layout_at(0)) {
        Some(layout_at(0))
    } else if name == layout_name_of(layout_at(1)) {
        Some(layout_at(1))
    } else if name == layout_name_of(layout_at(2)) {
        Some(layout_at(2))
    } else if name == layout_name_of(layout_at(3)) {
        Some(layout_at(3))
    } else if name == layout_name_of(layout_at(4)) {
        Some(layout_at(4))
    } else if name == layout_name_of(layout_at(5)) {
        Some(layout_at(5))
    } else {
        None
    }
}

/// Steps from position `from` to position `to` going forward round the cycle.
pub open spec fn forward_steps(from: int, to: int) -> int {
    if to >= from {
        to - from
    } else {
        LAYOUT_COUNT - from + to
    }
}

/// The plan that moves from `current` to `target` in the fewest steps,
/// preferring forward steps on a tie.
pub open spec fn shortest_swap_plan(current: LayoutVariant, target: LayoutVariant) -> SwapLayoutStepPlan {
    let next_steps = forward_steps(layout_index(current), layout_index(target));
    let previous_steps = forward_steps(layout_index(target), layout_index(current));
    if next_steps <= previous_steps {
        SwapLayoutStepPlan { direction: SwapStepDirection::Next, steps: next_steps as usize }
    } else {
        SwapLayoutStepPlan { direction: SwapStepDirection::Previous, steps: previous_steps as usize }
    }
}

/// Position reached from position `from` after following `plan`.
pub open spec fn position_after(from: int, plan: SwapLayoutStepPlan) -> int {
    match plan.direction {
        SwapStepDirection::Next => (from + plan.steps) % (LAYOUT_COUNT as int),
        SwapStepDirection::Previous => (from - plan.steps) % (LAYOUT_COUNT as int),
    }
}

impl LayoutVariant {
    /// The variant with the given parts.
    pub fn new(
        family: LayoutFamily,
        sidebar_state: SidebarState,
        agent_state: AgentState,
    ) -> (variant: Self)
        ensures
            variant == (LayoutVariant { family, sidebar_state, agent_state }),
    {
        Self { family, sidebar_state, agent_state }
    }

    /// The swap-layout name of this variant.
    pub fn layout_name(self) -> (name: &'static str)
        ensures
            name@ == layout_name_of(self),
    {
        match (self.family, self.sidebar_state, self.agent_state) {
            (LayoutFamily::Single, SidebarState::Open, AgentState::Absent) => "single_open",
            (LayoutFamily::Single, SidebarState::Closed, AgentState::Absent) => "single_closed",
            (LayoutFamily::Single, SidebarState::Open, AgentState::Open) => "single_open_agent_open",
            (LayoutFamily::Single, SidebarState::Open, AgentState::Closed) => {
                "single_open_agent_closed"
            },
            (LayoutFamily::Single, SidebarState::Closed, AgentState::Open) => {
                "single_closed_agent_open"
            },
            (LayoutFamily::Single, SidebarState::Closed, AgentState::Closed) => {
                "single_closed_agent_closed"
            },
        }
    }

    /// The variant of the cycle with the given swap-layout name.
    pub fn from_layout_name(layout_name: &str) -> (variant: Option<Self>)
        ensures
            variant == variant_named(layout_name@),
    {
        let mut index: usize = 0;
        while index < LAYOUT_COUNT
            invariant
                index <= LAYOUT_COUNT,
                forall|k: int| 0 <= k < index ==> layout_name@ != layout_name_of(layout_at(k)),
            decreases LAYOUT_COUNT - index,
        {
            let candidate = layout_at_index(index);
            if str_equal(candidate.layout_name(), layout_name) {
                return Some(candidate);
            }
            index = index + 1;
        }
        None
    }

    /// Whether the left sidebar is closed.
    pub fn is_sidebar_closed(self) -> (closed: bool)
        ensures
            closed == (self.sidebar_state == SidebarState::Closed),
    {
        self.sidebar_state == SidebarState::Closed
    }

    /// Whether the agent sidebar is closed; `None` when there is no agent.
    pub fn agent_is_closed(self) -> (closed: Option<bool>)
        ensures
            closed == match self.agent_state {
                AgentState::Absent => None,
                AgentState::Open => Some(false),
                AgentState::Closed => Some(true),
            },
    {
        match self.agent_state {
            AgentState::Absent => None,
            AgentState::Open => Some(false),
            AgentState::Closed => Some(true),
        }
    }

    /// This variant with the given sidebar state.
    pub fn with_sidebar_state(self, sidebar_state: SidebarState) -> (variant: Self)
        ensures
            variant == (LayoutVariant { sidebar_state, ..self }),
    {
        Self { sidebar_state, ..self }
    }

    /// This variant with the given agent state.
    pub fn with_agent_state(self, agent_state: AgentState) -> (variant: Self)
        ensures
            variant == (LayoutVariant { agent_state, ..self }),
    {
        Self { agent_state, ..self }
    }

    /// This variant in the next family toward `direction`; with a single
    /// family that is the variant itself.
    pub fn with_next_family(self, direction: LayoutFamilyDirection) -> (variant: Self)
        ensures
            variant == (LayoutVariant { family: self.family.next_family_spec(direction), ..self }),
            variant == self,
    {
        Self { family: self.family.next(direction), ..self }
    }
}

impl LayoutFamily {
    /// The family after this one toward `direction`.
    pub open spec fn next_family_spec(self, direction: LayoutFamilyDirection) -> LayoutFamily {
        self
    }

    fn next(self, direction: LayoutFamilyDirection) -> (family: Self)
        ensures
            family == self.next_family_spec(direction),
    {
        self
    }
}

/// The variant at position `index` of the cycle.
fn layout_at_index(index: usize) -> (variant: LayoutVariant)
    requires
        index < LAYOUT_COUNT,
    ensures
        variant == layout_at(index as int),
        layout_index(variant) == index,
{
    let (sidebar_state, agent_state) = if index == 0 {
        (SidebarState::Open, AgentState::Absent)
    } else if index == 1 {
        (SidebarState::Closed, AgentState::Absent)
    } else if index == 2 {
        (SidebarState::Open, AgentState::Open)
    } else if index == 3 {
        (SidebarState::Open, AgentState::Closed)
    } else if index == 4 {
        (SidebarState::Closed, AgentState::Open)
    } else {
        (SidebarState::Closed, AgentState::Closed)
    };
    LayoutVariant { family: LayoutFamily::Single, sidebar_state, agent_state }
}

/// Position of `variant` in the swap-layout cycle.
fn layout_order_index(variant: LayoutVariant) -> (index: Option<usize>)
    ensures
        index == Some(layout_index(variant) as usize),
{
    let index: usize = match (variant.sidebar_state, variant.agent_state) {
        (SidebarState::Open, AgentState::Absent) => 0,
        (SidebarState::Closed, AgentState::Absent) => 1,
        (SidebarState::Open, AgentState::Open) => 2,
        (SidebarState::Open, AgentState::Closed) => 3,
        (SidebarState::Closed, AgentState::Open) => 4,
        (SidebarState::Closed, AgentState::Closed) => 5,
    };
    Some(index)
}

/// Plans the swap-layout steps from `current` to `target` round the cycle,
/// taking the shorter way and going forward on a tie.
pub fn swap_step_plan(
    current: LayoutVariant,
    target: LayoutVariant,
) -> (plan: Option<SwapLayoutStepPlan>)
    ensures
        plan == Some(shortest_swap_plan(current, target)),
{
    let current_index = layout_order_index(current).unwrap();
    let target_index = layout_order_index(target).unwrap();
    let layout_count = LAYOUT_COUNT;
    let next_steps = if target_index >= current_index {
        target_index - current_index
    } else {
        layout_count - current_index + target_index
    };
    let previous_steps = if current_index >= target_index {
        current_index - target_index
    } else {
        current_index + layout_count - target_index
    };

    if next_steps <= previous_steps {
        Some(SwapLayoutStepPlan { direction: SwapStepDirection::Next, steps: next_steps })
    } else {
        Some(SwapLayoutStepPlan { direction: SwapStepDirection::Previous, steps: previous_steps })
    }
}

/// Plans the steps from the `BASE` layout, which sits just before the first
/// swap layout of the cycle.
pub fn swap_step_plan_from_base(target: LayoutVariant) -> (plan: Option<SwapLayoutStepPlan>)
    ensures
        plan == Some(
            SwapLayoutStepPlan {
                direction: SwapStepDirection::Next,
                steps: (layout_index(target) + 1) as usize,
            },
        ),
{
    let index = layout_order_index(target).unwrap();
    Some(SwapLayoutStepPlan { direction: SwapStepDirection::Next, steps: index + 1 })
}

/// Every variant's swap-layout name reads back as that variant.
pub proof fn law_layout_name_round_trip(variant: LayoutVariant)
    ensures
        variant_named(layout_name_of(variant)) == Some(variant),
{
    reveal_strlit("single_open");
    reveal_strlit("single_closed");
    reveal_strlit("single_open_agent_open");
    reveal_strlit("single_open_agent_closed");
    reveal_strlit("single_closed_agent_open");
    reveal_strlit("single_closed_agent_closed");
    assert("single_open"@.len() == 11);
    assert("single_closed"@.len() == 13);
    assert("single_open_agent_open"@.len() == 22);
    assert("single_open_agent_closed"@.len() == 24);
    assert("single_closed_agent_open"@.len() == 24);
    assert("single_closed_agent_closed"@.len() == 26);
    assert("single_open_agent_closed"@[7] != "single_closed_agent_open"@[7]);
}

/// Following the planned swap steps from `current` lands on `target`, in at
/// most half the cycle, and no way round the cycle is shorter.
pub proof fn law_swap_plan_reaches_target(current: LayoutVariant, target: LayoutVariant)
    ensures
        position_after(layout_index(current), shortest_swap_plan(current, target))
            == layout_index(target),
        shortest_swap_plan(current, target).steps <= LAYOUT_COUNT / 2,
        shortest_swap_plan(current, target).steps <= forward_steps(
            layout_index(current),
            layout_index(target),
        ),
        shortest_swap_plan(current, target).steps <= forward_steps(
            layout_index(target),
            layout_index(current),
        ),
{
}

/// From `BASE`, which sits just before the first swap layout, the planned
/// forward steps land on `target`.
pub proof fn law_base_plan_reaches_target(target: LayoutVariant)
    ensures
        position_after(-1, SwapLayoutStepPlan {
            direction: SwapStepDirection::Next,
            steps: (layout_index(target) + 1) as usize,
        }) == layout_index(target),
{
}

/// Once the agent exists, hiding or showing it is a single forward swap step,
/// and so is opening or closing the sidebar while there is no agent.
pub proof fn law_visibility_toggles_are_one_step(variant: LayoutVariant)
    ensures
        variant.agent_state == AgentState::Open ==> shortest_swap_plan(
            variant,
            LayoutVariant { agent_state: AgentState::Closed, ..variant },
        ) == (SwapLayoutStepPlan { direction: SwapStepDirection::Next, steps: 1 }),
        variant.agent_state == AgentState::Absent && variant.sidebar_state == SidebarState::Open
            ==> shortest_swap_plan(
            variant,
            LayoutVariant { sidebar_state: SidebarState::Closed, ..variant },
        ) == (SwapLayoutStepPlan { direction: SwapStepDirection::Next, steps: 1 }),
{
}

/// `BASE` names no swap layout.
pub proof fn lemma_base_names_no_variant()
    ensures
        variant_named("BASE"@) is None,
{
    reveal_strlit("BASE");
    assert("BASE"@.len() == 4);
    reveal_strlit("single_open");
    assert("single_open"@.len() == 11);
    reveal_strlit("single_closed");
    assert("single_closed"@.len() == 13);
    reveal_strlit("single_open_agent_open");
    assert("single_open_agent_open"@.len() == 22);
    reveal_strlit("single_open_agent_closed");
    assert("single_open_agent_closed"@.len() == 24);
    reveal_strlit("single_closed_agent_open");
    assert("single_closed_agent_open"@.len() == 24);
    reveal_strlit("single_closed_agent_closed");
    assert("single_closed_agent_closed"@.len() == 26);
}

} // verus!
