use vstd::prelude::*;
use vstd::std_specs::cmp::PartialEqSpec;

use crate::text::{str_equal, trim, trim_str};

verus! {

/// Direction of a horizontal focus move.
#[derive(Clone, Copy, Debug, PartialEq, Eq, Structural)]
pub enum HorizontalDirection {
    Left,
    Right,
}

/// The part a pane plays in horizontal focus walking.
#[derive(Clone, Copy, Debug, PartialEq, Eq, Structural)]
pub enum HorizontalPaneRole {
    Sidebar,
    Agent,
    Other,
}

/// `Some(*r)` for `Some(r)`.
pub open spec fn opt_deref<Id>(id: Option<&Id>) -> Option<Id> {
    match id {
        Some(r) => Some(*r),
        None => None,
    }
}

/// `id` is `Some(m)` with `m == pane_id` by `Id`'s equality.
pub open spec fn is_managed_id<Id: PartialEq>(id: Option<Id>, pane_id: Id) -> bool {
    match id {
        Some(m) => m.eq_spec(&pane_id),
        None => false,
    }
}

/// The role of a pane: the managed sidebar and agent ids decide first; an
/// unmanaged pane is named by its trimmed title, `sidebar` or `agent`.
pub open spec fn pane_role<Id: PartialEq>(
    pane_id: Id,
    pane_title: Seq<char>,
    sidebar_pane_id: Option<Id>,
    agent_pane_id: Option<Id>,
) -> HorizontalPaneRole {
    if is_managed_id(sidebar_pane_id, pane_id) {
        HorizontalPaneRole::Sidebar
    } else if is_managed_id(agent_pane_id, pane_id) {
        HorizontalPaneRole::Agent
    } else if trim(pane_title) == "sidebar"@ {
        HorizontalPaneRole::Sidebar
    } else if trim(pane_title) == "agent"@ {
        HorizontalPaneRole::Agent
    } else {
        HorizontalPaneRole::Other
    }
}

/// Classifies a pane for horizontal focus walking; managed pane identity wins
/// over whatever the title says.
pub fn horizontal_role_for_pane<Id: PartialEq>(
    pane_id: &Id,
    pane_title: &str,
    sidebar_pane_id: Option<&Id>,
    agent_pane_id: Option<&Id>,
) -> (role: HorizontalPaneRole)
    ensures
        Id::obeys_eq_spec() ==> role == pane_role(
            *pane_id,
            pane_title@,
            opt_deref(sidebar_pane_id),
            opt_deref(agent_pane_id),
        ),
{
    if let Some(sidebar) = sidebar_pane_id {
        if sidebar.eq(pane_id) {
            return HorizontalPaneRole::Sidebar;
        }
    }
    if let Some(agent) = agent_pane_id {
        if agent.eq(pane_id) {
            return HorizontalPaneRole::Agent;
        }
    }
    let title = trim_str(pane_title);
    if str_equal(title, "sidebar") {
        HorizontalPaneRole::Sidebar
    } else if str_equal(title, "agent") {
        HorizontalPaneRole::Agent
    } else {
        HorizontalPaneRole::Other
    }
}

/// Geometry and state of one pane of the active tab.
#[derive(Clone, Copy, Debug, PartialEq, Eq, Structural)]
pub struct HorizontalPaneSnapshot {
    pub role: HorizontalPaneRole,
    pub is_plugin: bool,
    pub exited: bool,
    pub is_focused: bool,
    pub pane_x: usize,
    pub pane_y: usize,
    pub pane_columns: usize,
    pub pane_rows: usize,
}

/// Where a horizontal focus move goes.
#[derive(Clone, Copy, Debug, PartialEq, Eq, Structural)]
pub enum HorizontalFocusPlan {
    FocusPane(usize),
    PreviousTab,
    NextTab,
    MissingFocusedPane,
}

/// A live terminal pane that holds focus.
pub open spec fn is_focus_source(pane: HorizontalPaneSnapshot) -> bool {
    !pane.is_plugin && !pane.exited && pane.is_focused
}

/// Index of the first focused live terminal pane, or `panes.len()` when none.
pub open spec fn first_focus_source(panes: Seq<HorizontalPaneSnapshot>) -> int
    decreases panes.len(),
{
    if panes.len() == 0 {
        0
    } else if is_focus_source(panes[0]) {
        0
    } else {
        1 + first_focus_source(panes.drop_first())
    }
}

/// A live terminal pane that is not a closed sidebar or a closed agent.
pub open spec fn is_walkable(
    pane: HorizontalPaneSnapshot,
    sidebar_is_closed: bool,
    agent_is_closed: bool,
) -> bool {
    &&& !pane.is_plugin
    &&& !pane.exited
    &&& !(sidebar_is_closed && pane.role == HorizontalPaneRole::Sidebar)
    &&& !(agent_is_closed && pane.role == HorizontalPaneRole::Agent)
}

/// Right edge of a pane.
pub open spec fn right_edge(pane: HorizontalPaneSnapshot) -> int {
    pane.pane_x + pane.pane_columns
}

/// Bottom edge of a pane.
pub open spec fn bottom_edge(pane: HorizontalPaneSnapshot) -> int {
    pane.pane_y + pane.pane_rows
}

/// Rows that two panes share (zero when they share none).
pub open spec fn vertical_overlap(a: HorizontalPaneSnapshot, b: HorizontalPaneSnapshot) -> int {
    let top = if a.pane_y >= b.pane_y {
        a.pane_y as int
    } else {
        b.pane_y as int
    };
    let bottom = if bottom_edge(a) <= bottom_edge(b) {
        bottom_edge(a)
    } else {
        bottom_edge(b)
    };
    if bottom > top {
        bottom - top
    } else {
        0
    }
}

/// `pane` lies wholly on the `direction` side of `focused`.
pub open spec fn lies_toward(
    focused: HorizontalPaneSnapshot,
    pane: HorizontalPaneSnapshot,
    direction: HorizontalDirection,
) -> bool {
    match direction {
        HorizontalDirection::Left => right_edge(pane) <= focused.pane_x,
        HorizontalDirection::Right => pane.pane_x >= right_edge(focused),
    }
}

/// Columns between `focused` and a pane that lies toward `direction`.
pub open spec fn edge_distance(
    focused: HorizontalPaneSnapshot,
    pane: HorizontalPaneSnapshot,
    direction: HorizontalDirection,
) -> int {
    match direction {
        HorizontalDirection::Left => focused.pane_x - right_edge(pane),
        HorizontalDirection::Right => pane.pane_x - right_edge(focused),
    }
}

/// Pane `i` is a target for a move from pane `f` toward `direction`: another
/// walkable pane that shares rows with it and lies on that side.
pub open spec fn is_focus_candidate(
    panes: Seq<HorizontalPaneSnapshot>,
    f: int,
    i: int,
    direction: HorizontalDirection,
    sidebar_is_closed: bool,
    agent_is_closed: bool,
) -> bool {
    &&& 0 <= i < panes.len()
    &&& i != f
    &&& is_walkable(panes[i], sidebar_is_closed, agent_is_closed)
    &&& vertical_overlap(panes[f], panes[i]) > 0
    &&& lies_toward(panes[f], panes[i], direction)
}

/// Candidate `i` ranks strictly before candidate `j`: nearer, or as near and
/// sharing more rows.
pub open spec fn ranks_before(
    panes: Seq<HorizontalPaneSnapshot>,
    f: int,
    i: int,
    j: int,
    direction: HorizontalDirection,
) -> bool {
    let di = edge_distance(panes[f], panes[i], direction);
    let dj = edge_distance(panes[f], panes[j], direction);
    di < dj || (di == dj && vertical_overlap(panes[f], panes[i]) > vertical_overlap(
        panes[f],
        panes[j],
    ))
}

/// `b` is the target of the move: a candidate that no candidate ranks before,
/// and that ranks strictly before every earlier candidate.
pub open spec fn is_best_focus_candidate(
    panes: Seq<HorizontalPaneSnapshot>,
    f: int,
    b: int,
    direction: HorizontalDirection,
    sidebar_is_closed: bool,
    agent_is_closed: bool,
) -> bool {
    &&& is_focus_candidate(panes, f, b, direction, sidebar_is_closed, agent_is_closed)
    &&& forall|j: int|
        is_focus_candidate(panes, f, j, direction, sidebar_is_closed, agent_is_closed)
            ==> !ranks_before(panes, f, j, b, direction)
    &&& forall|j: int|
        0 <= j < b && is_focus_candidate(
            panes,
            f,
            j,
            direction,
            sidebar_is_closed,
            agent_is_closed,
        ) ==> ranks_before(panes, f, b, j, direction)
}

/// No pane is a target for the move.
pub open spec fn has_no_focus_candidate(
    panes: Seq<HorizontalPaneSnapshot>,
    f: int,
    direction: HorizontalDirection,
    sidebar_is_closed: bool,
    agent_is_closed: bool,
) -> bool {
    forall|j: int| !is_focus_candidate(panes, f, j, direction, sidebar_is_closed, agent_is_closed)
}

/// The edges of a pane fit in `usize`.
pub open spec fn pane_extent_fits(pane: HorizontalPaneSnapshot) -> bool {
    right_edge(pane) <= usize::MAX && bottom_edge(pane) <= usize::MAX
}

/// `first_focus_source` lies in `0..=len`, names a focus source when below
/// `len`, and no pane before it is one.
pub proof fn lemma_first_focus_source(panes: Seq<HorizontalPaneSnapshot>)
    ensures
        0 <= first_focus_source(panes) <= panes.len(),
        first_focus_source(panes) < panes.len() ==> is_focus_source(
            panes[first_focus_source(panes)],
        ),
        forall|k: int| 0 <= k < first_focus_source(panes) ==> !is_focus_source(#[trigger] panes[k]),
    decreases panes.len(),
{
    if panes.len() > 0 && !is_focus_source(panes[0]) {
        lemma_first_focus_source(panes.drop_first());
        assert forall|k: int| 0 <= k < first_focus_source(panes) implies !is_focus_source(
            #[trigger] panes[k],
        ) by {
            if k > 0 {
                assert(panes[k] == panes.drop_first()[k - 1]);
            }
        }
    }
}

/// Plans a horizontal focus move from the focused pane: the nearest walkable
/// pane on that side that shares rows with it (ties go to more shared rows,
/// then to the earlier pane); with none, the neighbouring tab on that side.
pub fn resolve_horizontal_focus(
    panes: &[HorizontalPaneSnapshot],
    direction: HorizontalDirection,
    sidebar_is_closed: bool,
    agent_is_closed: bool,
) -> (plan: HorizontalFocusPlan)
    requires
        first_focus_source(panes@) < panes@.len() ==> pane_extent_fits(
            panes@[first_focus_source(panes@)],
        ),
        forall|i: int|
            0 <= i < panes@.len() && is_walkable(#[trigger] panes@[i], sidebar_is_closed, agent_is_closed)
                ==> pane_extent_fits(panes@[i]),
    ensures
        first_focus_source(panes@) == panes@.len() ==> plan == HorizontalFocusPlan::MissingFocusedPane,
        first_focus_source(panes@) < panes@.len() ==> match plan {
            HorizontalFocusPlan::FocusPane(b) => is_best_focus_candidate(
                panes@,
                first_focus_source(panes@),
                b as int,
                direction,
                sidebar_is_closed,
                agent_is_closed,
            ),
            HorizontalFocusPlan::PreviousTab => direction == HorizontalDirection::Left
                && has_no_focus_candidate(
                panes@,
                first_focus_source(panes@),
                direction,
                sidebar_is_closed,
                agent_is_closed,
            ),
            HorizontalFocusPlan::NextTab => direction == HorizontalDirection::Right
                && has_no_focus_candidate(
                panes@,
                first_focus_source(panes@),
                direction,
                sidebar_is_closed,
                agent_is_closed,
            ),
            HorizontalFocusPlan::MissingFocusedPane => false,
        },
{
    proof {
        lemma_first_focus_source(panes@);
    }
    let n = panes.len();
    let mut f: usize = 0;
    while f < n && !(!panes[f].is_plugin && !panes[f].exited && panes[f].is_focused)
        invariant
            n == panes@.len(),
            f <= first_focus_source(panes@) <= n,
            first_focus_source(panes@) < n ==> is_focus_source(panes@[first_focus_source(panes@)]),
            forall|k: int|
                0 <= k < first_focus_source(panes@) ==> !is_focus_source(#[trigger] panes@[k]),
        decreases n - f,
    {
        f = f + 1;
    }
    if f == n {
        return HorizontalFocusPlan::MissingFocusedPane;
    }
    assert(f == first_focus_source(panes@));
    let focused = panes[f];
    let current_left = focused.pane_x;
    let current_right = focused.pane_x + focused.pane_columns;
    let current_top = focused.pane_y;
    let current_bottom = focused.pane_y + focused.pane_rows;

    let ghost fi = f as int;
    let mut best: Option<(usize, usize, usize)> = None;
    let mut i: usize = 0;
    while i < n
        invariant
            n == panes@.len(),
            0 <= fi < n,
            fi == f,
            focused == panes@[fi],
            current_left == focused.pane_x,
            current_right == right_edge(focused),
            current_top == focused.pane_y,
            current_bottom == bottom_edge(focused),
            i <= n,
            forall|k: int|
                0 <= k < panes@.len() && is_walkable(#[trigger] panes@[k], sidebar_is_closed, agent_is_closed)
                    ==> pane_extent_fits(panes@[k]),
            best is None ==> forall|j: int|
                0 <= j < i ==> !is_focus_candidate(
                    panes@,
                    fi,
                    j,
                    direction,
                    sidebar_is_closed,
                    agent_is_closed,
                ),
            best matches Some((b, d, o)) ==> {
                &&& b < i
                &&& is_focus_candidate(
                    panes@,
                    fi,
                    b as int,
                    direction,
                    sidebar_is_closed,
                    agent_is_closed,
                )
                &&& d == edge_distance(focused, panes@[b as int], direction)
                &&& o == vertical_overlap(focused, panes@[b as int])
                &&& forall|j: int|
                    0 <= j < i && is_focus_candidate(
                        panes@,
                        fi,
                        j,
                        direction,
                        sidebar_is_closed,
                        agent_is_closed,
                    ) ==> !ranks_before(panes@, fi, j, b as int, direction)
                &&& forall|j: int|
                    0 <= j < b && is_focus_candidate(
                        panes@,
                        fi,
                        j,
                        direction,
                        sidebar_is_closed,
                        agent_is_closed,
                    ) ==> ranks_before(panes@, fi, b as int, j, direction)
            },
        decreases n - i,
    {
        let pane = panes[i];
        let walkable = i != f && !pane.is_plugin && !pane.exited && !(sidebar_is_closed
            && pane.role == HorizontalPaneRole::Sidebar) && !(agent_is_closed && pane.role
            == HorizontalPaneRole::Agent);
        if walkable {
            assert(is_walkable(panes@[i as int], sidebar_is_closed, agent_is_closed));
            let candidate_left = pane.pane_x;
            let candidate_right = pane.pane_x + pane.pane_columns;
            let overlap_top = if current_top >= pane.pane_y {
                current_top
            } else {
                pane.pane_y
            };
            let candidate_bottom = pane.pane_y + pane.pane_rows;
            let overlap_bottom = if current_bottom <= candidate_bottom {
                current_bottom
            } else {
                candidate_bottom
            };
            let overlap = if overlap_bottom > overlap_top {
                overlap_bottom - overlap_top
            } else {
                0
            };
            assert(overlap == vertical_overlap(focused, pane));
            if overlap > 0 {
                let distance: Option<usize> = match direction {
                    HorizontalDirection::Left => if candidate_right <= current_left {
                        Some(current_left - candidate_right)
                    } else {
                        None
                    },
                    HorizontalDirection::Right => if candidate_left >= current_right {
                        Some(candidate_left - current_right)
                    } else {
                        None
                    },
                };
                if let Some(d) = distance {
                    assert(is_focus_candidate(
                        panes@,
                        fi,
                        i as int,
                        direction,
                        sidebar_is_closed,
                        agent_is_closed,
                    ));
                    assert(d == edge_distance(focused, pane, direction));
                    match best {
                        None => {
                            best = Some((i, d, overlap));
                        },
                        Some((b, bd, bo)) => {
                            if d < bd || (d == bd && overlap > bo) {
                                assert(ranks_before(panes@, fi, i as int, b as int, direction));
                                assert forall|j: int|
                                    0 <= j < i && is_focus_candidate(
                                        panes@,
                                        fi,
                                        j,
                                        direction,
                                        sidebar_is_closed,
                                        agent_is_closed,
                                    ) implies ranks_before(panes@, fi, i as int, j, direction)
                                    && !ranks_before(panes@, fi, j, i as int, direction) by {
                                    assert(!ranks_before(panes@, fi, j, b as int, direction));
                                }
                                best = Some((i, d, overlap));
                            } else {
                                assert(!ranks_before(panes@, fi, i as int, b as int, direction));
                            }
                        },
                    }
                } else {
                    assert(!lies_toward(focused, pane, direction));
                    assert(!is_focus_candidate(
                        panes@,
                        fi,
                        i as int,
                        direction,
                        sidebar_is_closed,
                        agent_is_closed,
                    ));
                }
            } else {
                assert(!is_focus_candidate(
                    panes@,
                    fi,
                    i as int,
                    direction,
                    sidebar_is_closed,
                    agent_is_closed,
                ));
            }
        } else {
            assert(!is_focus_candidate(
                panes@,
                fi,
                i as int,
                direction,
                sidebar_is_closed,
                agent_is_closed,
            ));
        }
        i = i + 1;
    }
    match best {
        Some((b, _, _)) => HorizontalFocusPlan::FocusPane(b),
        None => match direction {
            HorizontalDirection::Left => HorizontalFocusPlan::PreviousTab,
            HorizontalDirection::Right => HorizontalFocusPlan::NextTab,
        },
    }
}

/// A move has at most one target: no two panes are both the best
/// candidate, so the panes alone decide where focus goes.
pub proof fn law_focus_target_is_unique(
    panes: Seq<HorizontalPaneSnapshot>,
    f: int,
    b1: int,
    b2: int,
    direction: HorizontalDirection,
    sidebar_is_closed: bool,
    agent_is_closed: bool,
)
    requires
        is_best_focus_candidate(panes, f, b1, direction, sidebar_is_closed, agent_is_closed),
        is_best_focus_candidate(panes, f, b2, direction, sidebar_is_closed, agent_is_closed),
    ensures
        b1 == b2,
{
    if b1 < b2 {
        assert(ranks_before(panes, f, b2, b1, direction));
    } else if b2 < b1 {
        assert(ranks_before(panes, f, b1, b2, direction));
    }
}

/// Focus never moves to a hidden pane: the target of a move is a live
/// terminal pane, never a collapsed sidebar or a collapsed agent, and it
/// shares rows with the focused pane on the side of the move.
pub proof fn law_hidden_panes_never_take_focus(
    panes: Seq<HorizontalPaneSnapshot>,
    f: int,
    b: int,
    direction: HorizontalDirection,
    sidebar_is_closed: bool,
    agent_is_closed: bool,
)
    requires
        is_best_focus_candidate(panes, f, b, direction, sidebar_is_closed, agent_is_closed),
    ensures
        !panes[b].is_plugin,
        !panes[b].exited,
        sidebar_is_closed ==> panes[b].role != HorizontalPaneRole::Sidebar,
        agent_is_closed ==> panes[b].role != HorizontalPaneRole::Agent,
        vertical_overlap(panes[f], panes[b]) > 0,
        lies_toward(panes[f], panes[b], direction),
{
}

} // verus!
