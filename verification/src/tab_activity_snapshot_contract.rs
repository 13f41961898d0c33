use vstd::prelude::*;
use vstd::std_specs::convert::FromSpecImpl;

use crate::active_tab_session_state::SessionAiPaneActivity;
use crate::ai_pane_activity_contract::{ai_activity_tab_state, tab_activity_state, AiActivityTabState};
use crate::stable_sort::{
    insertion_point, lemma_insertion_point, lemma_stable_sort_by_key, stable_sort_by_key,
};

verus! {

/// Schema version of the all-tab activity snapshot.
pub const ALL_TAB_ACTIVITY_SNAPSHOT_SCHEMA_VERSION: i32 = 1;

/// Activity of one tab in the snapshot.
#[derive(Debug, Clone, Copy, PartialEq, Eq, Structural)]
pub enum TabActivitySnapshotState {
    Idle,
    Busy,
    Alert,
}

/// The snapshot name of a state.
pub open spec fn snapshot_state_name(state: TabActivitySnapshotState) -> Seq<char> {
    match state {
        TabActivitySnapshotState::Idle => "idle"@,
        TabActivitySnapshotState::Busy => "busy"@,
        TabActivitySnapshotState::Alert => "alert"@,
    }
}

/// The snapshot state that stands for a tab's activity.
pub open spec fn snapshot_state(state: AiActivityTabState) -> TabActivitySnapshotState {
    match state {
        AiActivityTabState::Idle => TabActivitySnapshotState::Idle,
        AiActivityTabState::Busy => TabActivitySnapshotState::Busy,
        AiActivityTabState::Alert => TabActivitySnapshotState::Alert,
    }
}

impl TabActivitySnapshotState {
    /// The snapshot name of this state.
    pub fn as_str(self) -> (name: &'static str)
        ensures
            name@ == snapshot_state_name(self),
    {
        match self {
            Self::Idle => "idle",
            Self::Busy => "busy",
            Self::Alert => "alert",
        }
    }
}

impl From<AiActivityTabState> for TabActivitySnapshotState {
    fn from(state: AiActivityTabState) -> (snapshot: Self) {
        match state {
            AiActivityTabState::Idle => Self::Idle,
            AiActivityTabState::Busy => Self::Busy,
            AiActivityTabState::Alert => Self::Alert,
        }
    }
}

impl FromSpecImpl<AiActivityTabState> for TabActivitySnapshotState {
    open spec fn obeys_from_spec() -> bool {
        true
    }

    open spec fn from_spec(state: AiActivityTabState) -> Self {
        snapshot_state(state)
    }
}

/// One tab of the snapshot.
#[derive(Debug, PartialEq, Eq)]
pub struct TabActivitySnapshotTab {
    pub tab_id: usize,
    pub tab_position: usize,
    pub base_name: String,
    pub activity_state: TabActivitySnapshotState,
    pub activity: Vec<SessionAiPaneActivity>,
}

/// Activity of every tab, in tab order.
#[derive(Debug, PartialEq, Eq)]
pub struct AllTabActivitySnapshotV1 {
    pub schema_version: i32,
    pub tabs: Vec<TabActivitySnapshotTab>,
}

/// What the plugin knows of one tab when it builds the snapshot.
#[derive(Debug, PartialEq, Eq)]
pub struct TabActivityReadState {
    pub tab_id: usize,
    pub tab_position: usize,
    pub current_name: String,
    pub base_name: Option<String>,
    pub activity: Vec<SessionAiPaneActivity>,
}

/// Orders tabs by position.
pub open spec fn by_tab_position() -> spec_fn(TabActivityReadState) -> int {
    |tab: TabActivityReadState| tab.tab_position as int
}

/// `fact` assigned to the tab at `tab_position`.
pub open spec fn with_tab_position(
    fact: SessionAiPaneActivity,
    tab_position: usize,
) -> SessionAiPaneActivity {
    SessionAiPaneActivity { tab_position: Some(tab_position), ..fact }
}

/// The name a tab shows in the snapshot: its base name when known, its
/// current name otherwise.
pub open spec fn snapshot_base_name(tab: TabActivityReadState) -> Seq<char> {
    match tab.base_name {
        Some(base_name) => base_name@,
        None => tab.current_name@,
    }
}

/// `out` is the snapshot entry of `tab`: same id and position, its base name,
/// its facts assigned to its position, and the reduced activity of those facts.
pub open spec fn is_snapshot_of(out: TabActivitySnapshotTab, tab: TabActivityReadState) -> bool {
    &&& out.tab_id == tab.tab_id
    &&& out.tab_position == tab.tab_position
    &&& out.base_name@ == snapshot_base_name(tab)
    &&& out.activity@ == tab.activity@.map_values(
        |fact: SessionAiPaneActivity| with_tab_position(fact, tab.tab_position),
    )
    &&& out.activity_state == snapshot_state(tab_activity_state(out.activity@))
}

fn snapshot_tab(tab: TabActivityReadState) -> (out: TabActivitySnapshotTab)
    ensures
        is_snapshot_of(out, tab),
{
    let mut activity: Vec<SessionAiPaneActivity> = Vec::new();
    let n = tab.activity.len();
    let mut i: usize = 0;
    while i < n
        invariant
            n == tab.activity@.len(),
            i <= n,
            activity@.len() == i,
            forall|k: int|
                0 <= k < i ==> #[trigger] activity@[k] == with_tab_position(
                    tab.activity@[k],
                    tab.tab_position,
                ),
        decreases n - i,
    {
        let mut fact = tab.activity[i].clone();
        fact.tab_position = Some(tab.tab_position);
        activity.push(fact);
        i = i + 1;
    }
    assert(activity@ =~= tab.activity@.map_values(
        |fact: SessionAiPaneActivity| with_tab_position(fact, tab.tab_position),
    ));
    let activity_state = TabActivitySnapshotState::from(ai_activity_tab_state(activity.as_slice()));
    let base_name = match tab.base_name {
        Some(base_name) => base_name,
        None => tab.current_name,
    };
    TabActivitySnapshotTab {
        tab_id: tab.tab_id,
        tab_position: tab.tab_position,
        base_name,
        activity_state,
        activity,
    }
}

/// Builds the all-tab activity snapshot: tabs in position order (tabs at the
/// same position keep their order), each fact assigned to its tab's position,
/// and each tab's activity reduced to alert before busy before idle.
pub fn build_all_tab_activity_snapshot_v1(tabs: Vec<TabActivityReadState>) -> (snapshot: AllTabActivitySnapshotV1)
    ensures
        snapshot.schema_version == ALL_TAB_ACTIVITY_SNAPSHOT_SCHEMA_VERSION,
        snapshot.tabs@.len() == tabs@.len(),
        forall|k: int|
            0 <= k < tabs@.len() ==> is_snapshot_of(
                #[trigger] snapshot.tabs@[k],
                stable_sort_by_key(tabs@, by_tab_position())[k],
            ),
        forall|i: int, j: int|
            0 <= i <= j < snapshot.tabs@.len() ==> (#[trigger] snapshot.tabs@[i]).tab_position
                <= (#[trigger] snapshot.tabs@[j]).tab_position,
{
    let ghost original = tabs@;
    let mut rest = tabs;
    let mut sorted: Vec<TabActivityReadState> = Vec::new();
    let n = rest.len();
    let mut consumed: usize = 0;
    assert(original.skip(0) =~= original);
    assert(original.take(0) =~= Seq::<TabActivityReadState>::empty());
    while consumed < n
        invariant
            n == original.len(),
            consumed <= n,
            rest@ == original.skip(consumed as int),
            sorted@ == stable_sort_by_key(original.take(consumed as int), by_tab_position()),
        decreases n - consumed,
    {
        let tab = rest.remove(0);
        assert(original.take(consumed + 1).drop_last() =~= original.take(consumed as int));
        assert(original.skip(consumed + 1) =~= original.skip(consumed as int).drop_first());
        let ghost view = sorted@;
        let position = tab.tab_position;
        proof {
            lemma_insertion_point(view, by_tab_position(), position as int);
        }
        let m = sorted.len();
        let mut p: usize = 0;
        assert(view.skip(0) =~= view);
        while p < m && sorted[p].tab_position <= position
            invariant
                m == sorted@.len(),
                view == sorted@,
                p <= m,
                insertion_point(view, by_tab_position(), position as int) == p + insertion_point(
                    view.skip(p as int),
                    by_tab_position(),
                    position as int,
                ),
            decreases m - p,
        {
            assert(view.skip(p as int).drop_first() =~= view.skip(p + 1));
            p = p + 1;
        }
        proof {
            if p < m {
                assert(view.skip(p as int)[0].tab_position > position);
            } else {
                assert(view.skip(p as int).len() == 0);
            }
        }
        sorted.insert(p, tab);
        consumed = consumed + 1;
    }
    assert(original.take(n as int) =~= original);
    proof {
        lemma_stable_sort_by_key(original, by_tab_position());
    }
    let ghost sorted_view = sorted@;
    let mut out: Vec<TabActivitySnapshotTab> = Vec::new();
    let mut done: usize = 0;
    let mut remaining = sorted;
    assert(sorted_view.skip(0) =~= sorted_view);
    while done < n
        invariant
            n == sorted_view.len(),
            sorted_view == stable_sort_by_key(original, by_tab_position()),
            done <= n,
            remaining@ == sorted_view.skip(done as int),
            out@.len() == done,
            forall|k: int| 0 <= k < done ==> is_snapshot_of(#[trigger] out@[k], sorted_view[k]),
        decreases n - done,
    {
        let tab = remaining.remove(0);
        assert(sorted_view.skip(done + 1) =~= sorted_view.skip(done as int).drop_first());
        out.push(snapshot_tab(tab));
        done = done + 1;
    }
    proof {
        assert forall|i: int, j: int| 0 <= i <= j < out@.len() implies (
        #[trigger] out@[i]).tab_position <= (#[trigger] out@[j]).tab_position by {
            assert(by_tab_position()(sorted_view[i]) <= by_tab_position()(sorted_view[j]));
        }
    }
    AllTabActivitySnapshotV1 { schema_version: ALL_TAB_ACTIVITY_SNAPSHOT_SCHEMA_VERSION, tabs: out }
}

} // verus!
