use std::collections::{HashMap, HashSet};

use vstd::prelude::*;
use vstd::std_specs::iter::IteratorSpec;

verus! {

broadcast use vstd::std_specs::hash::group_hash_axioms;

/// What the tab logic reads of one Zellij tab: its 0-based position, its
/// stable id, and whether it is the active tab.
#[derive(Clone, Copy, Debug, PartialEq, Eq, Structural)]
pub struct TabRecord {
    pub position: usize,
    pub tab_id: usize,
    pub active: bool,
}

/// Index of the first active tab, or `tabs.len()` when none is.
pub open spec fn first_active(tabs: Seq<TabRecord>) -> int
    decreases tabs.len(),
{
    if tabs.len() == 0 {
        0
    } else if tabs[0].active {
        0
    } else {
        1 + first_active(tabs.drop_first())
    }
}

/// Id of the first active tab.
pub open spec fn active_id_of(tabs: Seq<TabRecord>) -> Option<usize> {
    if first_active(tabs) < tabs.len() {
        Some(tabs[first_active(tabs)].tab_id)
    } else {
        None
    }
}

/// Position of the first active tab.
pub open spec fn active_position_of(tabs: Seq<TabRecord>) -> Option<usize> {
    if first_active(tabs) < tabs.len() {
        Some(tabs[first_active(tabs)].position)
    } else {
        None
    }
}

/// Tab id by position (a later tab wins a shared position).
pub open spec fn id_by_position(tabs: Seq<TabRecord>) -> Map<usize, usize>
    decreases tabs.len(),
{
    if tabs.len() == 0 {
        Map::empty()
    } else {
        id_by_position(tabs.drop_last()).insert(tabs.last().position, tabs.last().tab_id)
    }
}

/// Position by tab id (a later tab wins a shared id).
pub open spec fn position_by_id(tabs: Seq<TabRecord>) -> Map<usize, usize>
    decreases tabs.len(),
{
    if tabs.len() == 0 {
        Map::empty()
    } else {
        position_by_id(tabs.drop_last()).insert(tabs.last().tab_id, tabs.last().position)
    }
}

/// The ids of the tabs.
pub open spec fn ids_of(tabs: Seq<TabRecord>) -> Set<usize> {
    Set::new(|id: usize| exists|i: int| 0 <= i < tabs.len() && #[trigger] tabs[i].tab_id == id)
}

/// `first_active` lies in `0..=len`, names an active tab when below `len`,
/// and no tab before it is active.
pub proof fn lemma_first_active(tabs: Seq<TabRecord>)
    ensures
        0 <= first_active(tabs) <= tabs.len(),
        first_active(tabs) < tabs.len() ==> tabs[first_active(tabs)].active,
        forall|k: int| 0 <= k < first_active(tabs) ==> !(#[trigger] tabs[k]).active,
    decreases tabs.len(),
{
    if tabs.len() > 0 && !tabs[0].active {
        lemma_first_active(tabs.drop_first());
        assert forall|k: int| 0 <= k < first_active(tabs) implies !(#[trigger] tabs[k]).active by {
            if k > 0 {
                assert(tabs[k] == tabs.drop_first()[k - 1]);
            }
        }
    }
}

/// The first active tab, if any, as an index.
fn first_active_index(tabs: &[TabRecord]) -> (index: usize)
    ensures
        index == first_active(tabs@),
{
    proof {
        lemma_first_active(tabs@);
    }
    let n = tabs.len();
    let mut i: usize = 0;
    while i < n && !tabs[i].active
        invariant
            n == tabs@.len(),
            i <= first_active(tabs@) <= n,
            first_active(tabs@) < n ==> tabs@[first_active(tabs@)].active,
            forall|k: int| 0 <= k < first_active(tabs@) ==> !(#[trigger] tabs@[k]).active,
        decreases n - i,
    {
        i = i + 1;
    }
    i
}

/// Id of the active tab.
pub fn active_tab_id(tabs: &[TabRecord]) -> (id: Option<usize>)
    ensures
        id == active_id_of(tabs@),
{
    let i = first_active_index(tabs);
    if i < tabs.len() {
        Some(tabs[i].tab_id)
    } else {
        None
    }
}

/// Position of the active tab.
pub fn active_tab_position(tabs: &[TabRecord]) -> (position: Option<usize>)
    ensures
        position == active_position_of(tabs@),
{
    let i = first_active_index(tabs);
    if i < tabs.len() {
        Some(tabs[i].position)
    } else {
        None
    }
}

/// The ids of the current tabs.
pub fn current_tab_ids(tabs: &[TabRecord]) -> (ids: HashSet<usize>)
    ensures
        ids@ == ids_of(tabs@),
{
    let mut ids: HashSet<usize> = HashSet::new();
    let n = tabs.len();
    let mut i: usize = 0;
    while i < n
        invariant
            n == tabs@.len(),
            i <= n,
            ids@ == ids_of(tabs@.take(i as int)),
        decreases n - i,
    {
        ids.insert(tabs[i].tab_id);
        i = i + 1;
        assert(ids@ =~= ids_of(tabs@.take(i as int))) by {
            assert forall|id: usize| ids_of(tabs@.take(i as int)).contains(id) implies ids@.contains(
                id,
            ) by {
                let k = choose|k: int| 0 <= k < i && #[trigger] tabs@.take(i as int)[k].tab_id == id;
                if k < i - 1 {
                    assert(tabs@.take(i - 1)[k].tab_id == id);
                }
            }
            assert forall|id: usize| ids@.contains(id) implies ids_of(tabs@.take(i as int)).contains(
                id,
            ) by {
                if id != tabs@[i - 1].tab_id {
                    let k = choose|k: int| 0 <= k < i - 1 && #[trigger] tabs@.take(i - 1)[k].tab_id == id;
                    assert(tabs@.take(i as int)[k].tab_id == id);
                } else {
                    assert(tabs@.take(i as int)[i - 1].tab_id == id);
                }
            }
        }
    }
    assert(tabs@.take(n as int) =~= tabs@);
    ids
}

/// Tab id by position.
pub fn tab_id_by_position(tabs: &[TabRecord]) -> (map: HashMap<usize, usize>)
    ensures
        map@ == id_by_position(tabs@),
{
    let mut map: HashMap<usize, usize> = HashMap::new();
    let n = tabs.len();
    let mut i: usize = 0;
    assert(tabs@.take(0) =~= Seq::<TabRecord>::empty());
    while i < n
        invariant
            n == tabs@.len(),
            i <= n,
            map@ == id_by_position(tabs@.take(i as int)),
        decreases n - i,
    {
        assert(tabs@.take(i + 1).drop_last() =~= tabs@.take(i as int));
        map.insert(tabs[i].position, tabs[i].tab_id);
        i = i + 1;
    }
    assert(tabs@.take(n as int) =~= tabs@);
    map
}

/// Position by tab id.
pub fn tab_position_by_id(tabs: &[TabRecord]) -> (map: HashMap<usize, usize>)
    ensures
        map@ == position_by_id(tabs@),
{
    let mut map: HashMap<usize, usize> = HashMap::new();
    let n = tabs.len();
    let mut i: usize = 0;
    assert(tabs@.take(0) =~= Seq::<TabRecord>::empty());
    while i < n
        invariant
            n == tabs@.len(),
            i <= n,
            map@ == position_by_id(tabs@.take(i as int)),
        decreases n - i,
    {
        assert(tabs@.take(i + 1).drop_last() =~= tabs@.take(i as int));
        map.insert(tabs[i].tab_id, tabs[i].position);
        i = i + 1;
    }
    assert(tabs@.take(n as int) =~= tabs@);
    map
}

/// Drops the state of tabs that no longer exist; the state of the surviving
/// tabs stays under their ids, untouched.
pub fn retain_current_tab_state<T>(
    state_by_tab_id: &mut HashMap<usize, T>,
    current_tab_ids: &HashSet<usize>,
)
    ensures
        final(state_by_tab_id)@ == old(state_by_tab_id)@.restrict(current_tab_ids@),
{
    let ghost old_map = state_by_tab_id@;
    let mut stale: Vec<usize> = Vec::new();
    let ghost mut seen: Seq<usize> = Seq::empty();
    for key in it: state_by_tab_id.keys()
        invariant
            state_by_tab_id@ == old_map,
            forall|x: usize|
                #[trigger] old_map.contains_key(x) ==> seen.contains(x) || exists|k: int|
                    it.index() <= k < it.seq().len() && *it.seq()[k] == x,
            seen.len() == it.index(),
            forall|k: int| 0 <= k < it.index() ==> seen[k] == *it.seq()[k],
            forall|id: usize|
                #[trigger] stale@.contains(id) <==> seen.contains(id) && !current_tab_ids@.contains(id),
    {
        let id = *key;
        let ghost old_stale = stale@;
        let ghost old_seen = seen;
        if !current_tab_ids.contains(&id) {
            stale.push(id);
        }
        proof {
            seen = seen.push(id);
            assert forall|x: usize|
                #[trigger] old_map.contains_key(x) implies seen.contains(x) || exists|k: int|
                    it.index() + 1 <= k < it.seq().len() && *it.seq()[k] == x by {
                if old_seen.contains(x) {
                    let k = choose|k: int| 0 <= k < old_seen.len() && old_seen[k] == x;
                    assert(seen[k] == x);
                } else if x == id {
                    assert(seen[seen.len() - 1] == x);
                } else {
                    let k = choose|k: int| it.index() <= k < it.seq().len() && *it.seq()[k] == x;
                    assert(k != it.index());
                }
            }
            assert forall|x: usize|
                #[trigger] stale@.contains(x) <==> seen.contains(x) && !current_tab_ids@.contains(x) by {
                assert(old_stale.contains(x) <==> old_seen.contains(x) && !current_tab_ids@.contains(x));
                if seen.contains(x) && x != id {
                    let k = choose|k: int| 0 <= k < seen.len() && seen[k] == x;
                    assert(old_seen[k] == x);
                }
                if old_seen.contains(x) {
                    let k = choose|k: int| 0 <= k < old_seen.len() && old_seen[k] == x;
                    assert(seen[k] == x);
                }
                if x == id {
                    assert(seen[seen.len() - 1] == x);
                }
                if x != id && stale@.contains(x) {
                    let k = choose|k: int| 0 <= k < stale@.len() && stale@[k] == x;
                    if !current_tab_ids@.contains(id) {
                        assert(k < old_stale.len());
                        assert(old_stale[k] == x);
                    } else {
                        assert(old_stale[k] == x);
                    }
                }
                if old_stale.contains(x) {
                    let k = choose|k: int| 0 <= k < old_stale.len() && old_stale[k] == x;
                    assert(stale@[k] == x);
                }
                if x == id && !current_tab_ids@.contains(x) {
                    assert(stale@.last() == x);
                }
            }
        }
    }
    assert(forall|x: usize| old_map.contains_key(x) ==> #[trigger] seen.contains(x));
    let n = stale.len();
    let mut j: usize = 0;
    while j < n
        invariant
            n == stale@.len(),
            j <= n,
            forall|x: usize|
                #[trigger] state_by_tab_id@.contains_key(x) <==> old_map.contains_key(x) && (
                forall|k: int| 0 <= k < j ==> stale@[k] != x),
            forall|x: usize|
                #[trigger] state_by_tab_id@.contains_key(x) ==> state_by_tab_id@[x] == old_map[x],
        decreases n - j,
    {
        state_by_tab_id.remove(&stale[j]);
        j = j + 1;
    }
    assert forall|x: usize|
        #[trigger] state_by_tab_id@.contains_key(x) <==> old_map.restrict(
            current_tab_ids@,
        ).contains_key(x) by {
        if old_map.contains_key(x) {
            assert(seen.contains(x));
            if stale@.contains(x) {
                let k = choose|k: int| 0 <= k < stale@.len() && stale@[k] == x;
                assert(stale@[k] == x);
            }
        }
    }
    assert(state_by_tab_id@ =~= old_map.restrict(current_tab_ids@));
}

/// No two tabs share a position or an id.
pub open spec fn tabs_are_distinct(tabs: Seq<TabRecord>) -> bool {
    forall|i: int, j: int|
        0 <= i < j < tabs.len() ==> (#[trigger] tabs[i]).position != (#[trigger] tabs[j]).position
            && tabs[i].tab_id != tabs[j].tab_id
}

/// Each tab's entry survives in both maps when no later tab shares its
/// position or id, and every key of the maps comes from some tab.
proof fn lemma_identity_maps(tabs: Seq<TabRecord>)
    requires
        tabs_are_distinct(tabs),
    ensures
        forall|k: int|
            0 <= k < tabs.len() ==> id_by_position(tabs).contains_key((#[trigger] tabs[k]).position)
                && id_by_position(tabs)[tabs[k].position] == tabs[k].tab_id
                && position_by_id(tabs).contains_key(tabs[k].tab_id) && position_by_id(
                tabs,
            )[tabs[k].tab_id] == tabs[k].position,
        forall|p: usize|
            #[trigger] id_by_position(tabs).contains_key(p) ==> exists|k: int|
                0 <= k < tabs.len() && tabs[k].position == p,
        forall|id: usize|
            #[trigger] position_by_id(tabs).contains_key(id) ==> exists|k: int|
                0 <= k < tabs.len() && tabs[k].tab_id == id,
    decreases tabs.len(),
{
    if tabs.len() > 0 {
        let rest = tabs.drop_last();
        assert(tabs_are_distinct(rest)) by {
            assert forall|i: int, j: int| 0 <= i < j < rest.len() implies (#[trigger] rest[i]).position
                != (#[trigger] rest[j]).position && rest[i].tab_id != rest[j].tab_id by {
                assert(rest[i] == tabs[i] && rest[j] == tabs[j]);
            }
        }
        lemma_identity_maps(rest);
        let last = tabs.len() - 1;
        assert forall|k: int| 0 <= k < tabs.len() implies id_by_position(tabs).contains_key(
            (#[trigger] tabs[k]).position,
        ) && id_by_position(tabs)[tabs[k].position] == tabs[k].tab_id && position_by_id(
            tabs,
        ).contains_key(tabs[k].tab_id) && position_by_id(tabs)[tabs[k].tab_id]
            == tabs[k].position by {
            if k < last {
                assert(rest[k] == tabs[k]);
                assert(tabs[k].position != tabs[last].position);
                assert(tabs[k].tab_id != tabs[last].tab_id);
            }
        }
        assert forall|p: usize| #[trigger] id_by_position(tabs).contains_key(p) implies exists|k: int|
            0 <= k < tabs.len() && tabs[k].position == p by {
            assert(id_by_position(tabs) == id_by_position(rest).insert(
                tabs[last].position,
                tabs[last].tab_id,
            ));
            if p != tabs[last].position {
                assert(id_by_position(rest).contains_key(p));
                let k = choose|k: int| 0 <= k < rest.len() && rest[k].position == p;
                assert(tabs[k] == rest[k]);
            } else {
                assert(tabs[last].position == p);
            }
        }
        assert forall|id: usize| #[trigger] position_by_id(tabs).contains_key(id) implies exists|k: int|
            0 <= k < tabs.len() && tabs[k].tab_id == id by {
            assert(position_by_id(tabs) == position_by_id(rest).insert(
                tabs[last].tab_id,
                tabs[last].position,
            ));
            if id != tabs[last].tab_id {
                assert(position_by_id(rest).contains_key(id));
                let k = choose|k: int| 0 <= k < rest.len() && rest[k].tab_id == id;
                assert(tabs[k] == rest[k]);
            } else {
                assert(tabs[last].tab_id == id);
            }
        }
    }
}

/// When no two tabs share a position or an id, the map from positions to
/// ids and the map from ids to positions are inverse to each other: a tab
/// keeps its id wherever it moves.
pub proof fn law_position_and_id_maps_are_inverse(tabs: Seq<TabRecord>)
    requires
        tabs_are_distinct(tabs),
    ensures
        forall|p: usize|
            #[trigger] id_by_position(tabs).contains_key(p) ==> position_by_id(tabs).contains_key(
                id_by_position(tabs)[p],
            ) && position_by_id(tabs)[id_by_position(tabs)[p]] == p,
        forall|id: usize|
            #[trigger] position_by_id(tabs).contains_key(id) ==> id_by_position(tabs).contains_key(
                position_by_id(tabs)[id],
            ) && id_by_position(tabs)[position_by_id(tabs)[id]] == id,
{
    lemma_identity_maps(tabs);
    assert forall|p: usize| #[trigger] id_by_position(tabs).contains_key(p) implies position_by_id(
        tabs,
    ).contains_key(id_by_position(tabs)[p]) && position_by_id(tabs)[id_by_position(tabs)[p]] == p by {
        let k = choose|k: int| 0 <= k < tabs.len() && tabs[k].position == p;
        assert(id_by_position(tabs).contains_key(tabs[k].position));
    }
    assert forall|id: usize| #[trigger] position_by_id(tabs).contains_key(id) implies id_by_position(
        tabs,
    ).contains_key(position_by_id(tabs)[id]) && id_by_position(tabs)[position_by_id(tabs)[id]]
        == id by {
        let k = choose|k: int| 0 <= k < tabs.len() && tabs[k].tab_id == id;
        assert(position_by_id(tabs).contains_key(tabs[k].tab_id));
    }
}

/// Which tab is active, and the two-way map between tab positions and the
/// stable tab ids, as of the last tab update.
#[derive(Debug, PartialEq, Eq)]
pub struct TabIdentityState {
    active_tab_position: Option<usize>,
    active_tab_id: Option<usize>,
    tab_id_by_position: HashMap<usize, usize>,
    tab_position_by_id: HashMap<usize, usize>,
}

impl Default for TabIdentityState {
    /// No tabs known yet.
    fn default() -> (state: Self)
        ensures
            state.active_position() is None,
            state.active_id() is None,
            state.id_map() == Map::<usize, usize>::empty(),
            state.position_map() == Map::<usize, usize>::empty(),
    {
        TabIdentityState {
            active_tab_position: None,
            active_tab_id: None,
            tab_id_by_position: HashMap::new(),
            tab_position_by_id: HashMap::new(),
        }
    }
}

impl TabIdentityState {
    /// Position of the active tab.
    pub closed spec fn active_position(&self) -> Option<usize> {
        self.active_tab_position
    }

    /// Id of the active tab.
    pub closed spec fn active_id(&self) -> Option<usize> {
        self.active_tab_id
    }

    /// Tab id by position.
    pub closed spec fn id_map(&self) -> Map<usize, usize> {
        self.tab_id_by_position@
    }

    /// Position by tab id.
    pub closed spec fn position_map(&self) -> Map<usize, usize> {
        self.tab_position_by_id@
    }

    /// The identity state that a tab update describes.
    pub fn from_tabs(tabs: &[TabRecord]) -> (state: Self)
        ensures
            state.active_position() == active_position_of(tabs@),
            state.active_id() == active_id_of(tabs@),
            state.id_map() == id_by_position(tabs@),
            state.position_map() == position_by_id(tabs@),
    {
        TabIdentityState {
            active_tab_position: active_tab_position(tabs),
            active_tab_id: active_tab_id(tabs),
            tab_id_by_position: tab_id_by_position(tabs),
            tab_position_by_id: tab_position_by_id(tabs),
        }
    }

    /// Position of the active tab.
    pub fn active_tab_position(&self) -> (position: Option<usize>)
        ensures
            position == self.active_position(),
    {
        self.active_tab_position
    }

    /// Id of the active tab.
    pub fn active_tab_id(&self) -> (id: Option<usize>)
        ensures
            id == self.active_id(),
    {
        self.active_tab_id
    }

    /// Current position of the tab with id `tab_id`.
    pub fn position_for_tab_id(&self, tab_id: usize) -> (position: Option<usize>)
        ensures
            position == if self.position_map().contains_key(tab_id) {
                Some(self.position_map()[tab_id])
            } else {
                None
            },
    {
        match self.tab_position_by_id.get(&tab_id) {
            Some(position) => Some(*position),
            None => None,
        }
    }

    /// Tab id by position.
    pub fn tab_id_by_position(&self) -> (map: &HashMap<usize, usize>)
        ensures
            map@ == self.id_map(),
    {
        &self.tab_id_by_position
    }

    /// The ids of the current tabs.
    pub fn current_tab_ids(&self) -> (ids: HashSet<usize>)
        ensures
            ids@ == self.position_map().dom(),
    {
        let ghost map = self.tab_position_by_id@;
        let mut ids: HashSet<usize> = HashSet::new();
        let ghost mut seen: Seq<usize> = Seq::empty();
        let keys = self.tab_position_by_id.keys();
        proof {
            assert forall|k: int| 0 <= k < keys.remaining().len() implies map.contains_key(
                *#[trigger] keys.remaining()[k],
            ) by {
                assert(keys.remaining().unref()[k] == *keys.remaining()[k]);
                assert(keys.remaining().unref().to_set().contains(*keys.remaining()[k]));
            }
        }
        for key in it: keys
            invariant
                map == self.tab_position_by_id@,
                forall|k: int| 0 <= k < it.seq().len() ==> map.contains_key(*#[trigger] it.seq()[k]),
                forall|x: usize|
                    #[trigger] map.contains_key(x) ==> seen.contains(x) || exists|k: int|
                        it.index() <= k < it.seq().len() && *it.seq()[k] == x,
                seen.len() == it.index(),
                forall|k: int| 0 <= k < it.index() ==> seen[k] == *it.seq()[k],
                forall|x: usize| #[trigger] ids@.contains(x) <==> seen.contains(x),
        {
            let id = *key;
            let ghost old_seen = seen;
            ids.insert(id);
            proof {
                seen = seen.push(id);
                assert forall|x: usize| #[trigger] ids@.contains(x) <==> seen.contains(x) by {
                    if old_seen.contains(x) {
                        let k = choose|k: int| 0 <= k < old_seen.len() && old_seen[k] == x;
                        assert(seen[k] == x);
                    }
                    if seen.contains(x) && x != id {
                        let k = choose|k: int| 0 <= k < seen.len() && seen[k] == x;
                        assert(old_seen[k] == x);
                    }
                    if x == id {
                        assert(seen[seen.len() - 1] == x);
                    }
                }
                assert forall|x: usize|
                    #[trigger] map.contains_key(x) implies seen.contains(x) || exists|k: int|
                        it.index() + 1 <= k < it.seq().len() && *it.seq()[k] == x by {
                    if old_seen.contains(x) {
                        let k = choose|k: int| 0 <= k < old_seen.len() && old_seen[k] == x;
                        assert(seen[k] == x);
                    } else if x == id {
                        assert(seen[seen.len() - 1] == x);
                    } else {
                        let k = choose|k: int| it.index() <= k < it.seq().len() && *it.seq()[k] == x;
                        assert(k != it.index());
                    }
                }
            }
        }
        assert forall|x: usize| #[trigger] ids@.contains(x) <==> map.dom().contains(x) by {
            if seen.contains(x) {
                let k = choose|k: int| 0 <= k < seen.len() && seen[k] == x;
                assert(map.contains_key(x));
            }
            if map.contains_key(x) {
                assert(seen.contains(x));
            }
        }
        assert(ids@ =~= map.dom());
        ids
    }

    /// Whether the position map is complete for a pane manifest that lists
    /// `position_count` tab positions, `tab_positions`: the map is not empty,
    /// has exactly that many positions, and holds each listed one.
    pub fn has_complete_position_map(
        &self,
        tab_positions: &[usize],
        position_count: usize,
    ) -> (complete: bool)
        ensures
            complete == (self.id_map().len() > 0 && position_count == self.id_map().len()
                && forall|i: int|
                0 <= i < tab_positions@.len() ==> self.id_map().contains_key(
                    #[trigger] tab_positions@[i],
                )),
    {
        let len = self.tab_id_by_position.len();
        if len == 0 || position_count != len {
            return false;
        }
        let n = tab_positions.len();
        let mut i: usize = 0;
        while i < n
            invariant
                n == tab_positions@.len(),
                i <= n,
                forall|k: int| 0 <= k < i ==> self.id_map().contains_key(#[trigger] tab_positions@[k]),
            decreases n - i,
        {
            if !self.tab_id_by_position.contains_key(&tab_positions[i]) {
                return false;
            }
            i = i + 1;
        }
        true
    }
}

} // verus!
