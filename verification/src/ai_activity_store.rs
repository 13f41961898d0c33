use std::collections::{HashMap, HashSet};

use vstd::prelude::*;
use vstd::std_specs::iter::IteratorSpec;

use crate::active_tab_session_state::{
    activity_state_token, SessionAiPaneActivity, SessionAiPaneActivityState,
};
use crate::ai_pane_activity_contract::{
    fact_has_key, facts_are_keyed_once, facts_without_key, first_fact_with_key, is_keyed_fact,
    keyed_facts, lemma_first_fact_with_key,
    managed_terminal_title_activity_state, managed_title_activity_state, normalized_ai_activity_state,
    normalized_state, opt_str_view, remove_ai_pane_activity_fact, upsert_ai_pane_activity_fact,
    upserted_facts, AiPaneActivityRegistration, TERMINAL_TITLE_ACTIVITY_PROVIDER,
};
use crate::plugin_pipe::{RESULT_INVALID_PAYLOAD, RESULT_MISSING};
use crate::tab_activity_snapshot_contract::TabActivityReadState;
use crate::tab_identity_contract::{retain_current_tab_state, TabIdentityState};
use crate::text::{str_equal, trim, trim_str};

verus! {

broadcast use vstd::std_specs::hash::group_hash_axioms;

/// The facts recorded for `tab_id`, none when the tab has none.
pub open spec fn tab_facts(
    facts_by_tab: Map<usize, Seq<SessionAiPaneActivity>>,
    tab_id: usize,
) -> Seq<SessionAiPaneActivity> {
    if facts_by_tab.contains_key(tab_id) {
        facts_by_tab[tab_id]
    } else {
        Seq::empty()
    }
}

/// The facts of each tab, as sequences.
pub open spec fn facts_view(facts_by_tab: Map<usize, Vec<SessionAiPaneActivity>>) -> Map<
    usize,
    Seq<SessionAiPaneActivity>,
> {
    Map::new(|t: usize| facts_by_tab.contains_key(t), |t: usize| facts_by_tab[t]@)
}

/// The facts of a tab once the terminal-title fact of `pane_id` is dropped.
pub open spec fn without_title_fact(
    facts: Seq<SessionAiPaneActivity>,
    pane_id: Seq<char>,
) -> Seq<SessionAiPaneActivity> {
    facts_without_key(facts, TERMINAL_TITLE_ACTIVITY_PROVIDER@, pane_id)
}

/// Some observation names pane `pane_id` of tab `tab_id`.
pub open spec fn observed_pane(
    observed: Seq<(usize, String)>,
    tab_id: usize,
    pane_id: Seq<char>,
) -> bool {
    exists|k: int| 0 <= k < observed.len() && #[trigger] observed[k].0 == tab_id && observed[k].1@ == pane_id
}

/// A snapshot keeps every fact that is not a terminal-title fact, and the
/// terminal-title facts of the panes it observed.
pub open spec fn keeps_observed_fact(
    fact: SessionAiPaneActivity,
    tab_id: usize,
    observed: Seq<(usize, String)>,
) -> bool {
    fact.provider@ != TERMINAL_TITLE_ACTIVITY_PROVIDER@ || observed_pane(observed, tab_id, fact.pane_id@)
}

/// `pane_id` is one of `pane_ids`.
pub open spec fn pane_listed(pane_ids: Seq<String>, pane_id: Seq<char>) -> bool {
    exists|k: int| 0 <= k < pane_ids.len() && #[trigger] pane_ids[k]@ == pane_id
}

/// A fact survives a pane update when it names no pane or names a pane that
/// still exists in its tab.
pub open spec fn keeps_live_pane_fact(fact: SessionAiPaneActivity, pane_ids: Seq<String>) -> bool {
    trim(fact.pane_id@).len() == 0 || pane_listed(pane_ids, fact.pane_id@)
}

/// The state of the terminal-title fact of `pane_id` among `facts`, if any.
pub open spec fn title_fact_state(
    facts: Seq<SessionAiPaneActivity>,
    pane_id: Seq<char>,
) -> Option<SessionAiPaneActivityState> {
    let i = first_fact_with_key(facts, TERMINAL_TITLE_ACTIVITY_PROVIDER@, pane_id);
    if i < facts.len() {
        Some(facts[i].state)
    } else {
        None
    }
}

/// `fact` is the terminal-title fact for pane `pane_id` in state `state`, in
/// the tab at `tab_position`.
pub open spec fn is_title_fact(
    fact: SessionAiPaneActivity,
    tab_position: usize,
    pane_id: Seq<char>,
    state: SessionAiPaneActivityState,
) -> bool {
    &&& fact.tab_position == Some(tab_position)
    &&& fact.provider@ == TERMINAL_TITLE_ACTIVITY_PROVIDER@
    &&& fact.pane_id@ == pane_id
    &&& fact.activity@ == activity_state_token(state)
    &&& fact.state == state
}

/// `copy` is `fact` moved to the tab at `tab_position`.
pub open spec fn at_position(
    copy: SessionAiPaneActivity,
    fact: SessionAiPaneActivity,
    tab_position: usize,
) -> bool {
    &&& copy.tab_position == Some(tab_position)
    &&& copy.provider == fact.provider
    &&& copy.pane_id == fact.pane_id
    &&& copy.activity == fact.activity
    &&& copy.state == fact.state
}

/// Whether a registration can be recorded, and as what: its normalized
/// state, with trimmed provider and pane. A registration whose activity
/// names no state, or that reports an active, thinking or stale state for no
/// pane, is refused with `RESULT_INVALID_PAYLOAD`.
pub fn plan_ai_activity_registration(registration: &AiPaneActivityRegistration) -> (plan: Result<
    (String, String, SessionAiPaneActivityState),
    &'static str,
>)
    ensures
        match normalized_state(registration.state, registration.activity@) {
            None => plan == Err::<(String, String, SessionAiPaneActivityState), &'static str>(
                RESULT_INVALID_PAYLOAD,
            ),
            Some(state) => if trim(registration.pane_id@).len() == 0 && (state
                == SessionAiPaneActivityState::Active || state
                == SessionAiPaneActivityState::Thinking || state
                == SessionAiPaneActivityState::Stale) {
                plan == Err::<(String, String, SessionAiPaneActivityState), &'static str>(
                    RESULT_INVALID_PAYLOAD,
                )
            } else {
                plan matches Ok((provider, pane_id, s)) && provider@ == trim(registration.provider@)
                    && pane_id@ == trim(registration.pane_id@) && s == state
            },
        },
{
    let state = match normalized_ai_activity_state(registration) {
        Some(state) => state,
        None => {
            return Err(RESULT_INVALID_PAYLOAD);
        },
    };
    let provider = trim_str(registration.provider.as_str());
    let pane_id = trim_str(registration.pane_id.as_str());
    let needs_pane = match state {
        SessionAiPaneActivityState::Active
        | SessionAiPaneActivityState::Thinking
        | SessionAiPaneActivityState::Stale => true,
        _ => false,
    };
    if pane_id.is_empty() && needs_pane {
        return Err(RESULT_INVALID_PAYLOAD);
    }
    Ok((provider.to_string(), pane_id.to_string(), state))
}

/// The tab whose terminal panes include `pane_id`, if any.
pub fn tab_for_terminal_pane(pane_ids_by_tab: &HashMap<usize, Vec<String>>, pane_id: &str) -> (tab_id:
    Option<usize>)
    ensures
        match tab_id {
            Some(t) => pane_ids_by_tab@.contains_key(t) && pane_listed(pane_ids_by_tab@[t]@, pane_id@),
            None => forall|t: usize|
                #[trigger] pane_ids_by_tab@.contains_key(t) ==> !pane_listed(
                    pane_ids_by_tab@[t]@,
                    pane_id@,
                ),
        },
{
    let ids = tab_ids_of(pane_ids_by_tab);
    let n = ids.len();
    let mut i: usize = 0;
    while i < n
        invariant
            n == ids@.len(),
            i <= n,
            forall|t: usize| #[trigger] pane_ids_by_tab@.contains_key(t) ==> ids@.contains(t),
            forall|k: int|
                0 <= k < i && pane_ids_by_tab@.contains_key(#[trigger] ids@[k]) ==> !pane_listed(
                    pane_ids_by_tab@[ids@[k]]@,
                    pane_id@,
                ),
        decreases n - i,
    {
        let t = ids[i];
        match pane_ids_by_tab.get(&t) {
            Some(panes) => {
                if string_listed(panes, pane_id) {
                    return Some(t);
                }
            },
            None => {},
        }
        i = i + 1;
    }
    assert forall|t: usize| #[trigger] pane_ids_by_tab@.contains_key(t) implies !pane_listed(
        pane_ids_by_tab@[t]@,
        pane_id@,
    ) by {
        let k = choose|k: int| 0 <= k < ids@.len() && ids@[k] == t;
        assert(pane_ids_by_tab@.contains_key(ids@[k]));
    }
    None
}

/// Whether `pane_id` is one of `pane_ids`.
fn string_listed(pane_ids: &Vec<String>, pane_id: &str) -> (listed: bool)
    ensures
        listed == pane_listed(pane_ids@, pane_id@),
{
    let n = pane_ids.len();
    let mut i: usize = 0;
    while i < n
        invariant
            n == pane_ids@.len(),
            i <= n,
            forall|k: int| 0 <= k < i ==> (#[trigger] pane_ids@[k])@ != pane_id@,
        decreases n - i,
    {
        if str_equal(pane_ids[i].as_str(), pane_id) {
            return true;
        }
        i = i + 1;
    }
    false
}

/// Whether some observation names pane `pane_id` of tab `tab_id`.
fn is_observed(observed: &[(usize, String)], tab_id: usize, pane_id: &str) -> (found: bool)
    ensures
        found == observed_pane(observed@, tab_id, pane_id@),
{
    let n = observed.len();
    let mut i: usize = 0;
    while i < n
        invariant
            n == observed@.len(),
            i <= n,
            forall|k: int|
                0 <= k < i ==> !(#[trigger] observed@[k].0 == tab_id && observed@[k].1@ == pane_id@),
        decreases n - i,
    {
        if observed[i].0 == tab_id && str_equal(observed[i].1.as_str(), pane_id) {
            return true;
        }
        i = i + 1;
    }
    false
}

/// Where the fact of a registration goes: the active tab for a fact without
/// a pane, else the tab that holds the pane (`RESULT_MISSING` when none
/// does).
pub fn ai_activity_target_tab(
    pane_id: &str,
    active_tab_id: usize,
    tab_of_pane: Option<usize>,
) -> (tab_id: Result<usize, &'static str>)
    ensures
        trim(pane_id@).len() == 0 ==> tab_id == Ok::<usize, &'static str>(active_tab_id),
        trim(pane_id@).len() > 0 ==> tab_id == match tab_of_pane {
            Some(t) => Ok::<usize, &'static str>(t),
            None => Err::<usize, &'static str>(RESULT_MISSING),
        },
{
    if trim_str(pane_id).is_empty() {
        return Ok(active_tab_id);
    }
    match tab_of_pane {
        Some(t) => Ok(t),
        None => Err(RESULT_MISSING),
    }
}

/// The facts of every tab once the terminal-title fact of `pane_id` is
/// dropped from tab `tab_id`, and the tab with it when nothing is left.
pub open spec fn after_title_removal(
    facts_by_tab: Map<usize, Seq<SessionAiPaneActivity>>,
    tab_id: usize,
    pane_id: Seq<char>,
) -> Map<usize, Seq<SessionAiPaneActivity>> {
    if !facts_by_tab.contains_key(tab_id) {
        facts_by_tab
    } else if without_title_fact(facts_by_tab[tab_id], pane_id).len() == 0 {
        facts_by_tab.remove(tab_id)
    } else {
        facts_by_tab.insert(tab_id, without_title_fact(facts_by_tab[tab_id], pane_id))
    }
}

/// Whether dropping the terminal-title fact of `pane_id` from tab `tab_id`
/// drops anything.
pub open spec fn title_removal_changes(
    facts_by_tab: Map<usize, Seq<SessionAiPaneActivity>>,
    tab_id: usize,
    pane_id: Seq<char>,
) -> bool {
    facts_by_tab.contains_key(tab_id) && without_title_fact(facts_by_tab[tab_id], pane_id).len()
        != facts_by_tab[tab_id].len()
}

/// The state of the terminal-title fact of `pane_id` among `facts`.
fn title_state_in(facts: &Vec<SessionAiPaneActivity>, pane_id: &str) -> (state: Option<
    SessionAiPaneActivityState,
>)
    ensures
        state == title_fact_state(facts@, pane_id@),
{
    proof {
        lemma_first_fact_with_key(facts@, TERMINAL_TITLE_ACTIVITY_PROVIDER@, pane_id@);
    }
    let n = facts.len();
    let mut i: usize = 0;
    while i < n
        invariant
            n == facts@.len(),
            i <= n,
            i <= first_fact_with_key(facts@, TERMINAL_TITLE_ACTIVITY_PROVIDER@, pane_id@) <= n,
            first_fact_with_key(facts@, TERMINAL_TITLE_ACTIVITY_PROVIDER@, pane_id@) < n
                ==> fact_has_key(
                facts@[first_fact_with_key(facts@, TERMINAL_TITLE_ACTIVITY_PROVIDER@, pane_id@)],
                TERMINAL_TITLE_ACTIVITY_PROVIDER@,
                pane_id@,
            ),
            forall|k: int|
                0 <= k < first_fact_with_key(facts@, TERMINAL_TITLE_ACTIVITY_PROVIDER@, pane_id@)
                    ==> !fact_has_key(
                    #[trigger] facts@[k],
                    TERMINAL_TITLE_ACTIVITY_PROVIDER@,
                    pane_id@,
                ),
        decreases n - i,
    {
        if str_equal(facts[i].provider.as_str(), TERMINAL_TITLE_ACTIVITY_PROVIDER) && str_equal(
            facts[i].pane_id.as_str(),
            pane_id,
        ) {
            assert(fact_has_key(facts@[i as int], TERMINAL_TITLE_ACTIVITY_PROVIDER@, pane_id@));
            return Some(facts[i].state);
        }
        i = i + 1;
    }
    None
}

/// The facts of tab `tab_id` that a snapshot of `observed` panes keeps, in
/// order.
pub open spec fn observed_facts(
    facts: Seq<SessionAiPaneActivity>,
    tab_id: usize,
    observed: Seq<(usize, String)>,
) -> Seq<SessionAiPaneActivity>
    decreases facts.len(),
{
    if facts.len() == 0 {
        facts
    } else if keeps_observed_fact(facts.last(), tab_id, observed) {
        observed_facts(facts.drop_last(), tab_id, observed).push(facts.last())
    } else {
        observed_facts(facts.drop_last(), tab_id, observed)
    }
}

/// The facts that survive a pane update of a tab whose panes are
/// `pane_ids`, in order.
pub open spec fn live_pane_facts(
    facts: Seq<SessionAiPaneActivity>,
    pane_ids: Seq<String>,
) -> Seq<SessionAiPaneActivity>
    decreases facts.len(),
{
    if facts.len() == 0 {
        facts
    } else if keeps_live_pane_fact(facts.last(), pane_ids) {
        live_pane_facts(facts.drop_last(), pane_ids).push(facts.last())
    } else {
        live_pane_facts(facts.drop_last(), pane_ids)
    }
}

/// The facts of tab `tab_id` that a snapshot of `observed` panes keeps.
fn keep_observed_facts(
    facts: &Vec<SessionAiPaneActivity>,
    tab_id: usize,
    observed: &[(usize, String)],
) -> (kept: Vec<SessionAiPaneActivity>)
    ensures
        kept@ == observed_facts(facts@, tab_id, observed@),
{
    let mut kept: Vec<SessionAiPaneActivity> = Vec::new();
    let n = facts.len();
    let mut i: usize = 0;
    while i < n
        invariant
            n == facts@.len(),
            i <= n,
            kept@ == observed_facts(facts@.take(i as int), tab_id, observed@),
        decreases n - i,
    {
        assert(facts@.take(i + 1).drop_last() =~= facts@.take(i as int));
        if !str_equal(facts[i].provider.as_str(), TERMINAL_TITLE_ACTIVITY_PROVIDER) || is_observed(
            observed,
            tab_id,
            facts[i].pane_id.as_str(),
        ) {
            kept.push(facts[i].clone());
        }
        i = i + 1;
    }
    assert(facts@.take(n as int) =~= facts@);
    kept
}

/// The facts that survive a pane update of a tab whose panes are `pane_ids`.
fn keep_live_pane_facts(facts: &Vec<SessionAiPaneActivity>, pane_ids: &Vec<String>) -> (kept: Vec<
    SessionAiPaneActivity,
>)
    ensures
        kept@ == live_pane_facts(facts@, pane_ids@),
{
    let mut kept: Vec<SessionAiPaneActivity> = Vec::new();
    let n = facts.len();
    let mut i: usize = 0;
    while i < n
        invariant
            n == facts@.len(),
            i <= n,
            kept@ == live_pane_facts(facts@.take(i as int), pane_ids@),
        decreases n - i,
    {
        assert(facts@.take(i + 1).drop_last() =~= facts@.take(i as int));
        if trim_str(facts[i].pane_id.as_str()).is_empty() || string_listed(
            pane_ids,
            facts[i].pane_id.as_str(),
        ) {
            kept.push(facts[i].clone());
        }
        i = i + 1;
    }
    assert(facts@.take(n as int) =~= facts@);
    kept
}

/// Recording a fact for a tab is read back from that tab, and leaves the
/// facts of every other tab as they were.
pub proof fn law_record_then_read(
    facts_by_tab: Map<usize, Seq<SessionAiPaneActivity>>,
    tab_id: usize,
    fact: SessionAiPaneActivity,
)
    ensures
        ({
            let after = facts_by_tab.insert(
                tab_id,
                upserted_facts(tab_facts(facts_by_tab, tab_id), fact),
            );
            &&& tab_facts(after, tab_id).contains(fact)
            &&& forall|t: usize| t != tab_id ==> #[trigger] tab_facts(after, t) == tab_facts(facts_by_tab, t)
        }),
{
    let facts = tab_facts(facts_by_tab, tab_id);
    if is_keyed_fact(fact) {
        lemma_first_fact_with_key(facts, fact.provider@, fact.pane_id@);
        let i = first_fact_with_key(facts, fact.provider@, fact.pane_id@);
        if i < facts.len() {
            assert(upserted_facts(facts, fact)[i] == fact);
        } else {
            assert(upserted_facts(facts, fact).last() == fact);
        }
    } else {
        assert(upserted_facts(facts, fact).last() == fact);
    }
}

/// Recording keeps every tab's facts keyed once: at most one fact per
/// provider and pane in each tab, and at most one fact without a pane.
pub proof fn law_record_keeps_tabs_keyed_once(
    facts_by_tab: Map<usize, Seq<SessionAiPaneActivity>>,
    tab_id: usize,
    fact: SessionAiPaneActivity,
)
    requires
        forall|t: usize| #[trigger] facts_by_tab.contains_key(t) ==> facts_are_keyed_once(facts_by_tab[t]),
    ensures
        ({
            let after = facts_by_tab.insert(
                tab_id,
                upserted_facts(tab_facts(facts_by_tab, tab_id), fact),
            );
            forall|t: usize| #[trigger] after.contains_key(t) ==> facts_are_keyed_once(after[t])
        }),
{
    let facts = tab_facts(facts_by_tab, tab_id);
    if !facts_by_tab.contains_key(tab_id) {
        assert(facts_are_keyed_once(facts));
    }
    crate::ai_pane_activity_contract::law_upsert_keeps_facts_keyed_once(facts, fact);
}

/// Once a title has put a pane in a state, the pane's terminal-title fact
/// reads back that state; observing the same title again reports no change.
pub proof fn law_observed_title_reads_back(
    facts: Seq<SessionAiPaneActivity>,
    fact: SessionAiPaneActivity,
    tab_position: usize,
    pane_id: Seq<char>,
    state: SessionAiPaneActivityState,
)
    requires
        is_title_fact(fact, tab_position, pane_id, state),
    ensures
        title_fact_state(upserted_facts(facts, fact), pane_id) == Some(state),
{
    let after = upserted_facts(facts, fact);
    let provider = TERMINAL_TITLE_ACTIVITY_PROVIDER@;
    lemma_first_fact_with_key(after, provider, pane_id);
    let j = first_fact_with_key(after, provider, pane_id);
    if is_keyed_fact(fact) {
        lemma_first_fact_with_key(facts, provider, pane_id);
        let i = first_fact_with_key(facts, provider, pane_id);
        let at = if i < facts.len() {
            i
        } else {
            facts.len() as int
        };
        assert(after[at] == fact);
        assert(fact_has_key(after[at], provider, pane_id));
        if j < at {
            assert(after[j] == facts[j]);
        }
        assert(j == at);
    } else {
        crate::ai_pane_activity_contract::lemma_keyed_facts(facts);
        let kept = keyed_facts(facts);
        let at = kept.len() as int;
        assert(after[at] == fact);
        assert(fact_has_key(after[at], provider, pane_id));
        if j < at {
            assert(after[j] == kept[j]);
            assert(is_keyed_fact(kept[j]));
        }
        assert(j == at);
    }
}

/// One terminal seen in a title snapshot: its tab, its pane key and its
/// title.
#[derive(Debug, PartialEq, Eq)]
pub struct TitleObservation {
    pub tab_id: usize,
    pub pane_id: String,
    pub title: String,
}

/// `after` is `before` once the title of pane `pane_id` of tab `tab_id` (at
/// `tab_position`) is applied as `observe_title` applies it, with no command
/// marker.
pub open spec fn title_step(
    before: Map<usize, Seq<SessionAiPaneActivity>>,
    after: Map<usize, Seq<SessionAiPaneActivity>>,
    tab_id: usize,
    tab_position: usize,
    pane_id: Seq<char>,
    title: Seq<char>,
) -> bool {
    match managed_title_activity_state(title, None, None) {
        None => after == after_title_removal(before, tab_id, pane_id),
        Some(state) => exists|fact: SessionAiPaneActivity|
            is_title_fact(fact, tab_position, pane_id, state) && after == before.insert(
                tab_id,
                upserted_facts(tab_facts(before, tab_id), fact),
            ),
    }
}

/// `trace` runs the observations one by one from `start`: an observation of
/// a known tab (a key of `positions`) is a `title_step` at that tab's
/// position, any other leaves the facts as they are.
pub open spec fn is_snapshot_trace(
    trace: Seq<Map<usize, Seq<SessionAiPaneActivity>>>,
    start: Map<usize, Seq<SessionAiPaneActivity>>,
    positions: Map<usize, usize>,
    observations: Seq<TitleObservation>,
) -> bool {
    &&& trace.len() == observations.len() + 1
    &&& trace[0] == start
    &&& forall|i: int|
        0 <= i < observations.len() ==> if positions.contains_key(
            (#[trigger] observations[i]).tab_id,
        ) {
            title_step(
                trace[i],
                trace[i + 1],
                observations[i].tab_id,
                positions[observations[i].tab_id],
                observations[i].pane_id@,
                observations[i].title@,
            )
        } else {
            trace[i + 1] == trace[i]
        }
}

/// The `(tab, pane)` pairs of the observations of known tabs, in order.
pub open spec fn observed_panes(
    positions: Map<usize, usize>,
    observations: Seq<TitleObservation>,
) -> Seq<(usize, String)>
    decreases observations.len(),
{
    if observations.len() == 0 {
        Seq::empty()
    } else {
        let rest = observed_panes(positions, observations.drop_last());
        if positions.contains_key(observations.last().tab_id) {
            rest.push((observations.last().tab_id, observations.last().pane_id))
        } else {
            rest
        }
    }
}

/// The facts after a snapshot has been applied: in each tab only the
/// facts that are not terminal-title facts and the title facts of observed
/// panes stay, and tabs left without facts go.
pub open spec fn after_snapshot(
    facts_by_tab: Map<usize, Seq<SessionAiPaneActivity>>,
    observed: Seq<(usize, String)>,
) -> Map<usize, Seq<SessionAiPaneActivity>> {
    Map::new(
        |t: usize|
            facts_by_tab.contains_key(t) && observed_facts(facts_by_tab[t], t, observed).len() > 0,
        |t: usize| observed_facts(facts_by_tab[t], t, observed),
    )
}

/// The AI activity facts of every tab, keyed by tab id.
pub struct AiPaneActivityStore {
    facts_by_tab: HashMap<usize, Vec<SessionAiPaneActivity>>,
}

impl View for AiPaneActivityStore {
    type V = Map<usize, Seq<SessionAiPaneActivity>>;

    closed spec fn view(&self) -> Map<usize, Seq<SessionAiPaneActivity>> {
        facts_view(self.facts_by_tab@)
    }
}

/// The ids of the tabs of `map` (each of them, at least once).
pub(crate) fn tab_ids_of<V>(map: &HashMap<usize, V>) -> (ids: Vec<usize>)
    ensures
        forall|t: usize| #[trigger] map@.contains_key(t) ==> ids@.contains(t),
{
    let mut ids: Vec<usize> = Vec::new();
    for key in it: map.keys()
        invariant
            forall|x: usize|
                #[trigger] map@.contains_key(x) ==> ids@.contains(x) || exists|k: int|
                    it.index() <= k < it.seq().len() && *it.seq()[k] == x,
    {
        let ghost before = ids@;
        ids.push(*key);
        proof {
            assert forall|x: usize| #[trigger] map@.contains_key(x) implies ids@.contains(x)
                || exists|k: int| it.index() + 1 <= k < it.seq().len() && *it.seq()[k] == x by {
                if before.contains(x) {
                    let k = choose|k: int| 0 <= k < before.len() && before[k] == x;
                    assert(ids@[k] == x);
                } else if x == *key {
                    assert(ids@[ids@.len() - 1] == x);
                } else {
                    let k = choose|k: int| it.index() <= k < it.seq().len() && *it.seq()[k] == x;
                    assert(k != it.index());
                }
            }
        }
    }
    ids
}

impl AiPaneActivityStore {
    /// No facts recorded.
    pub fn new() -> (store: Self)
        ensures
            store@ == Map::<usize, Seq<SessionAiPaneActivity>>::empty(),
    {
        let store = AiPaneActivityStore { facts_by_tab: HashMap::new() };
        assert(store@ =~= Map::<usize, Seq<SessionAiPaneActivity>>::empty());
        store
    }

    /// The facts of one tab, in order (none for a tab without facts).
    pub fn facts_for_tab(&self, tab_id: usize) -> (facts: Vec<SessionAiPaneActivity>)
        ensures
            facts@ == tab_facts(self@, tab_id),
    {
        match self.facts_by_tab.get(&tab_id) {
            Some(facts) => facts.clone(),
            None => Vec::new(),
        }
    }

    /// Whether a tab has facts recorded.
    pub fn has_tab(&self, tab_id: usize) -> (has: bool)
        ensures
            has == self@.contains_key(tab_id),
    {
        self.facts_by_tab.contains_key(&tab_id)
    }

    /// Drops the facts of tabs that no longer exist.
    pub fn retain_tabs(&mut self, current_tab_ids: &HashSet<usize>)
        ensures
            final(self)@ == old(self)@.restrict(current_tab_ids@),
    {
        retain_current_tab_state(&mut self.facts_by_tab, current_tab_ids);
        assert(self@ =~= old(self)@.restrict(current_tab_ids@));
    }

    /// Records `fact` among the facts of `tab_id` (see `upserted_facts`).
    pub fn record(&mut self, tab_id: usize, fact: SessionAiPaneActivity)
        ensures
            final(self)@ == old(self)@.insert(
                tab_id,
                upserted_facts(tab_facts(old(self)@, tab_id), fact),
            ),
    {
        let mut facts = match self.facts_by_tab.remove(&tab_id) {
            Some(facts) => facts,
            None => Vec::new(),
        };
        upsert_ai_pane_activity_fact(&mut facts, fact);
        self.facts_by_tab.insert(tab_id, facts);
        assert(self@ =~= old(self)@.insert(
            tab_id,
            upserted_facts(tab_facts(old(self)@, tab_id), fact),
        ));
    }

    /// Drops the terminal-title fact of `pane_id` from tab `tab_id`, and the
    /// tab when no fact is left; tells whether a fact was dropped.
    pub fn remove_title_fact(&mut self, tab_id: usize, pane_id: &str) -> (changed: bool)
        ensures
            final(self)@ == after_title_removal(old(self)@, tab_id, pane_id@),
            changed == title_removal_changes(old(self)@, tab_id, pane_id@),
    {
        let mut facts = match self.facts_by_tab.remove(&tab_id) {
            Some(facts) => facts,
            None => {
                assert(self@ =~= old(self)@);
                return false;
            },
        };
        let previous_len = facts.len();
        remove_ai_pane_activity_fact(&mut facts, TERMINAL_TITLE_ACTIVITY_PROVIDER, pane_id);
        let changed = facts.len() != previous_len;
        if facts.len() > 0 {
            self.facts_by_tab.insert(tab_id, facts);
        }
        proof {
            let left = without_title_fact(old(self)@[tab_id], pane_id@);
            if left.len() == 0 {
                assert(self@ =~= old(self)@.remove(tab_id));
            } else {
                assert(self@ =~= old(self)@.insert(tab_id, left));
            }
        }
        changed
    }

    /// The state of the terminal-title fact of `pane_id` in tab `tab_id`.
    pub fn title_state(&self, tab_id: usize, pane_id: &str) -> (state: Option<
        SessionAiPaneActivityState,
    >)
        ensures
            state == title_fact_state(tab_facts(self@, tab_id), pane_id@),
    {
        match self.facts_by_tab.get(&tab_id) {
            Some(facts) => title_state_in(facts, pane_id),
            None => None,
        }
    }

    /// Applies what a terminal title says of pane `pane_id` of tab `tab_id`:
    /// an activity title records the terminal-title fact of the pane (for the
    /// tab at `tab_position`); any other title drops it. Tells whether the
    /// pane's recorded state changed.
    pub fn observe_title(
        &mut self,
        tab_id: usize,
        tab_position: usize,
        pane_id: &str,
        title: &str,
        terminal_command: Option<&str>,
        command_marker: Option<&str>,
    ) -> (changed: bool)
        ensures
            match managed_title_activity_state(
                title@,
                opt_str_view(terminal_command),
                opt_str_view(command_marker),
            ) {
                None => final(self)@ == after_title_removal(old(self)@, tab_id, pane_id@) && changed
                    == title_removal_changes(old(self)@, tab_id, pane_id@),
                Some(state) => (exists|fact: SessionAiPaneActivity|
                    is_title_fact(fact, tab_position, pane_id@, state) && final(self)@ == old(
                        self,
                    )@.insert(tab_id, upserted_facts(tab_facts(old(self)@, tab_id), fact)))
                    && changed == (title_fact_state(tab_facts(old(self)@, tab_id), pane_id@)
                    != Some(state)),
            },
    {
        let previous = self.title_state(tab_id, pane_id);
        match managed_terminal_title_activity_state(title, terminal_command, command_marker) {
            None => self.remove_title_fact(tab_id, pane_id),
            Some(state) => {
                let fact = SessionAiPaneActivity::tab_local(
                    tab_position,
                    TERMINAL_TITLE_ACTIVITY_PROVIDER.to_string(),
                    pane_id.to_string(),
                    state,
                );
                let ghost recorded = fact;
                self.record(tab_id, fact);
                proof {
                    assert(is_title_fact(recorded, tab_position, pane_id@, state));
                }
                match previous {
                    Some(p) => p != state,
                    None => true,
                }
            },
        }
    }

    /// Drops the tabs whose facts are all gone.
    pub fn retain_nonempty_tabs(&mut self)
        ensures
            final(self)@ == old(self)@.restrict(
                Set::new(|t: usize| old(self)@.contains_key(t) && old(self)@[t].len() > 0),
            ),
    {
        let ids = tab_ids_of(&self.facts_by_tab);
        let ghost before = self.facts_by_tab@;
        let mut kept: HashMap<usize, Vec<SessionAiPaneActivity>> = HashMap::new();
        let n = ids.len();
        let mut i: usize = 0;
        while i < n
            invariant
                n == ids@.len(),
                i <= n,
                self.facts_by_tab@ == before,
                forall|t: usize| #[trigger] before.contains_key(t) ==> ids@.contains(t),
                forall|t: usize|
                    #[trigger] kept@.contains_key(t) <==> before.contains_key(t) && before[t]@.len()
                        > 0 && ids@.take(i as int).contains(t),
                forall|t: usize| #[trigger] kept@.contains_key(t) ==> kept@[t]@ == before[t]@,
            decreases n - i,
        {
            let t = ids[i];
            let facts = self.facts_by_tab.get(&t);
            match facts {
                Some(facts) => {
                    if facts.len() > 0 {
                        kept.insert(t, facts.clone());
                    }
                },
                None => {},
            }
            proof {
                let done = ids@.take(i as int);
                let next = ids@.take(i + 1);
                assert forall|x: usize|
                    #[trigger] kept@.contains_key(x) <==> before.contains_key(x) && before[x]@.len()
                        > 0 && next.contains(x) by {
                    if next.contains(x) && x != t {
                        let k = choose|k: int| 0 <= k < next.len() && next[k] == x;
                        assert(done[k] == x);
                    }
                    if done.contains(x) {
                        let k = choose|k: int| 0 <= k < done.len() && done[k] == x;
                        assert(next[k] == x);
                    }
                    if x == t {
                        assert(next[i as int] == x);
                    }
                }
            }
            i = i + 1;
        }
        assert(ids@.take(n as int) =~= ids@);
        self.facts_by_tab = kept;
        assert(self@ =~= old(self)@.restrict(
            Set::new(|t: usize| old(self)@.contains_key(t) && old(self)@[t].len() > 0),
        ));
    }

    /// Drops the terminal-title fact of `pane_id` from every tab, and the
    /// tabs left without facts; tells whether a fact was dropped.
    pub fn remove_title_facts_for_pane(&mut self, pane_id: &str) -> (changed: bool)
        ensures
            final(self)@ == Map::new(
                |t: usize|
                    old(self)@.contains_key(t) && without_title_fact(old(self)@[t], pane_id@).len()
                        > 0,
                |t: usize| without_title_fact(old(self)@[t], pane_id@),
            ),
            changed == exists|t: usize|
                #[trigger] old(self)@.contains_key(t) && without_title_fact(
                    old(self)@[t],
                    pane_id@,
                ).len() != old(self)@[t].len(),
    {
        let ids = tab_ids_of(&self.facts_by_tab);
        let ghost before = self.facts_by_tab@;
        let mut kept: HashMap<usize, Vec<SessionAiPaneActivity>> = HashMap::new();
        let mut changed = false;
        let n = ids.len();
        let mut i: usize = 0;
        while i < n
            invariant
                n == ids@.len(),
                i <= n,
                self.facts_by_tab@ == before,
                forall|t: usize| #[trigger] before.contains_key(t) ==> ids@.contains(t),
                forall|t: usize|
                    #[trigger] kept@.contains_key(t) <==> before.contains_key(t)
                        && without_title_fact(before[t]@, pane_id@).len() > 0 && ids@.take(
                        i as int,
                    ).contains(t),
                forall|t: usize|
                    #[trigger] kept@.contains_key(t) ==> kept@[t]@ == without_title_fact(
                        before[t]@,
                        pane_id@,
                    ),
                changed == exists|t: usize|
                    #[trigger] before.contains_key(t) && ids@.take(i as int).contains(t)
                        && without_title_fact(before[t]@, pane_id@).len() != before[t]@.len(),
            decreases n - i,
        {
            let t = ids[i];
            let ghost changed_before = changed;
            match self.facts_by_tab.get(&t) {
                Some(facts) => {
                    let mut left = facts.clone();
                    remove_ai_pane_activity_fact(&mut left, TERMINAL_TITLE_ACTIVITY_PROVIDER, pane_id);
                    if left.len() != facts.len() {
                        changed = true;
                    }
                    if left.len() > 0 {
                        kept.insert(t, left);
                    }
                },
                None => {},
            }
            proof {
                let done = ids@.take(i as int);
                let next = ids@.take(i + 1);
                assert(next[i as int] == t);
                assert forall|x: usize| #[trigger] next.contains(x) <==> done.contains(x) || x == t by {
                    if next.contains(x) && x != t {
                        let k = choose|k: int| 0 <= k < next.len() && next[k] == x;
                        assert(done[k] == x);
                    }
                    if done.contains(x) {
                        let k = choose|k: int| 0 <= k < done.len() && done[k] == x;
                        assert(next[k] == x);
                    }
                }
                if changed_before {
                    let w = choose|w: usize|
                        #[trigger] before.contains_key(w) && done.contains(w) && without_title_fact(
                            before[w]@,
                            pane_id@,
                        ).len() != before[w]@.len();
                    assert(next.contains(w));
                }
                if changed && !changed_before {
                    assert(before.contains_key(t) && next.contains(t));
                }
            }
            i = i + 1;
        }
        assert(ids@.take(n as int) =~= ids@);
        self.facts_by_tab = kept;
        proof {
            assert(self@ =~= Map::new(
                |t: usize|
                    old(self)@.contains_key(t) && without_title_fact(old(self)@[t], pane_id@).len()
                        > 0,
                |t: usize| without_title_fact(old(self)@[t], pane_id@),
            ));
            if exists|t: usize|
                #[trigger] old(self)@.contains_key(t) && without_title_fact(
                    old(self)@[t],
                    pane_id@,
                ).len() != old(self)@[t].len() {
                let w = choose|w: usize|
                    #[trigger] old(self)@.contains_key(w) && without_title_fact(
                        old(self)@[w],
                        pane_id@,
                    ).len() != old(self)@[w].len();
                assert(before.contains_key(w));
                assert(ids@.contains(w));
            }
            if changed {
                let w = choose|w: usize|
                    #[trigger] before.contains_key(w) && ids@.contains(w) && without_title_fact(
                        before[w]@,
                        pane_id@,
                    ).len() != before[w]@.len();
                assert(old(self)@.contains_key(w));
                assert(old(self)@[w] == before[w]@);
            }
        }
        changed
    }

    /// Keeps, in every tab, the facts that are not terminal-title facts and
    /// the terminal-title facts of the `observed` panes of that tab.
    pub fn retain_observed_facts(&mut self, observed: &[(usize, String)])
        ensures
            final(self)@ == Map::new(
                |t: usize| old(self)@.contains_key(t),
                |t: usize| observed_facts(old(self)@[t], t, observed@),
            ),
    {
        let ids = tab_ids_of(&self.facts_by_tab);
        let ghost before = self.facts_by_tab@;
        let mut kept: HashMap<usize, Vec<SessionAiPaneActivity>> = HashMap::new();
        let n = ids.len();
        let mut i: usize = 0;
        while i < n
            invariant
                n == ids@.len(),
                i <= n,
                self.facts_by_tab@ == before,
                forall|t: usize| #[trigger] before.contains_key(t) ==> ids@.contains(t),
                forall|t: usize|
                    #[trigger] kept@.contains_key(t) <==> before.contains_key(t) && ids@.take(
                        i as int,
                    ).contains(t),
                forall|t: usize|
                    #[trigger] kept@.contains_key(t) ==> kept@[t]@ == observed_facts(
                        before[t]@,
                        t,
                        observed@,
                    ),
            decreases n - i,
        {
            let t = ids[i];
            match self.facts_by_tab.get(&t) {
                Some(facts) => {
                    let left = keep_observed_facts(facts, t, observed);
                    kept.insert(t, left);
                },
                None => {},
            }
            proof {
                let done = ids@.take(i as int);
                let next = ids@.take(i + 1);
                assert(next[i as int] == t);
                assert forall|x: usize| #[trigger] next.contains(x) <==> done.contains(x) || x == t by {
                    if next.contains(x) && x != t {
                        let k = choose|k: int| 0 <= k < next.len() && next[k] == x;
                        assert(done[k] == x);
                    }
                    if done.contains(x) {
                        let k = choose|k: int| 0 <= k < done.len() && done[k] == x;
                        assert(next[k] == x);
                    }
                }
            }
            i = i + 1;
        }
        assert(ids@.take(n as int) =~= ids@);
        self.facts_by_tab = kept;
        assert(self@ =~= Map::new(
            |t: usize| old(self)@.contains_key(t),
            |t: usize| observed_facts(old(self)@[t], t, observed@),
        ));
    }

    /// Brings the facts in line with a pane update: tabs without panes lose
    /// their facts, and a fact naming a pane its tab no longer has is dropped.
    pub fn reconcile_panes(&mut self, pane_ids_by_tab: &HashMap<usize, Vec<String>>)
        ensures
            final(self)@ == Map::new(
                |t: usize| old(self)@.contains_key(t) && pane_ids_by_tab@.contains_key(t),
                |t: usize| live_pane_facts(old(self)@[t], pane_ids_by_tab@[t]@),
            ),
    {
        let ids = tab_ids_of(&self.facts_by_tab);
        let ghost before = self.facts_by_tab@;
        let mut kept: HashMap<usize, Vec<SessionAiPaneActivity>> = HashMap::new();
        let n = ids.len();
        let mut i: usize = 0;
        while i < n
            invariant
                n == ids@.len(),
                i <= n,
                self.facts_by_tab@ == before,
                forall|t: usize| #[trigger] before.contains_key(t) ==> ids@.contains(t),
                forall|t: usize|
                    #[trigger] kept@.contains_key(t) <==> before.contains_key(t)
                        && pane_ids_by_tab@.contains_key(t) && ids@.take(i as int).contains(t),
                forall|t: usize|
                    #[trigger] kept@.contains_key(t) ==> kept@[t]@ == live_pane_facts(
                        before[t]@,
                        pane_ids_by_tab@[t]@,
                    ),
            decreases n - i,
        {
            let t = ids[i];
            match self.facts_by_tab.get(&t) {
                Some(facts) => match pane_ids_by_tab.get(&t) {
                    Some(pane_ids) => {
                        let left = keep_live_pane_facts(facts, pane_ids);
                        kept.insert(t, left);
                    },
                    None => {},
                },
                None => {},
            }
            proof {
                let done = ids@.take(i as int);
                let next = ids@.take(i + 1);
                assert(next[i as int] == t);
                assert forall|x: usize| #[trigger] next.contains(x) <==> done.contains(x) || x == t by {
                    if next.contains(x) && x != t {
                        let k = choose|k: int| 0 <= k < next.len() && next[k] == x;
                        assert(done[k] == x);
                    }
                    if done.contains(x) {
                        let k = choose|k: int| 0 <= k < done.len() && done[k] == x;
                        assert(next[k] == x);
                    }
                }
            }
            i = i + 1;
        }
        assert(ids@.take(n as int) =~= ids@);
        self.facts_by_tab = kept;
        assert(self@ =~= Map::new(
            |t: usize| old(self)@.contains_key(t) && pane_ids_by_tab@.contains_key(t),
            |t: usize| live_pane_facts(old(self)@[t], pane_ids_by_tab@[t]@),
        ));
    }

    /// The facts of tab `tab_id`, each moved to the tab at `tab_position`.
    pub fn active_snapshot(&self, tab_id: usize, tab_position: usize) -> (snapshot: Vec<
        SessionAiPaneActivity,
    >)
        ensures
            snapshot@.len() == tab_facts(self@, tab_id).len(),
            forall|i: int|
                0 <= i < snapshot@.len() ==> at_position(
                    #[trigger] snapshot@[i],
                    tab_facts(self@, tab_id)[i],
                    tab_position,
                ),
    {
        let facts = self.facts_for_tab(tab_id);
        let mut snapshot: Vec<SessionAiPaneActivity> = Vec::new();
        let n = facts.len();
        let mut i: usize = 0;
        while i < n
            invariant
                n == facts@.len(),
                facts@ == tab_facts(self@, tab_id),
                i <= n,
                snapshot@.len() == i,
                forall|k: int|
                    0 <= k < i ==> at_position(#[trigger] snapshot@[k], facts@[k], tab_position),
            decreases n - i,
        {
            let mut fact = facts[i].clone();
            fact.tab_position = Some(tab_position);
            snapshot.push(fact);
            i = i + 1;
        }
        snapshot
    }

    /// Applies a snapshot of terminal titles: each observation of a tab the
    /// identity knows is applied as `observe_title` applies it (at the tab's
    /// position, with no command marker), in order; then terminal-title
    /// facts of panes the snapshot did not observe are dropped, and tabs
    /// left without facts go.
    pub fn reconcile_title_snapshot(
        &mut self,
        identity: &TabIdentityState,
        observations: &[TitleObservation],
    )
        ensures
            exists|trace: Seq<Map<usize, Seq<SessionAiPaneActivity>>>|
                is_snapshot_trace(trace, old(self)@, identity.position_map(), observations@)
                    && final(self)@ == after_snapshot(
                    trace.last(),
                    observed_panes(identity.position_map(), observations@),
                ),
    {
        let ghost positions = identity.position_map();
        let ghost mut trace: Seq<Map<usize, Seq<SessionAiPaneActivity>>> = seq![self@];
        let mut observed: Vec<(usize, String)> = Vec::new();
        let n = observations.len();
        let mut i: usize = 0;
        while i < n
            invariant
                n == observations@.len(),
                i <= n,
                positions == identity.position_map(),
                trace.len() == i + 1,
                trace[0] == old(self)@,
                trace.last() == self@,
                forall|k: int|
                    0 <= k < i ==> if positions.contains_key((#[trigger] observations@[k]).tab_id) {
                        title_step(
                            trace[k],
                            trace[k + 1],
                            observations@[k].tab_id,
                            positions[observations@[k].tab_id],
                            observations@[k].pane_id@,
                            observations@[k].title@,
                        )
                    } else {
                        trace[k + 1] == trace[k]
                    },
                observed@ == observed_panes(positions, observations@.take(i as int)),
            decreases n - i,
        {
            let ghost before = self@;
            let observation = &observations[i];
            assert(observations@.take(i + 1).drop_last() =~= observations@.take(i as int));
            match identity.position_for_tab_id(observation.tab_id) {
                Some(position) => {
                    self.observe_title(
                        observation.tab_id,
                        position,
                        observation.pane_id.as_str(),
                        observation.title.as_str(),
                        None,
                        None,
                    );
                    observed.push((observation.tab_id, observation.pane_id.clone()));
                },
                None => {},
            }
            proof {
                let ghost old_trace = trace;
                trace = trace.push(self@);
                assert forall|k: int| 0 <= k < i + 1 implies if positions.contains_key(
                    (#[trigger] observations@[k]).tab_id,
                ) {
                    title_step(
                        trace[k],
                        trace[k + 1],
                        observations@[k].tab_id,
                        positions[observations@[k].tab_id],
                        observations@[k].pane_id@,
                        observations@[k].title@,
                    )
                } else {
                    trace[k + 1] == trace[k]
                } by {
                    if k < i {
                        assert(trace[k] == old_trace[k] && trace[k + 1] == old_trace[k + 1]);
                    } else {
                        assert(trace[k] == before);
                        assert(trace[k + 1] == self@);
                    }
                }
            }
            i = i + 1;
        }
        assert(observations@.take(n as int) =~= observations@);
        self.retain_observed_facts(observed.as_slice());
        self.retain_nonempty_tabs();
        assert(self@ =~= after_snapshot(trace.last(), observed_panes(positions, observations@)));
        assert(is_snapshot_trace(trace, old(self)@, positions, observations@));
    }
}

/// The read state of every tab for the all-tab activity snapshot, from the
/// `(position, tab id)` pairs of the tabs, their names and their facts;
/// `None` when a tab's name is not known yet.
pub fn tab_activity_read_states(
    tab_ids_by_position: &[(usize, usize)],
    tab_names: &HashMap<usize, String>,
    store: &AiPaneActivityStore,
) -> (states: Option<Vec<TabActivityReadState>>)
    ensures
        states is None <==> exists|k: int|
            0 <= k < tab_ids_by_position@.len() && !tab_names@.contains_key(
                #[trigger] tab_ids_by_position@[k].1,
            ),
        states matches Some(read) ==> {
            &&& read@.len() == tab_ids_by_position@.len()
            &&& forall|k: int|
                0 <= k < read@.len() ==> {
                    let (position, tab_id) = tab_ids_by_position@[k];
                    &&& (#[trigger] read@[k]).tab_id == tab_id
                    &&& read@[k].tab_position == position
                    &&& read@[k].current_name@ == tab_names@[tab_id]@
                    &&& read@[k].base_name is None
                    &&& read@[k].activity@ == tab_facts(store@, tab_id)
                }
        },
{
    let mut read: Vec<TabActivityReadState> = Vec::new();
    let n = tab_ids_by_position.len();
    let mut i: usize = 0;
    while i < n
        invariant
            n == tab_ids_by_position@.len(),
            i <= n,
            read@.len() == i,
            forall|k: int| 0 <= k < i ==> tab_names@.contains_key(#[trigger] tab_ids_by_position@[k].1),
            forall|k: int|
                0 <= k < i ==> {
                    let (position, tab_id) = tab_ids_by_position@[k];
                    &&& (#[trigger] read@[k]).tab_id == tab_id
                    &&& read@[k].tab_position == position
                    &&& read@[k].current_name@ == tab_names@[tab_id]@
                    &&& read@[k].base_name is None
                    &&& read@[k].activity@ == tab_facts(store@, tab_id)
                },
        decreases n - i,
    {
        let (position, tab_id) = tab_ids_by_position[i];
        let name = match tab_names.get(&tab_id) {
            Some(name) => name.clone(),
            None => {
                return None;
            },
        };
        read.push(
            TabActivityReadState {
                tab_id,
                tab_position: position,
                current_name: name,
                base_name: None,
                activity: store.facts_for_tab(tab_id),
            },
        );
        i = i + 1;
    }
    Some(read)
}

} // verus!
