use vstd::prelude::*;

use crate::active_tab_session_state::{
    activity_state_from_token, SessionAiPaneActivity, SessionAiPaneActivityState,
};
use crate::text::{
    chars_contain_run, chars_of, contains_run, has_non_white, is_white_space,
    lemma_trim_end_after_prefix, lemma_trim_of_trim_end, str_equal, trim, trim_bounds,
    trim_bounds_in, trim_end, trim_start, trim_str,
};

verus! {

/// Provider name of the facts derived from spinner-prefixed terminal titles.
pub const TERMINAL_TITLE_ACTIVITY_PROVIDER: &'static str = "terminal-title";

/// A registration of AI pane activity, as read from a pipe payload.
#[derive(Debug, PartialEq, Eq)]
pub struct AiPaneActivityRegistration {
    pub provider: String,
    pub pane_id: String,
    pub activity: String,
    pub state: Option<SessionAiPaneActivityState>,
}

/// The state a registration stands for: an explicit state wins; otherwise a
/// blank activity token is `Unknown`, and any other token is read by
/// `activity_state_from_token` after trimming.
pub open spec fn normalized_state(
    state: Option<SessionAiPaneActivityState>,
    activity: Seq<char>,
) -> Option<SessionAiPaneActivityState> {
    match state {
        Some(s) => Some(s),
        None => if trim(activity).len() == 0 {
            Some(SessionAiPaneActivityState::Unknown)
        } else {
            activity_state_from_token(trim(activity))
        },
    }
}

/// Reduces a registration to its normalized state (`None` when the activity
/// token names no state).
pub fn normalized_ai_activity_state(registration: &AiPaneActivityRegistration) -> (state: Option<
    SessionAiPaneActivityState,
>)
    ensures
        state == normalized_state(registration.state, registration.activity@),
{
    if let Some(state) = registration.state {
        return Some(state);
    }
    let activity = trim_str(registration.activity.as_str());
    if activity.is_empty() {
        return Some(SessionAiPaneActivityState::Unknown);
    }
    SessionAiPaneActivityState::from_activity(activity)
}

/// A tab's activity depends only on which states its facts are in, wherever
/// they stand: any stale fact makes the tab alert; with none stale, any
/// active or thinking fact makes it busy; otherwise it is idle.
pub proof fn law_tab_state_reduces_facts(facts: Seq<SessionAiPaneActivity>)
    ensures
        (exists|k: int| 0 <= k < facts.len() && facts[k].state == SessionAiPaneActivityState::Stale)
            ==> tab_activity_state(facts) == AiActivityTabState::Alert,
        tab_activity_state(facts) == AiActivityTabState::Alert ==> exists|k: int|
            0 <= k < facts.len() && facts[k].state == SessionAiPaneActivityState::Stale,
        tab_activity_state(facts) == AiActivityTabState::Busy <==> (forall|k: int|
            0 <= k < facts.len() ==> facts[k].state != SessionAiPaneActivityState::Stale) && (exists|
            k: int,
        |
            0 <= k < facts.len() && (facts[k].state == SessionAiPaneActivityState::Active
                || facts[k].state == SessionAiPaneActivityState::Thinking)),
        tab_activity_state(facts) == AiActivityTabState::Idle <==> forall|k: int|
            0 <= k < facts.len() ==> facts[k].state != SessionAiPaneActivityState::Stale
                && facts[k].state != SessionAiPaneActivityState::Active && facts[k].state
                != SessionAiPaneActivityState::Thinking,
{
    if exists|k: int| 0 <= k < facts.len() && facts[k].state == SessionAiPaneActivityState::Stale {
        let k = choose|k: int|
            0 <= k < facts.len() && facts[k].state == SessionAiPaneActivityState::Stale;
        assert(has_fact_in_state(facts, SessionAiPaneActivityState::Stale));
    }
    if exists|k: int|
        0 <= k < facts.len() && (facts[k].state == SessionAiPaneActivityState::Active
            || facts[k].state == SessionAiPaneActivityState::Thinking) {
        let k = choose|k: int|
            0 <= k < facts.len() && (facts[k].state == SessionAiPaneActivityState::Active
                || facts[k].state == SessionAiPaneActivityState::Thinking);
        if facts[k].state == SessionAiPaneActivityState::Active {
            assert(has_fact_in_state(facts, SessionAiPaneActivityState::Active));
        } else {
            assert(has_fact_in_state(facts, SessionAiPaneActivityState::Thinking));
        }
    }
}

/// Activity of a whole tab.
#[derive(Debug, Clone, Copy, PartialEq, Eq, Structural)]
pub enum AiActivityTabState {
    Idle,
    Busy,
    Alert,
}

/// Some fact in `facts` has state `state`.
pub open spec fn has_fact_in_state(
    facts: Seq<SessionAiPaneActivity>,
    state: SessionAiPaneActivityState,
) -> bool {
    exists|i: int| 0 <= i < facts.len() && #[trigger] facts[i].state == state
}

/// A tab's activity: alert when any fact is stale, else busy when any fact is
/// active or thinking, else idle.
pub open spec fn tab_activity_state(facts: Seq<SessionAiPaneActivity>) -> AiActivityTabState {
    if has_fact_in_state(facts, SessionAiPaneActivityState::Stale) {
        AiActivityTabState::Alert
    } else if has_fact_in_state(facts, SessionAiPaneActivityState::Active) || has_fact_in_state(
        facts,
        SessionAiPaneActivityState::Thinking,
    ) {
        AiActivityTabState::Busy
    } else {
        AiActivityTabState::Idle
    }
}

/// Reduces the facts of one tab to the tab's activity (stale before busy
/// before idle).
pub fn ai_activity_tab_state(facts: &[SessionAiPaneActivity]) -> (state: AiActivityTabState)
    ensures
        state == tab_activity_state(facts@),
        (exists|k: int| 0 <= k < facts@.len() && facts@[k].state == SessionAiPaneActivityState::Stale)
            ==> state == AiActivityTabState::Alert,
        state == AiActivityTabState::Alert ==> exists|k: int|
            0 <= k < facts@.len() && facts@[k].state == SessionAiPaneActivityState::Stale,
        state == AiActivityTabState::Busy <==> (forall|k: int|
            0 <= k < facts@.len() ==> facts@[k].state != SessionAiPaneActivityState::Stale) && (
        exists|k: int|
            0 <= k < facts@.len() && (facts@[k].state == SessionAiPaneActivityState::Active
                || facts@[k].state == SessionAiPaneActivityState::Thinking)),
{
    proof {
        law_tab_state_reduces_facts(facts@);
    }
    let n = facts.len();
    let mut i: usize = 0;
    let mut busy = false;
    while i < n
        invariant
            n == facts@.len(),
            i <= n,
            forall|k: int| 0 <= k < i ==> facts@[k].state != SessionAiPaneActivityState::Stale,
            busy <==> exists|k: int|
                0 <= k < i && (facts@[k].state == SessionAiPaneActivityState::Active
                    || facts@[k].state == SessionAiPaneActivityState::Thinking),
        decreases n - i,
    {
        match facts[i].state {
            SessionAiPaneActivityState::Stale => {
                assert(facts@[i as int].state == SessionAiPaneActivityState::Stale);
                return AiActivityTabState::Alert;
            },
            SessionAiPaneActivityState::Active | SessionAiPaneActivityState::Thinking => {
                busy = true;
            },
            _ => {},
        }
        i = i + 1;
    }
    if busy {
        let ghost k = choose|k: int|
            0 <= k < n && (facts@[k].state == SessionAiPaneActivityState::Active
                || facts@[k].state == SessionAiPaneActivityState::Thinking);
        assert(facts@[k].state == SessionAiPaneActivityState::Active || facts@[k].state
            == SessionAiPaneActivityState::Thinking);
        AiActivityTabState::Busy
    } else {
        AiActivityTabState::Idle
    }
}

/// The braille spinner frames that mark a terminal title as busy.
pub open spec fn is_activity_spinner(c: char) -> bool {
    let u = c as u32;
    ||| u == 0x280b
    ||| u == 0x2819
    ||| u == 0x2839
    ||| u == 0x2838
    ||| u == 0x283c
    ||| u == 0x2834
    ||| u == 0x2826
    ||| u == 0x2827
    ||| u == 0x2807
    ||| u == 0x280f
}

fn is_activity_spinner_char(c: char) -> (r: bool)
    ensures
        r == is_activity_spinner(c),
{
    let u = c as u32;
    u == 0x280b || u == 0x2819 || u == 0x2839 || u == 0x2838 || u == 0x283c || u == 0x2834 || u
        == 0x2826 || u == 0x2827 || u == 0x2807 || u == 0x280f
}

/// The name behind a spinner-prefixed title: once trimmed, the title is one
/// spinner frame, a space, and a name that is not blank; the name is given
/// trimmed.
pub open spec fn activity_title_base(title: Seq<char>) -> Option<Seq<char>> {
    let t = trim(title);
    let base = trim(t.subrange(2, t.len() as int));
    if t.len() >= 2 && is_activity_spinner(t[0]) && t[1] == ' ' && base.len() > 0 {
        Some(base)
    } else {
        None
    }
}

/// The name that a spinner-prefixed activity title carries, or `None` when
/// the title does not show activity.
pub fn terminal_activity_title_base(title: &str) -> (base: Option<&str>)
    ensures
        match base {
            Some(b) => activity_title_base(title@) == Some(b@),
            None => activity_title_base(title@) is None,
        },
{
    let chars = chars_of(title);
    let (start, end) = trim_bounds(chars.as_slice());
    let ghost t = chars@.subrange(start as int, end as int);
    if end - start >= 2 && is_activity_spinner_char(chars[start]) && chars[start + 1] == ' ' {
        assert(t[0] == chars@[start as int]);
        assert(t[1] == chars@[start + 1]);
        let (base_start, base_end) = trim_bounds_in(chars.as_slice(), start + 2, end);
        assert(t.subrange(2, t.len() as int) =~= chars@.subrange(start + 2, end as int));
        if base_start < base_end {
            return Some(title.substring_char(base_start, base_end));
        }
    }
    None
}

/// The activity that a terminal title shows: active while it carries a
/// spinner prefix.
pub open spec fn title_activity_state(title: Seq<char>) -> Option<SessionAiPaneActivityState> {
    if activity_title_base(title) is Some {
        Some(SessionAiPaneActivityState::Active)
    } else {
        None
    }
}

/// Every braille spinner frame, followed by a space and a name that is not
/// blank, makes an activity title whose base is the trimmed name: the frames
/// U+280B, U+2819, U+2839, U+2838, U+283C, U+2834, U+2826, U+2827, U+2807
/// and U+280F all count, so the activity shows on every frame of the cycle.
pub proof fn law_every_spinner_frame_marks_activity(frame: char, name: Seq<char>)
    requires
        frame as u32 == 0x280b || frame as u32 == 0x2819 || frame as u32 == 0x2839 || frame as u32
            == 0x2838 || frame as u32 == 0x283c || frame as u32 == 0x2834 || frame as u32 == 0x2826
            || frame as u32 == 0x2827 || frame as u32 == 0x2807 || frame as u32 == 0x280f,
        has_non_white(name),
    ensures
        activity_title_base(seq![frame, ' '] + name) == Some(trim(name)),
        title_activity_state(seq![frame, ' '] + name) == Some(SessionAiPaneActivityState::Active),
{
    let head = seq![frame, ' '];
    let title = head + name;
    assert(!is_white_space(title[0]));
    assert(trim_start(title) == title);
    lemma_trim_end_after_prefix(head, name);
    let t = trim(title);
    assert(t == head + trim_end(name));
    assert(t[0] == frame && t[1] == ' ');
    assert(t.subrange(2, t.len() as int) =~= trim_end(name));
    lemma_trim_of_trim_end(name);
}

/// `Active` while the title carries a spinner prefix, `None` otherwise.
pub fn terminal_title_activity_state(title: &str) -> (state: Option<SessionAiPaneActivityState>)
    ensures
        state == title_activity_state(title@),
{
    if terminal_activity_title_base(title).is_some() {
        return Some(SessionAiPaneActivityState::Active);
    }
    None
}

/// The characters of an optional string.
pub open spec fn opt_str_view(s: Option<&str>) -> Option<Seq<char>> {
    match s {
        Some(s) => Some(s@),
        None => None,
    }
}

/// A marker selects a terminal when, both trimmed, the marker is not blank
/// and occurs in the terminal's command.
pub open spec fn command_matches_marker(
    terminal_command: Option<Seq<char>>,
    command_marker: Option<Seq<char>>,
) -> bool {
    match command_marker {
        Some(marker) => trim(marker).len() > 0 && match terminal_command {
            Some(command) => contains_run(trim(command), trim(marker)),
            None => false,
        },
        None => false,
    }
}

/// Whether the terminal's command contains the configured command marker.
pub fn terminal_command_matches_marker(
    terminal_command: Option<&str>,
    command_marker: Option<&str>,
) -> (matches: bool)
    ensures
        matches == command_matches_marker(
            opt_str_view(terminal_command),
            opt_str_view(command_marker),
        ),
{
    match command_marker {
        None => false,
        Some(marker) => {
            let marker = trim_str(marker);
            if marker.is_empty() {
                return false;
            }
            match terminal_command {
                None => false,
                Some(command) => {
                    let command = trim_str(command);
                    let command_chars = chars_of(command);
                    let marker_chars = chars_of(marker);
                    chars_contain_run(command_chars.as_slice(), marker_chars.as_slice())
                },
            }
        },
    }
}

/// The title activity of a terminal that is managed by the agent command: with
/// a marker configured, only a terminal whose command matches it counts.
pub open spec fn managed_title_activity_state(
    title: Seq<char>,
    terminal_command: Option<Seq<char>>,
    command_marker: Option<Seq<char>>,
) -> Option<SessionAiPaneActivityState> {
    if command_marker is Some && !command_matches_marker(terminal_command, command_marker) {
        None
    } else {
        title_activity_state(title)
    }
}

/// Title activity, restricted to the configured agent command when a marker
/// is given.
pub fn managed_terminal_title_activity_state(
    title: &str,
    terminal_command: Option<&str>,
    command_marker: Option<&str>,
) -> (state: Option<SessionAiPaneActivityState>)
    ensures
        state == managed_title_activity_state(
            title@,
            opt_str_view(terminal_command),
            opt_str_view(command_marker),
        ),
{
    if command_marker.is_some() && !terminal_command_matches_marker(
        terminal_command,
        command_marker,
    ) {
        return None;
    }
    terminal_title_activity_state(title)
}

/// A fact names a pane when its pane id is not blank.
pub open spec fn is_keyed_fact(fact: SessionAiPaneActivity) -> bool {
    trim(fact.pane_id@).len() > 0
}

/// The facts of `facts` that name a pane, in order.
pub open spec fn keyed_facts(facts: Seq<SessionAiPaneActivity>) -> Seq<SessionAiPaneActivity>
    decreases facts.len(),
{
    if facts.len() == 0 {
        facts
    } else if is_keyed_fact(facts.last()) {
        keyed_facts(facts.drop_last()).push(facts.last())
    } else {
        keyed_facts(facts.drop_last())
    }
}

/// `fact` is the fact of provider `provider` for pane `pane_id`.
pub open spec fn fact_has_key(
    fact: SessionAiPaneActivity,
    provider: Seq<char>,
    pane_id: Seq<char>,
) -> bool {
    fact.provider@ == provider && fact.pane_id@ == pane_id
}

/// Index of the first fact with the given key, or `facts.len()` when none has it.
pub open spec fn first_fact_with_key(
    facts: Seq<SessionAiPaneActivity>,
    provider: Seq<char>,
    pane_id: Seq<char>,
) -> int
    decreases facts.len(),
{
    if facts.len() == 0 {
        0
    } else if fact_has_key(facts[0], provider, pane_id) {
        0
    } else {
        1 + first_fact_with_key(facts.drop_first(), provider, pane_id)
    }
}

/// The facts after recording `fact`: a fact without a pane replaces every
/// other fact without a pane and goes last; a fact with a pane replaces the
/// first fact with its provider and pane, or goes last when there is none.
pub open spec fn upserted_facts(
    facts: Seq<SessionAiPaneActivity>,
    fact: SessionAiPaneActivity,
) -> Seq<SessionAiPaneActivity> {
    if !is_keyed_fact(fact) {
        keyed_facts(facts).push(fact)
    } else {
        let i = first_fact_with_key(facts, fact.provider@, fact.pane_id@);
        if i < facts.len() {
            facts.update(i, fact)
        } else {
            facts.push(fact)
        }
    }
}

/// `first_fact_with_key` lies in `0..=len`, names a fact with the key when
/// below `len`, and no fact before it has the key.
pub proof fn lemma_first_fact_with_key(
    facts: Seq<SessionAiPaneActivity>,
    provider: Seq<char>,
    pane_id: Seq<char>,
)
    ensures
        0 <= first_fact_with_key(facts, provider, pane_id) <= facts.len(),
        first_fact_with_key(facts, provider, pane_id) < facts.len() ==> fact_has_key(
            facts[first_fact_with_key(facts, provider, pane_id)],
            provider,
            pane_id,
        ),
        forall|k: int|
            0 <= k < first_fact_with_key(facts, provider, pane_id) ==> !fact_has_key(
                #[trigger] facts[k],
                provider,
                pane_id,
            ),
    decreases facts.len(),
{
    if facts.len() > 0 && !fact_has_key(facts[0], provider, pane_id) {
        lemma_first_fact_with_key(facts.drop_first(), provider, pane_id);
        let i = first_fact_with_key(facts, provider, pane_id);
        assert forall|k: int| 0 <= k < i implies !fact_has_key(
            #[trigger] facts[k],
            provider,
            pane_id,
        ) by {
            if k > 0 {
                assert(facts[k] == facts.drop_first()[k - 1]);
            }
        }
    }
}

/// Keeps the facts of `facts` that name a pane.
fn retain_keyed_facts(facts: &mut Vec<SessionAiPaneActivity>)
    ensures
        final(facts)@ == keyed_facts(old(facts)@),
{
    let mut kept: Vec<SessionAiPaneActivity> = Vec::new();
    let n = facts.len();
    let mut i: usize = 0;
    while i < n
        invariant
            n == facts@.len(),
            i <= n,
            kept@ == keyed_facts(facts@.take(i as int)),
        decreases n - i,
    {
        assert(facts@.take(i + 1).drop_last() =~= facts@.take(i as int));
        let pane_id = trim_str(facts[i].pane_id.as_str());
        if !pane_id.is_empty() {
            kept.push(facts[i].clone());
        }
        i = i + 1;
    }
    assert(facts@.take(n as int) =~= facts@);
    *facts = kept;
}

/// Records `fact` among the facts of one tab, updating the fact of the same
/// provider and pane in place instead of adding a second one.
pub fn upsert_ai_pane_activity_fact(
    facts: &mut Vec<SessionAiPaneActivity>,
    fact: SessionAiPaneActivity,
)
    ensures
        final(facts)@ == upserted_facts(old(facts)@, fact),
{
    let pane_id = trim_str(fact.pane_id.as_str());
    if pane_id.is_empty() {
        retain_keyed_facts(facts);
        facts.push(fact);
        return;
    }
    proof {
        lemma_first_fact_with_key(facts@, fact.provider@, fact.pane_id@);
    }
    let n = facts.len();
    let mut i: usize = 0;
    while i < n
        invariant
            n == facts@.len(),
            facts@ == old(facts)@,
            is_keyed_fact(fact),
            i <= n,
            i <= first_fact_with_key(facts@, fact.provider@, fact.pane_id@),
            0 <= first_fact_with_key(facts@, fact.provider@, fact.pane_id@) <= n,
            first_fact_with_key(facts@, fact.provider@, fact.pane_id@) < n ==> fact_has_key(
                facts@[first_fact_with_key(facts@, fact.provider@, fact.pane_id@)],
                fact.provider@,
                fact.pane_id@,
            ),
            forall|k: int|
                0 <= k < first_fact_with_key(facts@, fact.provider@, fact.pane_id@)
                    ==> !fact_has_key(#[trigger] facts@[k], fact.provider@, fact.pane_id@),
        decreases n - i,
    {
        if facts[i].pane_id == fact.pane_id && facts[i].provider == fact.provider {
            assert(fact_has_key(facts@[i as int], fact.provider@, fact.pane_id@));
            facts.set(i, fact);
            return;
        }
        i = i + 1;
    }
    facts.push(fact);
}

/// The facts of `facts` that are not the fact of `provider` for `pane_id`.
pub open spec fn facts_without_key(
    facts: Seq<SessionAiPaneActivity>,
    provider: Seq<char>,
    pane_id: Seq<char>,
) -> Seq<SessionAiPaneActivity>
    decreases facts.len(),
{
    if facts.len() == 0 {
        facts
    } else if fact_has_key(facts.last(), provider, pane_id) {
        facts_without_key(facts.drop_last(), provider, pane_id)
    } else {
        facts_without_key(facts.drop_last(), provider, pane_id).push(facts.last())
    }
}

/// Drops every fact of `provider` for `pane_id`, keeping the others in order.
pub fn remove_ai_pane_activity_fact(
    facts: &mut Vec<SessionAiPaneActivity>,
    provider: &str,
    pane_id: &str,
)
    ensures
        final(facts)@ == facts_without_key(old(facts)@, provider@, pane_id@),
{
    let mut kept: Vec<SessionAiPaneActivity> = Vec::new();
    let n = facts.len();
    let mut i: usize = 0;
    while i < n
        invariant
            n == facts@.len(),
            i <= n,
            kept@ == facts_without_key(facts@.take(i as int), provider@, pane_id@),
        decreases n - i,
    {
        assert(facts@.take(i + 1).drop_last() =~= facts@.take(i as int));
        if !str_equal(facts[i].provider.as_str(), provider) || !str_equal(
            facts[i].pane_id.as_str(),
            pane_id,
        ) {
            kept.push(facts[i].clone());
        }
        i = i + 1;
    }
    assert(facts@.take(n as int) =~= facts@);
    *facts = kept;
}


/// No two facts share a provider and pane, and at most one fact names no pane.
pub open spec fn facts_are_keyed_once(facts: Seq<SessionAiPaneActivity>) -> bool {
    &&& forall|i: int, j: int|
        0 <= i < j < facts.len() && is_keyed_fact(#[trigger] facts[i]) ==> !fact_has_key(
            #[trigger] facts[j],
            facts[i].provider@,
            facts[i].pane_id@,
        )
    &&& forall|i: int, j: int|
        0 <= i < j < facts.len() ==> is_keyed_fact(#[trigger] facts[i]) || is_keyed_fact(
            #[trigger] facts[j],
        )
}

/// Every fact that `keyed_facts` keeps comes from `facts` and names a pane.
pub proof fn lemma_keyed_facts(facts: Seq<SessionAiPaneActivity>)
    ensures
        keyed_facts(facts).len() <= facts.len(),
        forall|k: int|
            0 <= k < keyed_facts(facts).len() ==> is_keyed_fact(#[trigger] keyed_facts(facts)[k])
                && facts.contains(keyed_facts(facts)[k]),
    decreases facts.len(),
{
    if facts.len() > 0 {
        let rest = facts.drop_last();
        lemma_keyed_facts(rest);
        assert forall|k: int| 0 <= k < keyed_facts(facts).len() implies is_keyed_fact(
            #[trigger] keyed_facts(facts)[k],
        ) && facts.contains(keyed_facts(facts)[k]) by {
            if k < keyed_facts(rest).len() {
                assert(keyed_facts(facts)[k] == keyed_facts(rest)[k]);
                let m = choose|m: int| 0 <= m < rest.len() && rest[m] == keyed_facts(rest)[k];
                assert(facts[m] == rest[m]);
            } else {
                assert(facts[facts.len() - 1] == keyed_facts(facts)[k]);
            }
        }
    }
}

/// Dropping the facts without a pane keeps each fact's key unique.
proof fn lemma_keyed_facts_keyed_once(facts: Seq<SessionAiPaneActivity>)
    requires
        facts_are_keyed_once(facts),
    ensures
        facts_are_keyed_once(keyed_facts(facts)),
    decreases facts.len(),
{
    if facts.len() > 0 {
        let rest = facts.drop_last();
        assert(facts_are_keyed_once(rest)) by {
            assert forall|i: int, j: int|
                0 <= i < j < rest.len() && is_keyed_fact(#[trigger] rest[i]) implies !fact_has_key(
                #[trigger] rest[j],
                rest[i].provider@,
                rest[i].pane_id@,
            ) by {
                assert(rest[i] == facts[i] && rest[j] == facts[j]);
            }
            assert forall|i: int, j: int| 0 <= i < j < rest.len() implies is_keyed_fact(
                #[trigger] rest[i],
            ) || is_keyed_fact(#[trigger] rest[j]) by {
                assert(rest[i] == facts[i] && rest[j] == facts[j]);
            }
        }
        lemma_keyed_facts_keyed_once(rest);
        lemma_keyed_facts(rest);
        lemma_keyed_facts(facts);
        let kept = keyed_facts(facts);
        if is_keyed_fact(facts.last()) {
            assert forall|i: int, j: int|
                0 <= i < j < kept.len() && is_keyed_fact(#[trigger] kept[i]) implies !fact_has_key(
                #[trigger] kept[j],
                kept[i].provider@,
                kept[i].pane_id@,
            ) by {
                if j == kept.len() - 1 {
                    assert(kept[i] == keyed_facts(rest)[i]);
                    let m = choose|m: int|
                        0 <= m < rest.len() && rest[m] == #[trigger] keyed_facts(rest)[i];
                    assert(facts[m] == rest[m]);
                    assert(kept[j] == facts[facts.len() - 1]);
                } else {
                    assert(kept[i] == keyed_facts(rest)[i] && kept[j] == keyed_facts(rest)[j]);
                }
            }
        }
    }
}

/// Appending a fact to a list none of whose facts has its key leaves each
/// fact's key unique, provided the new fact names a pane.
proof fn lemma_push_new_key_keyed_once(
    facts: Seq<SessionAiPaneActivity>,
    fact: SessionAiPaneActivity,
)
    requires
        facts_are_keyed_once(facts),
        is_keyed_fact(fact),
        forall|k: int| 0 <= k < facts.len() ==> !fact_has_key(#[trigger] facts[k], fact.provider@, fact.pane_id@),
    ensures
        facts_are_keyed_once(facts.push(fact)),
{
    let pushed = facts.push(fact);
    assert forall|i: int, j: int|
        0 <= i < j < pushed.len() && is_keyed_fact(#[trigger] pushed[i]) implies !fact_has_key(
        #[trigger] pushed[j],
        pushed[i].provider@,
        pushed[i].pane_id@,
    ) by {
        if j == facts.len() {
            assert(!fact_has_key(facts[i], fact.provider@, fact.pane_id@));
        } else {
            assert(pushed[i] == facts[i] && pushed[j] == facts[j]);
        }
    }
    assert forall|i: int, j: int| 0 <= i < j < pushed.len() implies is_keyed_fact(
        #[trigger] pushed[i],
    ) || is_keyed_fact(#[trigger] pushed[j]) by {
        if j < facts.len() {
            assert(pushed[i] == facts[i] && pushed[j] == facts[j]);
        }
    }
}

/// Recording a fact keeps the facts of a tab keyed once: at most one fact per
/// provider and pane, and at most one fact without a pane.
pub proof fn law_upsert_keeps_facts_keyed_once(
    facts: Seq<SessionAiPaneActivity>,
    fact: SessionAiPaneActivity,
)
    requires
        facts_are_keyed_once(facts),
    ensures
        facts_are_keyed_once(upserted_facts(facts, fact)),
        upserted_facts(facts, fact).contains(fact),
{
    let result = upserted_facts(facts, fact);
    if !is_keyed_fact(fact) {
        lemma_keyed_facts_keyed_once(facts);
        lemma_keyed_facts(facts);
        let kept = keyed_facts(facts);
        assert forall|i: int, j: int|
            0 <= i < j < result.len() && is_keyed_fact(#[trigger] result[i]) implies !fact_has_key(
            #[trigger] result[j],
            result[i].provider@,
            result[i].pane_id@,
        ) by {
            if j < kept.len() {
                assert(result[i] == kept[i] && result[j] == kept[j]);
            } else {
                assert(result[j] == fact);
                assert(result[i] == kept[i]);
            }
        }
        assert forall|i: int, j: int| 0 <= i < j < result.len() implies is_keyed_fact(
            #[trigger] result[i],
        ) || is_keyed_fact(#[trigger] result[j]) by {
            assert(result[i] == kept[i]);
        }
        assert(result[result.len() - 1] == fact);
    } else {
        lemma_first_fact_with_key(facts, fact.provider@, fact.pane_id@);
        let i0 = first_fact_with_key(facts, fact.provider@, fact.pane_id@);
        if i0 < facts.len() {
            assert forall|i: int, j: int|
                0 <= i < j < result.len() && is_keyed_fact(#[trigger] result[i]) implies !fact_has_key(
                #[trigger] result[j],
                result[i].provider@,
                result[i].pane_id@,
            ) by {
                if i == i0 {
                    assert(result[j] == facts[j]);
                    assert(fact_has_key(facts[i0], fact.provider@, fact.pane_id@));
                } else if j == i0 {
                    assert(result[i] == facts[i]);
                    assert(!fact_has_key(facts[i], fact.provider@, fact.pane_id@));
                } else {
                    assert(result[i] == facts[i] && result[j] == facts[j]);
                }
            }
            assert forall|i: int, j: int| 0 <= i < j < result.len() implies is_keyed_fact(
                #[trigger] result[i],
            ) || is_keyed_fact(#[trigger] result[j]) by {
                if i != i0 && j != i0 {
                    assert(result[i] == facts[i] && result[j] == facts[j]);
                }
            }
            assert(result[i0] == fact);
        } else {
            lemma_push_new_key_keyed_once(facts, fact);
            assert(result[result.len() - 1] == fact);
        }
    }
}

/// Recording the same fact twice is the same as recording it once.
pub proof fn law_upsert_is_idempotent(
    facts: Seq<SessionAiPaneActivity>,
    fact: SessionAiPaneActivity,
)
    ensures
        upserted_facts(upserted_facts(facts, fact), fact) == upserted_facts(facts, fact),
{
    let once = upserted_facts(facts, fact);
    if !is_keyed_fact(fact) {
        lemma_keyed_facts(facts);
        lemma_keyed_facts_of_keyed(keyed_facts(facts));
        assert(once.drop_last() =~= keyed_facts(facts));
        assert(keyed_facts(once) == keyed_facts(keyed_facts(facts)));
    } else {
        lemma_first_fact_with_key(facts, fact.provider@, fact.pane_id@);
        lemma_first_fact_with_key(once, fact.provider@, fact.pane_id@);
        let i0 = first_fact_with_key(facts, fact.provider@, fact.pane_id@);
        let i1 = first_fact_with_key(once, fact.provider@, fact.pane_id@);
        assert(once[i0] == fact);
        if i1 < i0 {
            assert(once[i1] == facts[i1]);
        }
        if i1 > i0 {
            assert(!fact_has_key(once[i0], fact.provider@, fact.pane_id@));
        }
        assert(i1 == i0);
        assert(once.update(i0, fact) =~= once);
    }
}

/// `keyed_facts` keeps a list whose facts all name a pane as it is.
proof fn lemma_keyed_facts_of_keyed(facts: Seq<SessionAiPaneActivity>)
    requires
        forall|k: int| 0 <= k < facts.len() ==> is_keyed_fact(#[trigger] facts[k]),
    ensures
        keyed_facts(facts) == facts,
    decreases facts.len(),
{
    if facts.len() > 0 {
        lemma_keyed_facts_of_keyed(facts.drop_last());
        assert(facts.drop_last().push(facts.last()) =~= facts);
    }
}

/// Dropping a key that no fact has leaves the facts as they are.
proof fn lemma_without_absent_key(
    facts: Seq<SessionAiPaneActivity>,
    provider: Seq<char>,
    pane_id: Seq<char>,
)
    requires
        forall|k: int| 0 <= k < facts.len() ==> !fact_has_key(#[trigger] facts[k], provider, pane_id),
    ensures
        facts_without_key(facts, provider, pane_id) == facts,
    decreases facts.len(),
{
    if facts.len() > 0 {
        lemma_without_absent_key(facts.drop_last(), provider, pane_id);
        assert(facts.drop_last().push(facts.last()) =~= facts);
    }
}

/// Removing a pane's fact keeps exactly the facts with another key, in order.
pub proof fn law_remove_keeps_exactly_other_keys(
    facts: Seq<SessionAiPaneActivity>,
    provider: Seq<char>,
    pane_id: Seq<char>,
)
    ensures
        facts_without_key(facts, provider, pane_id) == facts.filter(
            |fact: SessionAiPaneActivity| !fact_has_key(fact, provider, pane_id),
        ),
    decreases facts.len(),
{
    reveal(Seq::filter);
    if facts.len() > 0 {
        law_remove_keeps_exactly_other_keys(facts.drop_last(), provider, pane_id);
    }
}

/// Removing the key of a newly recorded pane fact undoes the recording: when
/// no fact had the provider and pane, upserting and then removing them gives
/// the facts back.
pub proof fn law_remove_undoes_new_upsert(
    facts: Seq<SessionAiPaneActivity>,
    fact: SessionAiPaneActivity,
)
    requires
        is_keyed_fact(fact),
        forall|k: int|
            0 <= k < facts.len() ==> !fact_has_key(#[trigger] facts[k], fact.provider@, fact.pane_id@),
    ensures
        facts_without_key(upserted_facts(facts, fact), fact.provider@, fact.pane_id@) == facts,
{
    lemma_first_fact_with_key(facts, fact.provider@, fact.pane_id@);
    let once = upserted_facts(facts, fact);
    assert(once == facts.push(fact));
    assert(once.drop_last() =~= facts);
    lemma_without_absent_key(facts, fact.provider@, fact.pane_id@);
}

} // verus!
