use std::collections::{HashMap, HashSet};

use yazelix_zellij_pane_orchestrator::active_tab_session_state::{
    SessionAiPaneActivity, SessionAiPaneActivityState,
};
use yazelix_zellij_pane_orchestrator::ai_activity_store::{
    ai_activity_target_tab, plan_ai_activity_registration, tab_activity_read_states,
    tab_for_terminal_pane, AiPaneActivityStore, TitleObservation,
};
use yazelix_zellij_pane_orchestrator::ai_pane_activity_contract::{
    AiPaneActivityRegistration, TERMINAL_TITLE_ACTIVITY_PROVIDER,
};
use yazelix_zellij_pane_orchestrator::plugin_pipe::{RESULT_INVALID_PAYLOAD, RESULT_MISSING};
use yazelix_zellij_pane_orchestrator::tab_identity_contract::{TabIdentityState, TabRecord};

fn fact(
    position: usize,
    provider: &str,
    pane_id: &str,
    state: SessionAiPaneActivityState,
) -> SessionAiPaneActivity {
    SessionAiPaneActivity::tab_local(position, provider.to_string(), pane_id.to_string(), state)
}

fn registration(
    provider: &str,
    pane_id: &str,
    activity: &str,
    state: Option<SessionAiPaneActivityState>,
) -> AiPaneActivityRegistration {
    AiPaneActivityRegistration {
        provider: provider.to_string(),
        pane_id: pane_id.to_string(),
        activity: activity.to_string(),
        state,
    }
}

#[test]
fn recorded_fact_reads_back_and_other_tabs_stay() {
    let mut store = AiPaneActivityStore::new();
    store.record(1, fact(0, "codex", "terminal:5", SessionAiPaneActivityState::Active));
    store.record(2, fact(1, "codex", "terminal:6", SessionAiPaneActivityState::Inactive));
    store.record(1, fact(0, "codex", "terminal:5", SessionAiPaneActivityState::Thinking));
    let tab_one = store.facts_for_tab(1);
    assert_eq!(tab_one.len(), 1);
    assert_eq!(tab_one[0].state, SessionAiPaneActivityState::Thinking);
    assert_eq!(store.facts_for_tab(2)[0].pane_id, "terminal:6");
    assert!(store.facts_for_tab(3).is_empty());
    assert!(store.has_tab(2));
    assert!(!store.has_tab(3));
}

#[test]
fn removing_the_last_title_fact_drops_the_tab() {
    let mut store = AiPaneActivityStore::new();
    store.record(
        1,
        fact(0, TERMINAL_TITLE_ACTIVITY_PROVIDER, "terminal:5", SessionAiPaneActivityState::Thinking),
    );
    assert!(!store.remove_title_fact(1, "terminal:6"));
    assert!(store.has_tab(1));
    assert!(store.remove_title_fact(1, "terminal:5"));
    assert!(!store.has_tab(1));
    assert!(!store.remove_title_fact(1, "terminal:5"));
}

#[test]
fn only_title_facts_are_removed_for_a_closed_pane() {
    let mut store = AiPaneActivityStore::new();
    store.record(
        1,
        fact(0, TERMINAL_TITLE_ACTIVITY_PROVIDER, "terminal:5", SessionAiPaneActivityState::Thinking),
    );
    store.record(1, fact(0, "codex", "terminal:5", SessionAiPaneActivityState::Active));
    store.record(
        2,
        fact(1, TERMINAL_TITLE_ACTIVITY_PROVIDER, "terminal:5", SessionAiPaneActivityState::Active),
    );
    assert!(store.remove_title_facts_for_pane("terminal:5"));
    assert_eq!(store.facts_for_tab(1).len(), 1);
    assert_eq!(store.facts_for_tab(1)[0].provider, "codex");
    assert!(!store.has_tab(2));
    assert!(!store.remove_title_facts_for_pane("terminal:5"));
}

#[test]
fn title_observation_records_updates_and_clears() {
    let mut store = AiPaneActivityStore::new();
    assert!(store.observe_title(7, 2, "terminal:3", "⠋ yazelix", None, None));
    let facts = store.facts_for_tab(7);
    assert_eq!(facts.len(), 1);
    assert_eq!(facts[0].provider, TERMINAL_TITLE_ACTIVITY_PROVIDER);
    assert_eq!(facts[0].tab_position, Some(2));
    assert_eq!(facts[0].activity, "active");
    assert_eq!(
        store.title_state(7, "terminal:3"),
        Some(SessionAiPaneActivityState::Active)
    );
    assert!(!store.observe_title(7, 2, "terminal:3", "⠙ yazelix", None, None));
    assert!(store.observe_title(7, 2, "terminal:3", "yazelix", None, None));
    assert!(!store.has_tab(7));
    assert!(!store.observe_title(7, 2, "terminal:3", "yazelix", None, None));
}

#[test]
fn title_observation_respects_the_command_marker() {
    let mut store = AiPaneActivityStore::new();
    assert!(!store.observe_title(
        7,
        0,
        "terminal:3",
        "⠋ Codex",
        Some("/bin/codex"),
        Some("yzx-agent")
    ));
    assert!(!store.has_tab(7));
    assert!(store.observe_title(
        7,
        0,
        "terminal:3",
        "⠋ Codex",
        Some("/nix/store/agent/bin/yzx-agent"),
        Some("yzx-agent")
    ));
    assert!(store.has_tab(7));
}

#[test]
fn snapshot_keeps_observed_title_facts_and_other_providers() {
    let mut store = AiPaneActivityStore::new();
    store.record(
        1,
        fact(0, TERMINAL_TITLE_ACTIVITY_PROVIDER, "terminal:5", SessionAiPaneActivityState::Thinking),
    );
    store.record(
        1,
        fact(0, TERMINAL_TITLE_ACTIVITY_PROVIDER, "terminal:6", SessionAiPaneActivityState::Thinking),
    );
    store.record(1, fact(0, "codex", "terminal:9", SessionAiPaneActivityState::Active));
    store.retain_observed_facts(&[(1, "terminal:6".to_string()), (2, "terminal:5".to_string())]);
    let facts = store.facts_for_tab(1);
    assert_eq!(facts.len(), 2);
    assert_eq!(facts[0].pane_id, "terminal:6");
    assert_eq!(facts[1].provider, "codex");
}

#[test]
fn pane_update_drops_facts_of_vanished_panes_and_tabs() {
    let mut store = AiPaneActivityStore::new();
    store.record(1, fact(0, "codex", "terminal:5", SessionAiPaneActivityState::Active));
    store.record(1, fact(0, "codex", "terminal:6", SessionAiPaneActivityState::Active));
    store.record(1, fact(0, "codex", "", SessionAiPaneActivityState::Unknown));
    store.record(2, fact(1, "codex", "terminal:8", SessionAiPaneActivityState::Active));
    let mut panes = HashMap::new();
    panes.insert(1, vec!["terminal:6".to_string()]);
    store.reconcile_panes(&panes);
    let facts = store.facts_for_tab(1);
    assert_eq!(facts.len(), 2);
    assert_eq!(facts[0].pane_id, "terminal:6");
    assert_eq!(facts[1].pane_id, "");
    assert!(!store.has_tab(2));
}

#[test]
fn tabs_that_closed_lose_their_facts() {
    let mut store = AiPaneActivityStore::new();
    store.record(1, fact(0, "codex", "terminal:5", SessionAiPaneActivityState::Active));
    store.record(2, fact(1, "codex", "terminal:6", SessionAiPaneActivityState::Active));
    let current: HashSet<usize> = [2].into_iter().collect();
    store.retain_tabs(&current);
    assert!(!store.has_tab(1));
    assert!(store.has_tab(2));
}

#[test]
fn empty_tabs_are_dropped() {
    let mut store = AiPaneActivityStore::new();
    store.record(1, fact(0, "codex", "terminal:5", SessionAiPaneActivityState::Active));
    store.retain_observed_facts(&[]);
    store.retain_nonempty_tabs();
    assert!(store.has_tab(1));
    store.record(
        2,
        fact(1, TERMINAL_TITLE_ACTIVITY_PROVIDER, "terminal:6", SessionAiPaneActivityState::Active),
    );
    store.retain_observed_facts(&[]);
    store.retain_nonempty_tabs();
    assert!(!store.has_tab(2));
}

#[test]
fn active_snapshot_moves_facts_to_the_tab_position() {
    let mut store = AiPaneActivityStore::new();
    store.record(4, fact(0, "codex", "terminal:5", SessionAiPaneActivityState::Active));
    let snapshot = store.active_snapshot(4, 3);
    assert_eq!(snapshot.len(), 1);
    assert_eq!(snapshot[0].tab_position, Some(3));
    assert_eq!(snapshot[0].pane_id, "terminal:5");
    assert!(store.active_snapshot(5, 0).is_empty());
}

#[test]
fn registration_plan_normalizes_and_refuses() {
    let (provider, pane_id, state) =
        plan_ai_activity_registration(&registration(" codex ", " terminal:5 ", "streaming", None))
            .unwrap();
    assert_eq!(provider, "codex");
    assert_eq!(pane_id, "terminal:5");
    assert_eq!(state, SessionAiPaneActivityState::Active);
    assert_eq!(
        plan_ai_activity_registration(&registration("codex", "", "thinking", None)),
        Err(RESULT_INVALID_PAYLOAD)
    );
    assert_eq!(
        plan_ai_activity_registration(&registration("codex", "terminal:5", "busy", None)),
        Err(RESULT_INVALID_PAYLOAD)
    );
    let (_, pane_id, state) =
        plan_ai_activity_registration(&registration("codex", "  ", "idle", None)).unwrap();
    assert_eq!(pane_id, "");
    assert_eq!(state, SessionAiPaneActivityState::Inactive);
}

#[test]
fn registration_targets_the_tab_of_its_pane() {
    let mut panes = HashMap::new();
    panes.insert(10, vec!["terminal:1".to_string(), "terminal:2".to_string()]);
    panes.insert(20, vec!["terminal:3".to_string()]);
    assert_eq!(tab_for_terminal_pane(&panes, "terminal:3"), Some(20));
    assert_eq!(tab_for_terminal_pane(&panes, "terminal:9"), None);
    assert_eq!(ai_activity_target_tab("", 10, None), Ok(10));
    assert_eq!(ai_activity_target_tab("terminal:3", 10, Some(20)), Ok(20));
    assert_eq!(ai_activity_target_tab("terminal:9", 10, None), Err(RESULT_MISSING));
}

#[test]
fn read_states_need_every_tab_name() {
    let mut store = AiPaneActivityStore::new();
    store.record(10, fact(0, "codex", "terminal:5", SessionAiPaneActivityState::Active));
    let mut names = HashMap::new();
    names.insert(10, "agent".to_string());
    let read = tab_activity_read_states(&[(0, 10)], &names, &store).unwrap();
    assert_eq!(read.len(), 1);
    assert_eq!(read[0].current_name, "agent");
    assert_eq!(read[0].tab_position, 0);
    assert_eq!(read[0].activity.len(), 1);
    assert_eq!(read[0].base_name, None);
    assert!(tab_activity_read_states(&[(0, 10), (1, 20)], &names, &store).is_none());
}

fn observation(tab_id: usize, pane_id: &str, title: &str) -> TitleObservation {
    TitleObservation {
        tab_id,
        pane_id: pane_id.to_string(),
        title: title.to_string(),
    }
}

#[test]
fn title_snapshot_applies_known_tabs_and_drops_unobserved_title_facts() {
    let identity = TabIdentityState::from_tabs(&[
        TabRecord {
            position: 0,
            tab_id: 10,
            active: true,
        },
        TabRecord {
            position: 1,
            tab_id: 20,
            active: false,
        },
    ]);
    let mut store = AiPaneActivityStore::new();
    store.record(
        10,
        fact(0, TERMINAL_TITLE_ACTIVITY_PROVIDER, "terminal:9", SessionAiPaneActivityState::Active),
    );
    store.record(10, fact(0, "codex", "terminal:9", SessionAiPaneActivityState::Stale));
    store.reconcile_title_snapshot(
        &identity,
        &[
            observation(20, "terminal:3", "⠋ build"),
            observation(99, "terminal:4", "⠋ ghost"),
            observation(10, "terminal:5", "plain"),
        ],
    );
    let tab_twenty = store.facts_for_tab(20);
    assert_eq!(tab_twenty.len(), 1);
    assert_eq!(tab_twenty[0].tab_position, Some(1));
    assert_eq!(tab_twenty[0].pane_id, "terminal:3");
    assert!(!store.has_tab(99));
    let tab_ten = store.facts_for_tab(10);
    assert_eq!(tab_ten.len(), 1);
    assert_eq!(tab_ten[0].provider, "codex");
}
