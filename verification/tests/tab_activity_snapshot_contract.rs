use yazelix_zellij_pane_orchestrator::active_tab_session_state::{
    SessionAiPaneActivity, SessionAiPaneActivityState,
};
use yazelix_zellij_pane_orchestrator::ai_pane_activity_contract::AiActivityTabState;
use yazelix_zellij_pane_orchestrator::tab_activity_snapshot_contract::{
    build_all_tab_activity_snapshot_v1, TabActivityReadState, TabActivitySnapshotState,
    ALL_TAB_ACTIVITY_SNAPSHOT_SCHEMA_VERSION,
};

#[test]
fn all_tab_activity_snapshot_sorts_tabs_and_prioritizes_state() {
    let snapshot = build_all_tab_activity_snapshot_v1(vec![
        TabActivityReadState {
            tab_id: 30,
            tab_position: 2,
            current_name: "[...] agent".to_string(),
            base_name: Some("agent".to_string()),
            activity: vec![
                SessionAiPaneActivity::tab_local(
                    99,
                    "terminal-title".to_string(),
                    "terminal:5".to_string(),
                    SessionAiPaneActivityState::Active,
                ),
                SessionAiPaneActivity::tab_local(
                    99,
                    "codex".to_string(),
                    "terminal:6".to_string(),
                    SessionAiPaneActivityState::Stale,
                ),
            ],
        },
        TabActivityReadState {
            tab_id: 10,
            tab_position: 0,
            current_name: "editor".to_string(),
            base_name: None,
            activity: vec![],
        },
    ]);

    assert_eq!(
        snapshot.schema_version,
        ALL_TAB_ACTIVITY_SNAPSHOT_SCHEMA_VERSION
    );
    assert_eq!(
        snapshot
            .tabs
            .iter()
            .map(|tab| tab.tab_id)
            .collect::<Vec<_>>(),
        vec![10, 30]
    );
    assert_eq!(
        snapshot.tabs[0].activity_state,
        TabActivitySnapshotState::Idle
    );
    assert_eq!(snapshot.tabs[1].base_name, "agent");
    assert_eq!(
        snapshot.tabs[1].activity_state,
        TabActivitySnapshotState::Alert
    );
    assert_eq!(snapshot.tabs[1].activity[0].tab_position, Some(2));
    assert_eq!(snapshot.tabs[1].activity[1].tab_position, Some(2));
}

#[test]
fn equal_positions_keep_their_order_and_current_name_fills_in() {
    let tab = |tab_id: usize, tab_position: usize| TabActivityReadState {
        tab_id,
        tab_position,
        current_name: format!("tab {tab_id}"),
        base_name: None,
        activity: vec![SessionAiPaneActivity::tab_local(
            7,
            "codex".to_string(),
            "terminal:1".to_string(),
            SessionAiPaneActivityState::Thinking,
        )],
    };
    let snapshot = build_all_tab_activity_snapshot_v1(vec![tab(1, 3), tab(2, 1), tab(3, 3), tab(4, 1)]);
    assert_eq!(
        snapshot.tabs.iter().map(|t| t.tab_id).collect::<Vec<_>>(),
        vec![2, 4, 1, 3]
    );
    assert_eq!(snapshot.tabs[2].base_name, "tab 1");
    assert_eq!(snapshot.tabs[2].activity_state, TabActivitySnapshotState::Busy);
    assert_eq!(snapshot.tabs[2].activity[0].tab_position, Some(3));
    assert!(build_all_tab_activity_snapshot_v1(vec![]).tabs.is_empty());
}

#[test]
fn snapshot_state_names_and_conversion() {
    assert_eq!(TabActivitySnapshotState::Busy.as_str(), "busy");
    assert_eq!(TabActivitySnapshotState::Alert.as_str(), "alert");
    assert_eq!(TabActivitySnapshotState::Idle.as_str(), "idle");
    assert_eq!(
        TabActivitySnapshotState::from(AiActivityTabState::Alert),
        TabActivitySnapshotState::Alert
    );
}
