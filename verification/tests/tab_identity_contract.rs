use std::collections::HashMap;

use yazelix_zellij_pane_orchestrator::tab_identity_contract::{
    active_tab_id, active_tab_position, current_tab_ids, retain_current_tab_state,
    tab_id_by_position, tab_position_by_id, TabIdentityState, TabRecord,
};

fn tab(position: usize, tab_id: usize, active: bool) -> TabRecord {
    TabRecord {
        position,
        tab_id,
        active,
    }
}

#[test]
fn tab_identity_survives_position_compaction() {
    let tabs_after_first_tab_closes = [tab(0, 20, true), tab(1, 30, false)];

    assert_eq!(active_tab_id(&tabs_after_first_tab_closes), Some(20));
    assert_eq!(active_tab_position(&tabs_after_first_tab_closes), Some(0));
    assert_eq!(
        tab_id_by_position(&tabs_after_first_tab_closes),
        HashMap::from([(0, 20), (1, 30)])
    );
    assert_eq!(
        tab_position_by_id(&tabs_after_first_tab_closes),
        HashMap::from([(20, 0), (30, 1)])
    );

    let identity = TabIdentityState::from_tabs(&tabs_after_first_tab_closes);
    assert_eq!(identity.active_tab_id(), Some(20));
    assert_eq!(identity.active_tab_position(), Some(0));
    assert_eq!(identity.position_for_tab_id(30), Some(1));
    assert!(identity.has_complete_position_map(&[0, 1], 2));
}

#[test]
fn retaining_tab_id_state_does_not_reassign_surviving_tabs() {
    let mut workspace_root_by_tab_id =
        HashMap::from([(10, "/ferox"), (20, "/yazelix"), (30, "/yazelix-terminal")]);
    let current_tab_ids = current_tab_ids(&[tab(0, 20, true), tab(1, 30, false)]);

    retain_current_tab_state(&mut workspace_root_by_tab_id, &current_tab_ids);

    assert_eq!(
        workspace_root_by_tab_id,
        HashMap::from([(20, "/yazelix"), (30, "/yazelix-terminal")])
    );
}

#[test]
fn identity_queries_on_incomplete_or_empty_state() {
    let identity = TabIdentityState::from_tabs(&[tab(0, 5, false), tab(1, 9, false)]);
    assert_eq!(identity.active_tab_id(), None);
    assert_eq!(identity.active_tab_position(), None);
    assert_eq!(identity.position_for_tab_id(7), None);
    assert!(!identity.has_complete_position_map(&[0, 2], 2));
    assert!(!identity.has_complete_position_map(&[0, 1], 3));
    assert_eq!(
        identity.current_tab_ids(),
        [5usize, 9].into_iter().collect()
    );
    assert_eq!(identity.tab_id_by_position(), &HashMap::from([(0, 5), (1, 9)]));
    let empty = TabIdentityState::default();
    assert!(!empty.has_complete_position_map(&[], 0));
    assert!(empty.current_tab_ids().is_empty());
}
