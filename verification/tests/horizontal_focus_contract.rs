use yazelix_zellij_pane_orchestrator::horizontal_focus_contract::{
    horizontal_role_for_pane, resolve_horizontal_focus, HorizontalDirection, HorizontalFocusPlan,
    HorizontalPaneRole, HorizontalPaneSnapshot,
};

fn pane(
    role: HorizontalPaneRole,
    is_focused: bool,
    pane_x: usize,
    pane_y: usize,
    pane_columns: usize,
    pane_rows: usize,
) -> HorizontalPaneSnapshot {
    HorizontalPaneSnapshot {
        role,
        is_plugin: false,
        exited: false,
        is_focused,
        pane_x,
        pane_y,
        pane_columns,
        pane_rows,
    }
}

#[test]
fn closed_sidebar_is_skipped_when_walking_left() {
    let panes = [
        HorizontalPaneSnapshot {
            role: HorizontalPaneRole::Sidebar,
            is_plugin: false,
            exited: false,
            is_focused: false,
            pane_x: 0,
            pane_y: 0,
            pane_columns: 1,
            pane_rows: 40,
        },
        HorizontalPaneSnapshot {
            role: HorizontalPaneRole::Other,
            is_plugin: false,
            exited: false,
            is_focused: true,
            pane_x: 1,
            pane_y: 0,
            pane_columns: 80,
            pane_rows: 40,
        },
    ];

    assert_eq!(
        resolve_horizontal_focus(&panes, HorizontalDirection::Left, true, false),
        HorizontalFocusPlan::PreviousTab
    );
}

#[test]
fn open_sidebar_is_still_a_valid_left_target() {
    let panes = [
        HorizontalPaneSnapshot {
            role: HorizontalPaneRole::Sidebar,
            is_plugin: false,
            exited: false,
            is_focused: false,
            pane_x: 0,
            pane_y: 0,
            pane_columns: 24,
            pane_rows: 40,
        },
        HorizontalPaneSnapshot {
            role: HorizontalPaneRole::Other,
            is_plugin: false,
            exited: false,
            is_focused: true,
            pane_x: 24,
            pane_y: 0,
            pane_columns: 80,
            pane_rows: 40,
        },
    ];

    assert_eq!(
        resolve_horizontal_focus(&panes, HorizontalDirection::Left, false, false),
        HorizontalFocusPlan::FocusPane(0)
    );
}

#[test]
fn closed_agent_is_skipped_when_walking_right() {
    let panes = [
        HorizontalPaneSnapshot {
            role: HorizontalPaneRole::Other,
            is_plugin: false,
            exited: false,
            is_focused: true,
            pane_x: 0,
            pane_y: 0,
            pane_columns: 80,
            pane_rows: 40,
        },
        HorizontalPaneSnapshot {
            role: HorizontalPaneRole::Agent,
            is_plugin: false,
            exited: false,
            is_focused: false,
            pane_x: 80,
            pane_y: 0,
            pane_columns: 1,
            pane_rows: 40,
        },
    ];

    assert_eq!(
        resolve_horizontal_focus(&panes, HorizontalDirection::Right, false, true),
        HorizontalFocusPlan::NextTab
    );
}

#[test]
fn nearest_visible_left_pane_wins_over_hidden_sidebar() {
    let panes = [
        HorizontalPaneSnapshot {
            role: HorizontalPaneRole::Sidebar,
            is_plugin: false,
            exited: false,
            is_focused: false,
            pane_x: 0,
            pane_y: 0,
            pane_columns: 1,
            pane_rows: 40,
        },
        HorizontalPaneSnapshot {
            role: HorizontalPaneRole::Other,
            is_plugin: false,
            exited: false,
            is_focused: false,
            pane_x: 1,
            pane_y: 0,
            pane_columns: 60,
            pane_rows: 40,
        },
        HorizontalPaneSnapshot {
            role: HorizontalPaneRole::Other,
            is_plugin: false,
            exited: false,
            is_focused: true,
            pane_x: 61,
            pane_y: 0,
            pane_columns: 40,
            pane_rows: 40,
        },
    ];

    assert_eq!(
        resolve_horizontal_focus(&panes, HorizontalDirection::Left, true, false),
        HorizontalFocusPlan::FocusPane(1)
    );
}

#[test]
fn panes_without_horizontal_overlap_do_not_count_as_left_or_right_targets() {
    let panes = [
        HorizontalPaneSnapshot {
            role: HorizontalPaneRole::Other,
            is_plugin: false,
            exited: false,
            is_focused: true,
            pane_x: 1,
            pane_y: 0,
            pane_columns: 80,
            pane_rows: 20,
        },
        HorizontalPaneSnapshot {
            role: HorizontalPaneRole::Other,
            is_plugin: false,
            exited: false,
            is_focused: false,
            pane_x: 1,
            pane_y: 20,
            pane_columns: 80,
            pane_rows: 20,
        },
    ];

    assert_eq!(
        resolve_horizontal_focus(&panes, HorizontalDirection::Right, true, false),
        HorizontalFocusPlan::NextTab
    );
}

#[test]
fn managed_agent_identity_wins_over_activity_mutated_title() {
    assert_eq!(
        horizontal_role_for_pane(&7, "codex ·", None, Some(&7)),
        HorizontalPaneRole::Agent
    );
}

#[test]
fn titles_name_unmanaged_panes() {
    assert_eq!(
        horizontal_role_for_pane(&3, "  sidebar ", None, None),
        HorizontalPaneRole::Sidebar
    );
    assert_eq!(
        horizontal_role_for_pane(&3, "agent", Some(&4), None),
        HorizontalPaneRole::Agent
    );
    assert_eq!(
        horizontal_role_for_pane(&3, "agent", Some(&3), None),
        HorizontalPaneRole::Sidebar
    );
    assert_eq!(
        horizontal_role_for_pane(&3, "editor", None, None),
        HorizontalPaneRole::Other
    );
}

#[test]
fn no_focused_live_pane_is_reported() {
    let mut focused_plugin = pane(HorizontalPaneRole::Other, true, 0, 0, 10, 10);
    focused_plugin.is_plugin = true;
    let panes = [focused_plugin, pane(HorizontalPaneRole::Other, false, 10, 0, 10, 10)];
    assert_eq!(
        resolve_horizontal_focus(&panes, HorizontalDirection::Right, false, false),
        HorizontalFocusPlan::MissingFocusedPane
    );
}

#[test]
fn equal_distance_prefers_more_shared_rows_then_the_earlier_pane() {
    let panes = [
        pane(HorizontalPaneRole::Other, true, 0, 10, 50, 20),
        pane(HorizontalPaneRole::Other, false, 52, 0, 10, 15),
        pane(HorizontalPaneRole::Other, false, 52, 15, 10, 30),
        pane(HorizontalPaneRole::Other, false, 52, 15, 10, 30),
        pane(HorizontalPaneRole::Other, false, 51, 25, 10, 2),
    ];
    assert_eq!(
        resolve_horizontal_focus(&panes, HorizontalDirection::Right, false, false),
        HorizontalFocusPlan::FocusPane(4)
    );
    let panes = [
        pane(HorizontalPaneRole::Other, true, 0, 10, 50, 20),
        pane(HorizontalPaneRole::Other, false, 52, 0, 10, 15),
        pane(HorizontalPaneRole::Other, false, 52, 15, 10, 30),
        pane(HorizontalPaneRole::Other, false, 52, 15, 10, 30),
    ];
    assert_eq!(
        resolve_horizontal_focus(&panes, HorizontalDirection::Right, false, false),
        HorizontalFocusPlan::FocusPane(2)
    );
}
