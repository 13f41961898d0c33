use std::collections::HashMap;

use yazelix_zellij_pane_orchestrator::agent_plan::PaneRef;
use yazelix_zellij_pane_orchestrator::plugin_pipe::{
    RESULT_DENIED, RESULT_INVALID_PAYLOAD, RESULT_MISSING, RESULT_OK, RESULT_UNSUPPORTED_EDITOR,
};
use yazelix_zellij_pane_orchestrator::tab_identity_contract::TabRecord;
use yazelix_zellij_pane_orchestrator::workspace_state::{
    change_directory_command, escape_double_quoted_path, plan_popup_yazi_registration,
    plan_workspace_popup_message, plan_workspace_retarget, popup_yazi_registration,
    retain_live_popup_yazi, sidebar_yazi_registration, tab_for_popup_pane,
    tab_index_from_position, tab_name_from_file_name, tab_name_from_workspace_root,
    workspace_yazi_pane_id_by_tab, plan_editor_retarget, retarget_answer, EditorRetarget,
    TerminalPaneView, WorkspaceState, WorkspaceStateSource,
    WorkspaceTabs, YaziRegistration,
};

fn tab(position: usize, tab_id: usize, active: bool) -> TabRecord {
    TabRecord {
        position,
        tab_id,
        active,
    }
}

fn explicit(root: &str) -> WorkspaceState {
    WorkspaceState {
        root: root.to_string(),
        source: WorkspaceStateSource::Explicit,
    }
}

#[test]
fn tab_index_is_one_based() {
    assert_eq!(tab_index_from_position(0), 1);
    assert_eq!(tab_index_from_position(41), 42);
}

#[test]
fn paths_are_escaped_for_double_quotes() {
    assert_eq!(escape_double_quoted_path("plain/dir"), "plain/dir");
    assert_eq!(
        escape_double_quoted_path("a\\b\"c$d`e"),
        "a\\\\b\\\"c\\$d\\`e"
    );
    assert_eq!(
        change_directory_command("/tmp/my \"dir\""),
        "cd \"/tmp/my \\\"dir\\\"\""
    );
}

#[test]
fn tab_name_is_the_last_path_component() {
    assert_eq!(tab_name_from_workspace_root("/home/user/project"), "project");
    assert_eq!(tab_name_from_workspace_root("/home/user/project///"), "project");
    assert_eq!(tab_name_from_workspace_root("relative/dir"), "dir");
    assert_eq!(tab_name_from_workspace_root("/"), "unnamed");
    assert_eq!(tab_name_from_workspace_root(""), "unnamed");
    assert_eq!(tab_name_from_workspace_root("/tmp/.."), "unnamed");
    assert_eq!(tab_name_from_workspace_root("/srv/app/."), "app");
    assert_eq!(tab_name_from_workspace_root("./repo"), "repo");
    assert_eq!(tab_name_from_workspace_root("a//b"), "b");
    assert_eq!(tab_name_from_workspace_root("."), "unnamed");
    assert_eq!(tab_name_from_workspace_root("/."), "unnamed");
    assert_eq!(tab_name_from_workspace_root("a/../b"), "b");
    assert_eq!(tab_name_from_file_name(Some("")), "unnamed");
    assert_eq!(tab_name_from_file_name(None), "unnamed");
    assert_eq!(tab_name_from_file_name(Some("repo")), "repo");
}

#[test]
fn retarget_trims_the_root_and_defaults_to_explicit() {
    let retarget = plan_workspace_retarget(2, "  /srv/app/  ", None).unwrap();
    assert_eq!(retarget.state, explicit("/srv/app/"));
    assert_eq!(retarget.tab_index, 3);
    assert_eq!(retarget.tab_name, "app");

    let bootstrap =
        plan_workspace_retarget(0, "/srv/app", Some(WorkspaceStateSource::Bootstrap)).unwrap();
    assert_eq!(bootstrap.state.source, WorkspaceStateSource::Bootstrap);

    assert_eq!(
        plan_workspace_retarget(0, "   ", None),
        Err(RESULT_INVALID_PAYLOAD)
    );
}

#[test]
fn popup_registration_needs_ids_and_an_absolute_cwd() {
    let registration = popup_yazi_registration(" terminal:4 ", " yazi-1 ", " /repo ").unwrap();
    assert_eq!(registration.pane_id, "terminal:4");
    assert_eq!(registration.yazi_id, "yazi-1");
    assert_eq!(registration.cwd, "/repo");
    assert_eq!(popup_yazi_registration("", "yazi-1", "/repo"), None);
    assert_eq!(popup_yazi_registration("terminal:4", " ", "/repo"), None);
    assert_eq!(popup_yazi_registration("terminal:4", "yazi-1", "repo"), None);
}

#[test]
fn sidebar_registration_must_come_from_the_sidebar_pane() {
    let accepted =
        sidebar_yazi_registration(" terminal:2 ", "yazi-9", " /repo ", Some("terminal:2")).unwrap();
    assert_eq!(accepted.pane_id, "terminal:2");
    assert_eq!(accepted.cwd, "/repo");
    assert_eq!(
        sidebar_yazi_registration("terminal:3", "yazi-9", "/repo", Some("terminal:2")),
        None
    );
    assert_eq!(
        sidebar_yazi_registration("terminal:2", "yazi-9", "/repo", None),
        None
    );
    assert_eq!(
        sidebar_yazi_registration("terminal:2", "yazi-9", "  ", Some("terminal:2")),
        None
    );
}

#[test]
fn popup_pane_is_found_by_tab() {
    let mut panes = HashMap::new();
    panes.insert(10, "terminal:4".to_string());
    panes.insert(20, "terminal:9".to_string());
    assert_eq!(tab_for_popup_pane(&panes, "terminal:9"), Some(20));
    assert_eq!(tab_for_popup_pane(&panes, "terminal:5"), None);
}

#[test]
fn new_tabs_inherit_the_bootstrap_workspace() {
    let bootstrap = WorkspaceState::from_bootstrap_root("/tmp/restarted-project".to_string());
    let mut workspaces = WorkspaceTabs::new(Some(bootstrap.clone()));
    workspaces.reconcile(&[tab(0, 10, true)]);
    assert_eq!(workspaces.state_for_tab(10), Some(bootstrap.clone()));

    workspaces.retarget(10, explicit("/srv/app"));
    assert_eq!(workspaces.root_for_tab(10), Some("/srv/app"));

    workspaces.reconcile(&[tab(0, 10, false), tab(1, 20, true)]);
    assert_eq!(workspaces.state_by_tab.get(&20), Some(&bootstrap));
    assert_eq!(workspaces.state_by_tab.get(&10), Some(&explicit("/srv/app")));
}

#[test]
fn a_known_tab_without_workspace_stays_without_one() {
    let bootstrap = WorkspaceState::from_bootstrap_root("/boot".to_string());
    let mut workspaces = WorkspaceTabs::new(Some(bootstrap.clone()));
    workspaces.reconcile(&[tab(0, 10, true), tab(1, 20, false)]);
    workspaces.state_by_tab.remove(&10);
    workspaces.retarget(20, explicit("/other"));
    workspaces.reconcile(&[tab(0, 10, true), tab(1, 20, false)]);
    assert_eq!(workspaces.state_by_tab.get(&10), None);
    assert_eq!(workspaces.state_for_tab(10), Some(bootstrap));
}

#[test]
fn closed_tabs_lose_their_workspace() {
    let mut workspaces = WorkspaceTabs::new(None);
    workspaces.reconcile(&[tab(0, 10, true), tab(1, 20, false)]);
    workspaces.retarget(10, explicit("/a"));
    workspaces.retarget(20, explicit("/b"));
    workspaces.reconcile(&[tab(0, 20, true)]);
    assert_eq!(workspaces.state_by_tab.len(), 1);
    assert_eq!(workspaces.root_for_tab(20), Some("/b"));
    assert_eq!(workspaces.root_for_tab(10), None);
    assert!(workspaces.seen_tab_ids.contains(&20));
    assert!(!workspaces.seen_tab_ids.contains(&10));
}

fn pane(pane_id: &str, is_floating: bool, title: &str) -> TerminalPaneView {
    TerminalPaneView {
        pane_id: pane_id.to_string(),
        is_floating,
        title: title.to_string(),
    }
}

#[test]
fn popup_pane_is_the_first_floating_pane_with_the_title() {
    let mut panes_by_tab = HashMap::new();
    panes_by_tab.insert(
        10,
        vec![
            pane("terminal:1", false, "yzpp"),
            pane("terminal:2", true, " yzpp "),
            pane("terminal:3", true, "yzpp"),
        ],
    );
    panes_by_tab.insert(20, vec![pane("terminal:4", true, "other")]);
    let found = workspace_yazi_pane_id_by_tab(Some("yzpp"), &panes_by_tab);
    assert_eq!(found.len(), 1);
    assert_eq!(found.get(&10).map(String::as_str), Some("terminal:2"));
    assert!(workspace_yazi_pane_id_by_tab(None, &panes_by_tab).is_empty());
}

#[test]
fn popup_registrations_of_replaced_panes_are_dropped() {
    let registration = |pane_id: &str| YaziRegistration {
        pane_id: pane_id.to_string(),
        yazi_id: "yazi-1".to_string(),
        cwd: "/repo".to_string(),
    };
    let mut states = HashMap::new();
    states.insert(10, registration("terminal:2"));
    states.insert(20, registration("terminal:4"));
    states.insert(30, registration("terminal:6"));
    let mut live = HashMap::new();
    live.insert(10, "terminal:2".to_string());
    live.insert(20, "terminal:5".to_string());
    retain_live_popup_yazi(&mut states, &live);
    assert_eq!(states.len(), 1);
    assert!(states.contains_key(&10));
}

#[test]
fn popup_registration_plan_checks_permissions_payload_and_pane() {
    let mut live = HashMap::new();
    live.insert(10, "terminal:2".to_string());
    assert_eq!(
        plan_popup_yazi_registration(false, "terminal:2", "yazi-1", "/repo", &live),
        Err(RESULT_DENIED)
    );
    assert_eq!(
        plan_popup_yazi_registration(true, "terminal:2", "yazi-1", "repo", &live),
        Err(RESULT_INVALID_PAYLOAD)
    );
    assert_eq!(
        plan_popup_yazi_registration(true, "terminal:3", "yazi-1", "/repo", &live),
        Err(RESULT_MISSING)
    );
    let (tab_id, registration) =
        plan_popup_yazi_registration(true, " terminal:2 ", "yazi-1", "/repo", &live).unwrap();
    assert_eq!(tab_id, 10);
    assert_eq!(registration.pane_id, "terminal:2");
}

#[test]
fn popup_message_needs_root_id_url_and_a_loaded_popup() {
    let panes = [(7, false, Some("yzpp")), (9, true, Some("other"))];
    assert_eq!(
        plan_workspace_popup_message(None, Some("agent"), Some("yzpp"), &panes),
        Err(RESULT_MISSING)
    );
    assert_eq!(
        plan_workspace_popup_message(Some("/repo"), None, Some("yzpp"), &panes),
        Err(RESULT_INVALID_PAYLOAD)
    );
    assert_eq!(
        plan_workspace_popup_message(Some("repo"), Some("agent"), Some("yzpp"), &panes),
        Err(RESULT_INVALID_PAYLOAD)
    );
    assert_eq!(
        plan_workspace_popup_message(Some("/repo"), Some("agent"), None, &panes),
        Err(RESULT_MISSING)
    );
    assert_eq!(
        plan_workspace_popup_message(Some("/repo"), Some("agent"), Some("missing"), &panes),
        Err(RESULT_MISSING)
    );
    assert_eq!(
        plan_workspace_popup_message(Some(" /repo "), Some(" agent "), Some(" yzpp "), &panes),
        Ok((7, "{\"id\":\"agent\",\"cwd\":\"/repo\"}".to_string()))
    );
}

#[test]
fn retarget_drops_the_waiting_zoxide_picker() {
    let mut workspaces = WorkspaceTabs::new(None);
    workspaces.request_zoxide_picker(10);
    workspaces.request_zoxide_picker(20);
    workspaces.retarget(10, explicit("/srv/app"));
    assert!(!workspaces.pending_zoxide_picker.contains(&10));
    assert!(workspaces.pending_zoxide_picker.contains(&20));
    assert!(workspaces.take_zoxide_picker(20));
    assert!(!workspaces.take_zoxide_picker(20));
    assert!(workspaces.pending_zoxide_picker.is_empty());
}

#[test]
fn popup_registrations_are_kept_per_tab_while_their_pane_lives() {
    let mut workspaces = WorkspaceTabs::new(None);
    let registration = popup_yazi_registration("terminal:2", "yazi-1", "/repo").unwrap();
    workspaces.register_popup_yazi(10, registration);
    assert_eq!(
        workspaces.popup_yazi_for_tab(10).map(|r| r.yazi_id.as_str()),
        Some("yazi-1")
    );
    assert_eq!(workspaces.popup_yazi_for_tab(20), None);
    let mut live = HashMap::new();
    live.insert(10, "terminal:3".to_string());
    workspaces.retain_live_popups(&live);
    assert_eq!(workspaces.popup_yazi_for_tab(10), None);
}

#[test]
fn retarget_without_editor_answers_ok_and_skipped() {
    let editor = plan_editor_retarget(None, None, None);
    assert_eq!(editor, EditorRetarget::Skipped);
    assert_eq!(plan_editor_retarget(Some("   "), None, None), EditorRetarget::Skipped);
    let answer = retarget_answer(&editor, None);
    assert_eq!(answer.status, RESULT_OK);
    assert_eq!(answer.editor_status, "skipped");
    assert_eq!(answer.sidebar_yazi_id, None);
    assert_eq!(answer.sidebar_yazi_cwd, None);
}

#[test]
fn retarget_editor_plan_covers_each_outcome() {
    let editor = PaneRef::Terminal(1);
    let unsupported = plan_editor_retarget(Some("hx"), None, Some(editor));
    assert_eq!(unsupported, EditorRetarget::Unsupported);
    assert_eq!(
        retarget_answer(&unsupported, None).editor_status,
        RESULT_UNSUPPORTED_EDITOR
    );
    let missing = plan_editor_retarget(Some("nvim"), Some(":cd /srv".to_string()), None);
    assert_eq!(missing, EditorRetarget::Missing);
    assert_eq!(retarget_answer(&missing, None).editor_status, RESULT_MISSING);
    let change = plan_editor_retarget(Some(" nvim "), Some(":cd /srv".to_string()), Some(editor));
    assert_eq!(
        change,
        EditorRetarget::ChangeDirectory {
            pane: editor,
            command: ":cd /srv".to_string()
        }
    );
    let sidebar = popup_yazi_registration("terminal:2", "yazi-7", "/srv").unwrap();
    let answer = retarget_answer(&change, Some(&sidebar));
    assert_eq!(answer.editor_status, RESULT_OK);
    assert_eq!(answer.sidebar_yazi_id.as_deref(), Some("yazi-7"));
    assert_eq!(answer.sidebar_yazi_cwd.as_deref(), Some("/srv"));
}
