use yazelix_zellij_pane_orchestrator::workspace_popup_contract::{
    workspace_popup_destination_id, workspace_popup_payload, workspace_popup_show_action,
    yazi_emit_to_args,
};

#[test]
fn workspace_popup_request_carries_canonical_root() {
    let payload = workspace_popup_payload(" agent ", " /repo ").unwrap();
    let mut expected = serde_json::Map::new();
    expected.insert("id".to_string(), serde_json::Value::String("agent".to_string()));
    expected.insert("cwd".to_string(), serde_json::Value::String("/repo".to_string()));
    assert_eq!(
        serde_json::from_str::<serde_json::Value>(&payload).unwrap(),
        serde_json::Value::Object(expected)
    );

    assert!(workspace_popup_payload("", "/repo").is_none());
    assert!(workspace_popup_payload("agent", "repo").is_none());
}

#[test]
fn workspace_popup_targets_the_loaded_plugin_instance() {
    let panes = [
        (7, false, None),
        (8, true, Some("yzpp")),
        (9, false, Some("other")),
        (10, false, Some("yzpp")),
    ];
    assert_eq!(workspace_popup_destination_id(" yzpp ", &panes), Some(10));
    assert_eq!(workspace_popup_destination_id("missing", &panes), None);
}

#[test]
fn workspace_picker_focuses_a_live_popup_and_toggles_only_to_create_one() {
    assert_eq!(workspace_popup_show_action(true), "focus");
    assert_eq!(workspace_popup_show_action(false), "toggle");
}

#[test]
fn yazi_events_keep_receiver_and_path_arguments_structured() {
    assert_eq!(
        yazi_emit_to_args(" yazi-7 ", "cd", &["/workspace with spaces"]),
        Some(vec![
            "emit-to".to_string(),
            "yazi-7".to_string(),
            "cd".to_string(),
            "/workspace with spaces".to_string(),
        ])
    );
    assert_eq!(
        yazi_emit_to_args("yazi-7", "plugin", &["zoxide-editor"]),
        Some(vec![
            "emit-to".to_string(),
            "yazi-7".to_string(),
            "plugin".to_string(),
            "zoxide-editor".to_string(),
        ])
    );
    assert_eq!(yazi_emit_to_args("", "plugin", &["picker"]), None);
}

#[test]
fn popup_payload_escapes_json_exactly() {
    assert_eq!(
        workspace_popup_payload("a\"b\\c\u{1}\t", "/r é").unwrap(),
        "{\"id\":\"a\\\"b\\\\c\\u0001\",\"cwd\":\"/r é\"}"
    );
}

#[test]
fn blank_popup_url_targets_nothing() {
    let panes = [(1, false, Some(""))];
    assert_eq!(workspace_popup_destination_id("   ", &panes), None);
}
