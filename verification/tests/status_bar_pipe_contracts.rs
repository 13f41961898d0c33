use yazelix_zellij_pane_orchestrator::status_bar_tab_activity_pipe_contract::tab_activity_pipe_protocol_payload;
use yazelix_zellij_pane_orchestrator::status_bar_workspace_pipe_contract::workspace_pipe_protocol_payload;

#[test]
fn tab_activity_pipe_payload_preserves_json_content() {
    let payload = tab_activity_pipe_protocol_payload(r#"{"base_name":"agent::plan"}"#);

    assert_eq!(
        payload,
        r#"zjstatus::pipe::pipe_tab_activity::{"base_name":"agent::plan"}"#
    );
}

#[test]
fn tab_activity_pipe_payload_removes_raw_line_breaks() {
    let payload = tab_activity_pipe_protocol_payload("{\n}");

    assert_eq!(payload, "zjstatus::pipe::pipe_tab_activity::{ }");
}

#[test]
fn workspace_pipe_payload_sanitizes_protocol_content() {
    let payload = workspace_pipe_protocol_payload(" [foo::bar\nbaz]");

    assert_eq!(payload, "zjstatus::pipe::pipe_workspace:: [foo:bar baz]");
}

#[test]
fn empty_workspace_pipe_payload_clears_widget() {
    let payload = workspace_pipe_protocol_payload("");

    assert_eq!(payload, "zjstatus::pipe::pipe_workspace::");
}

#[test]
fn workspace_label_keeps_no_double_colon() {
    assert_eq!(
        workspace_pipe_protocol_payload(":::\r::::"),
        "zjstatus::pipe::pipe_workspace::: :"
    );
    assert_eq!(
        workspace_pipe_protocol_payload("a:::b::::c\r\n:d"),
        "zjstatus::pipe::pipe_workspace::a:b:c  :d"
    );
    assert_eq!(
        workspace_pipe_protocol_payload("\n"),
        "zjstatus::pipe::pipe_workspace:: "
    );
}
