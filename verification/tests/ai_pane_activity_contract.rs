use yazelix_zellij_pane_orchestrator::active_tab_session_state::{
    SessionAiPaneActivity, SessionAiPaneActivityState,
};
use yazelix_zellij_pane_orchestrator::ai_pane_activity_contract::{
    ai_activity_tab_state, managed_terminal_title_activity_state, normalized_ai_activity_state,
    remove_ai_pane_activity_fact, terminal_activity_title_base, terminal_command_matches_marker,
    terminal_title_activity_state, upsert_ai_pane_activity_fact, AiActivityTabState,
    AiPaneActivityRegistration, TERMINAL_TITLE_ACTIVITY_PROVIDER,
};

fn registration(activity: &str) -> AiPaneActivityRegistration {
    AiPaneActivityRegistration {
        provider: "codex".into(),
        pane_id: "terminal:5".into(),
        activity: activity.into(),
        state: None,
    }
}

#[test]
fn normalizes_legacy_ai_activity_tokens_to_status_states() {
    assert_eq!(
        normalized_ai_activity_state(&registration("streaming")),
        Some(SessionAiPaneActivityState::Active)
    );
    assert_eq!(
        normalized_ai_activity_state(&registration("thinking")),
        Some(SessionAiPaneActivityState::Thinking)
    );
    assert_eq!(normalized_ai_activity_state(&registration("busy")), None);
}

#[test]
fn upserts_ai_activity_by_provider_and_pane_identity() {
    let mut facts = vec![SessionAiPaneActivity::tab_local(
        1,
        "codex".into(),
        "terminal:5".into(),
        SessionAiPaneActivityState::Active,
    )];

    upsert_ai_pane_activity_fact(
        &mut facts,
        SessionAiPaneActivity::tab_local(
            1,
            "codex".into(),
            "terminal:5".into(),
            SessionAiPaneActivityState::Thinking,
        ),
    );

    assert_eq!(facts.len(), 1);
    assert_eq!(facts[0].state, SessionAiPaneActivityState::Thinking);
}

#[test]
fn ai_activity_tab_state_prioritizes_alert_then_busy_then_idle() {
    let active = SessionAiPaneActivity::tab_local(
        1,
        "codex".into(),
        "terminal:5".into(),
        SessionAiPaneActivityState::Active,
    );
    let thinking = SessionAiPaneActivity::tab_local(
        1,
        "codex".into(),
        "terminal:5".into(),
        SessionAiPaneActivityState::Thinking,
    );
    let inactive = SessionAiPaneActivity::tab_local(
        1,
        "codex".into(),
        "terminal:5".into(),
        SessionAiPaneActivityState::Inactive,
    );
    let stale = SessionAiPaneActivity::tab_local(
        1,
        "codex".into(),
        "terminal:5".into(),
        SessionAiPaneActivityState::Stale,
    );

    assert_eq!(
        ai_activity_tab_state(&[active.clone()]),
        AiActivityTabState::Busy
    );
    assert_eq!(ai_activity_tab_state(&[thinking]), AiActivityTabState::Busy);
    assert_eq!(
        ai_activity_tab_state(&[active, stale]),
        AiActivityTabState::Alert
    );
    assert_eq!(ai_activity_tab_state(&[inactive]), AiActivityTabState::Idle);
    assert_eq!(ai_activity_tab_state(&[]), AiActivityTabState::Idle);
}

#[test]
fn terminal_title_activity_clears_when_spinner_title_disappears() {
    assert_eq!(
        terminal_title_activity_state("⠋ yazelix"),
        Some(SessionAiPaneActivityState::Active)
    );
    assert_eq!(terminal_title_activity_state("yazelix"), None);
}

#[test]
fn managed_terminal_title_activity_requires_the_configured_command() {
    let command = "/nix/store/agent/bin/yzx-agent";

    assert_eq!(
        managed_terminal_title_activity_state("⠋ Codex", Some(command), Some(command)),
        Some(SessionAiPaneActivityState::Active)
    );
    assert_eq!(
        managed_terminal_title_activity_state("⠋ Codex", Some("/bin/codex"), Some(command),),
        None
    );
    assert_eq!(
        managed_terminal_title_activity_state("Codex", Some(command), Some(command)),
        None
    );
}

#[test]
fn explicit_state_wins_and_blank_activity_is_unknown() {
    let mut explicit = registration("streaming");
    explicit.state = Some(SessionAiPaneActivityState::Stale);
    assert_eq!(
        normalized_ai_activity_state(&explicit),
        Some(SessionAiPaneActivityState::Stale)
    );
    assert_eq!(
        normalized_ai_activity_state(&registration("   ")),
        Some(SessionAiPaneActivityState::Unknown)
    );
    assert_eq!(
        normalized_ai_activity_state(&registration("  thinking\n")),
        Some(SessionAiPaneActivityState::Thinking)
    );
}

#[test]
fn title_base_is_trimmed_name_after_one_spinner_frame() {
    assert_eq!(terminal_activity_title_base("  ⠙   Codex  "), Some("Codex"));
    assert_eq!(terminal_activity_title_base("⠙⠙ Codex"), None);
    assert_eq!(terminal_activity_title_base("⠙    "), None);
    assert_eq!(terminal_activity_title_base("x Codex"), None);
    assert_eq!(terminal_activity_title_base("⠏ agent plan"), Some("agent plan"));
}

#[test]
fn marker_matching_trims_and_needs_a_marker() {
    assert!(terminal_command_matches_marker(
        Some("  /nix/bin/yzx-agent --resume "),
        Some(" yzx-agent ")
    ));
    assert!(!terminal_command_matches_marker(Some("/bin/codex"), Some("yzx")));
    assert!(!terminal_command_matches_marker(Some("/bin/codex"), Some("   ")));
    assert!(!terminal_command_matches_marker(None, Some("codex")));
    assert!(!terminal_command_matches_marker(Some("codex"), None));
    assert_eq!(
        managed_terminal_title_activity_state("⠋ Codex", None, None),
        Some(SessionAiPaneActivityState::Active)
    );
}

#[test]
fn paneless_fact_replaces_other_paneless_facts_and_goes_last() {
    let mut facts = vec![
        SessionAiPaneActivity::tab_local(
            0,
            "codex".into(),
            " ".into(),
            SessionAiPaneActivityState::Inactive,
        ),
        SessionAiPaneActivity::tab_local(
            0,
            "codex".into(),
            "terminal:1".into(),
            SessionAiPaneActivityState::Active,
        ),
    ];
    upsert_ai_pane_activity_fact(
        &mut facts,
        SessionAiPaneActivity::tab_local(
            0,
            "opencode".into(),
            "".into(),
            SessionAiPaneActivityState::Unknown,
        ),
    );
    assert_eq!(facts.len(), 2);
    assert_eq!(facts[0].pane_id, "terminal:1");
    assert_eq!(facts[1].provider, "opencode");
    assert_eq!(facts[1].state, SessionAiPaneActivityState::Unknown);
}

#[test]
fn new_pane_fact_is_appended_and_removal_drops_only_that_key() {
    let mut facts = vec![SessionAiPaneActivity::tab_local(
        0,
        TERMINAL_TITLE_ACTIVITY_PROVIDER.to_string(),
        "terminal:1".into(),
        SessionAiPaneActivityState::Active,
    )];
    upsert_ai_pane_activity_fact(
        &mut facts,
        SessionAiPaneActivity::tab_local(
            0,
            "codex".into(),
            "terminal:1".into(),
            SessionAiPaneActivityState::Stale,
        ),
    );
    assert_eq!(facts.len(), 2);
    remove_ai_pane_activity_fact(&mut facts, TERMINAL_TITLE_ACTIVITY_PROVIDER, "terminal:1");
    assert_eq!(facts.len(), 1);
    assert_eq!(facts[0].provider, "codex");
    assert_eq!(facts[0].activity, "stale");
    assert_eq!(facts[0].tab_position, Some(0));
}

#[test]
fn activity_tokens_read_and_print() {
    assert_eq!(
        SessionAiPaneActivityState::from_activity("idle"),
        Some(SessionAiPaneActivityState::Inactive)
    );
    assert_eq!(SessionAiPaneActivityState::from_activity("Active"), None);
    assert_eq!(SessionAiPaneActivityState::Stale.as_str(), "stale");
}

#[test]
fn recording_a_fact_twice_is_recording_it_once() {
    let base = vec![
        SessionAiPaneActivity::tab_local(
            0,
            "codex".into(),
            "terminal:1".into(),
            SessionAiPaneActivityState::Active,
        ),
        SessionAiPaneActivity::tab_local(
            0,
            "codex".into(),
            "".into(),
            SessionAiPaneActivityState::Unknown,
        ),
    ];
    for fact in [
        SessionAiPaneActivity::tab_local(
            0,
            "codex".into(),
            "terminal:1".into(),
            SessionAiPaneActivityState::Thinking,
        ),
        SessionAiPaneActivity::tab_local(
            0,
            "codex".into(),
            "terminal:2".into(),
            SessionAiPaneActivityState::Stale,
        ),
        SessionAiPaneActivity::tab_local(
            0,
            "codex".into(),
            " ".into(),
            SessionAiPaneActivityState::Inactive,
        ),
    ] {
        let mut once = base.clone();
        upsert_ai_pane_activity_fact(&mut once, fact.clone());
        let mut twice = once.clone();
        upsert_ai_pane_activity_fact(&mut twice, fact.clone());
        assert_eq!(once, twice);
        assert!(once.contains(&fact));
    }
}

#[test]
fn removing_a_newly_recorded_pane_fact_restores_the_facts() {
    let base = vec![SessionAiPaneActivity::tab_local(
        0,
        "codex".into(),
        "terminal:1".into(),
        SessionAiPaneActivityState::Active,
    )];
    let mut facts = base.clone();
    upsert_ai_pane_activity_fact(
        &mut facts,
        SessionAiPaneActivity::tab_local(
            0,
            TERMINAL_TITLE_ACTIVITY_PROVIDER.into(),
            "terminal:1".into(),
            SessionAiPaneActivityState::Active,
        ),
    );
    assert_eq!(facts.len(), 2);
    remove_ai_pane_activity_fact(&mut facts, TERMINAL_TITLE_ACTIVITY_PROVIDER, "terminal:1");
    assert_eq!(facts, base);
}
