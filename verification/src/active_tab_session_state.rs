use vstd::prelude::*;

use crate::text::str_equal;

verus! {

/// Normalized activity state of one AI pane, as carried on the status bus.
#[derive(Clone, Copy, Debug, PartialEq, Eq, Structural)]
pub enum SessionAiPaneActivityState {
    Active,
    Thinking,
    Inactive,
    Stale,
    Unknown,
}

/// The token that names `state` on the status bus.
pub open spec fn activity_state_token(state: SessionAiPaneActivityState) -> Seq<char> {
    match state {
        SessionAiPaneActivityState::Active => "active"@,
        SessionAiPaneActivityState::Thinking => "thinking"@,
        SessionAiPaneActivityState::Inactive => "inactive"@,
        SessionAiPaneActivityState::Stale => "stale"@,
        SessionAiPaneActivityState::Unknown => "unknown"@,
    }
}

/// The state an activity token stands for: each state's own token, plus the
/// legacy `streaming` (active) and `idle` (inactive).
pub open spec fn activity_state_from_token(token: Seq<char>) -> Option<SessionAiPaneActivityState> {
    if token == "active"@ || token == "streaming"@ {
        Some(SessionAiPaneActivityState::Active)
    } else if token == "thinking"@ {
        Some(SessionAiPaneActivityState::Thinking)
    } else if token == "inactive"@ || token == "idle"@ {
        Some(SessionAiPaneActivityState::Inactive)
    } else if token == "stale"@ {
        Some(SessionAiPaneActivityState::Stale)
    } else if token == "unknown"@ {
        Some(SessionAiPaneActivityState::Unknown)
    } else {
        None
    }
}

impl SessionAiPaneActivityState {
    /// The status-bus token of this state.
    pub fn as_str(self) -> (token: &'static str)
        ensures
            token@ == activity_state_token(self),
    {
        match self {
            SessionAiPaneActivityState::Active => "active",
            SessionAiPaneActivityState::Thinking => "thinking",
            SessionAiPaneActivityState::Inactive => "inactive",
            SessionAiPaneActivityState::Stale => "stale",
            SessionAiPaneActivityState::Unknown => "unknown",
        }
    }

    /// Reads an activity token; `None` for a token that names no state.
    pub fn from_activity(token: &str) -> (state: Option<SessionAiPaneActivityState>)
        ensures
            state == activity_state_from_token(token@),
    {
        if str_equal(token, "active") || str_equal(token, "streaming") {
            Some(SessionAiPaneActivityState::Active)
        } else if str_equal(token, "thinking") {
            Some(SessionAiPaneActivityState::Thinking)
        } else if str_equal(token, "inactive") || str_equal(token, "idle") {
            Some(SessionAiPaneActivityState::Inactive)
        } else if str_equal(token, "stale") {
            Some(SessionAiPaneActivityState::Stale)
        } else if str_equal(token, "unknown") {
            Some(SessionAiPaneActivityState::Unknown)
        } else {
            None
        }
    }
}

/// One activity fact: which provider reported which state for which pane,
/// and the position of the tab it belongs to.
#[derive(Debug, PartialEq, Eq)]
pub struct SessionAiPaneActivity {
    pub tab_position: Option<usize>,
    pub provider: String,
    pub pane_id: String,
    pub activity: String,
    pub state: SessionAiPaneActivityState,
}

impl Clone for SessionAiPaneActivity {
    fn clone(&self) -> (copy: Self)
        ensures
            copy == *self,
    {
        SessionAiPaneActivity {
            tab_position: self.tab_position,
            provider: self.provider.clone(),
            pane_id: self.pane_id.clone(),
            activity: self.activity.clone(),
            state: self.state,
        }
    }
}

impl SessionAiPaneActivity {
    /// A fact for the tab at `tab_position`, whose activity token is the
    /// token of `state`.
    pub fn tab_local(
        tab_position: usize,
        provider: String,
        pane_id: String,
        state: SessionAiPaneActivityState,
    ) -> (fact: SessionAiPaneActivity)
        ensures
            fact.tab_position == Some(tab_position),
            fact.provider@ == provider@,
            fact.pane_id@ == pane_id@,
            fact.activity@ == activity_state_token(state),
            fact.state == state,
    {
        let token = state.as_str();
        SessionAiPaneActivity {
            tab_position: Some(tab_position),
            provider,
            pane_id,
            activity: token.to_string(),
            state,
        }
    }
}

} // verus!
