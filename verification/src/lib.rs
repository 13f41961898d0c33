//! Tab-local pane orchestration decisions for a Zellij plugin: which pane to
//! focus, which swap layout to step to, how AI activity facts are recorded
//! per tab and reduce to a tab state, which workspace each tab works in,
//! which command a pipe message names, and how status-bar pipe payloads are
//! framed.

pub mod active_tab_session_state;
pub mod agent_focus_contract;
pub mod agent_plan;
pub mod ai_activity_store;
pub mod ai_pane_activity_contract;
pub mod decimal;
pub mod horizontal_focus_contract;
pub mod layout_plan;
pub mod layout_state_contract;
pub mod plugin_configuration;
pub mod plugin_pipe;
pub mod plugin_settings;
pub mod right_sidebar_command_contract;
pub mod stable_sort;
pub mod status_bar_tab_activity_pipe_contract;
pub mod status_bar_workspace_pipe_contract;
pub mod status_usage_provider_contract;
pub mod tab_activity_snapshot_contract;
pub mod tab_identity_contract;
pub mod text;
pub mod workspace_popup_contract;
pub mod workspace_state;
