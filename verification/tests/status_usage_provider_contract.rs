use yazelix_zellij_pane_orchestrator::plugin_configuration::PluginConfiguration;
use yazelix_zellij_pane_orchestrator::status_usage_provider_contract::{
    StatusUsageProviderConfig, STATUS_USAGE_PROVIDER_CLAUDE_ENABLED_KEY,
    STATUS_USAGE_PROVIDER_CODEX_ENABLED_KEY, STATUS_USAGE_PROVIDER_OPENCODE_GO_ENABLED_KEY,
};

#[test]
fn missing_provider_config_preserves_all_enabled_default() {
    let configuration = PluginConfiguration::new();

    assert_eq!(
        StatusUsageProviderConfig::from_plugin_configuration(&configuration),
        StatusUsageProviderConfig {
            claude_usage: true,
            codex_usage: true,
            opencode_go_usage: true,
        }
    );
}

#[test]
fn explicit_provider_config_can_enable_only_codex() {
    let mut configuration = PluginConfiguration::new();
    configuration.insert(
        STATUS_USAGE_PROVIDER_CLAUDE_ENABLED_KEY.to_string(),
        "false".to_string(),
    );
    configuration.insert(
        STATUS_USAGE_PROVIDER_CODEX_ENABLED_KEY.to_string(),
        "true".to_string(),
    );
    configuration.insert(
        STATUS_USAGE_PROVIDER_OPENCODE_GO_ENABLED_KEY.to_string(),
        "false".to_string(),
    );

    assert_eq!(
        StatusUsageProviderConfig::from_plugin_configuration(&configuration),
        StatusUsageProviderConfig {
            claude_usage: false,
            codex_usage: true,
            opencode_go_usage: false,
        }
    );
}

#[test]
fn flag_spellings_and_unreadable_values() {
    let mut configuration = PluginConfiguration::new();
    configuration.insert(
        STATUS_USAGE_PROVIDER_CLAUDE_ENABLED_KEY.to_string(),
        " off ".to_string(),
    );
    configuration.insert(
        STATUS_USAGE_PROVIDER_CODEX_ENABLED_KEY.to_string(),
        "maybe".to_string(),
    );
    configuration.insert(
        STATUS_USAGE_PROVIDER_OPENCODE_GO_ENABLED_KEY.to_string(),
        "0".to_string(),
    );
    assert_eq!(
        StatusUsageProviderConfig::from_plugin_configuration(&configuration),
        StatusUsageProviderConfig {
            claude_usage: false,
            codex_usage: true,
            opencode_go_usage: false,
        }
    );
    assert_eq!(
        StatusUsageProviderConfig::default(),
        StatusUsageProviderConfig {
            claude_usage: true,
            codex_usage: true,
            opencode_go_usage: true,
        }
    );
}
