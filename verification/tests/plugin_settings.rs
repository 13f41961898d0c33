use yazelix_zellij_pane_orchestrator::plugin_configuration::PluginConfiguration;
use yazelix_zellij_pane_orchestrator::plugin_settings::{
    popup_plugin_url_setting, runtime_config_generation, runtime_dir_setting,
};

#[test]
fn runtime_dir_is_trimmed_and_blank_means_unset() {
    let mut configuration = PluginConfiguration::new();
    assert_eq!(runtime_dir_setting(&configuration), None);
    configuration.insert("runtime_dir".to_string(), "   ".to_string());
    assert_eq!(runtime_dir_setting(&configuration), None);
    configuration.insert("runtime_dir".to_string(), " /run/yazelix ".to_string());
    assert_eq!(
        runtime_dir_setting(&configuration),
        Some("/run/yazelix".to_string())
    );
}

#[test]
fn runtime_config_generation_defaults_to_empty() {
    let mut configuration = PluginConfiguration::new();
    assert_eq!(runtime_config_generation(&configuration), "");
    configuration.insert(
        "runtime_config_generation".to_string(),
        " gen-42 ".to_string(),
    );
    assert_eq!(runtime_config_generation(&configuration), "gen-42");
}

#[test]
fn popup_plugin_url_is_read_as_configured() {
    let mut configuration = PluginConfiguration::new();
    assert_eq!(popup_plugin_url_setting(&configuration), None);
    configuration.insert("popup_plugin_url".to_string(), " yzpp ".to_string());
    assert_eq!(
        popup_plugin_url_setting(&configuration),
        Some(" yzpp ".to_string())
    );
}
