use yazelix_zellij_pane_orchestrator::plugin_configuration::PluginConfiguration;
use yazelix_zellij_pane_orchestrator::right_sidebar_command_contract::{
    RightSidebarCommandConfig, RightSidebarCommandLaunchSpec,
};

fn configuration(pairs: &[(&str, &str)]) -> PluginConfiguration {
    let mut configuration = PluginConfiguration::new();
    for (key, value) in pairs {
        configuration.insert(key.to_string(), value.to_string());
    }
    configuration
}

#[test]
fn reads_command_and_numbered_args() {
    let config = configuration(&[
        ("right_sidebar_command", "codex"),
        ("right_sidebar_arg_2", "gpt-5.5"),
        ("right_sidebar_arg_1", "--model"),
    ]);

    assert_eq!(
        RightSidebarCommandConfig::from_plugin_configuration(&config),
        Some(RightSidebarCommandConfig {
            command: "codex".to_string(),
            args: vec!["--model".to_string(), "gpt-5.5".to_string()],
        })
    );
}

#[test]
fn empty_command_is_missing() {
    let config = configuration(&[("right_sidebar_command", "   ")]);

    assert_eq!(
        RightSidebarCommandConfig::from_plugin_configuration(&config),
        None
    );
}

#[test]
fn launch_spec_sets_workspace_cwd() {
    let right_sidebar_command = RightSidebarCommandConfig {
        command: "codex".to_string(),
        args: vec!["--model".to_string(), "gpt-5".to_string()],
    };

    assert_eq!(
        right_sidebar_command.launch_spec("/tmp/project"),
        RightSidebarCommandLaunchSpec {
            command: "codex".to_string(),
            args: vec!["--model".to_string(), "gpt-5".to_string()],
            cwd: "/tmp/project".to_string(),
        }
    );
}

#[test]
fn arg_numbers_order_args_and_invalid_numbers_are_ignored() {
    let config = configuration(&[
        ("right_sidebar_command", "  codex  "),
        ("right_sidebar_arg_10", "ten"),
        ("right_sidebar_arg_9", "nine"),
        ("right_sidebar_arg_0", "zero"),
        ("right_sidebar_arg_x", "letters"),
        ("right_sidebar_arg_", "empty"),
        ("right_sidebar_arg_-1", "negative"),
        ("right_sidebar_arg_+2", "plus two"),
        ("right_sidebar_arg_02", "two"),
        ("right_sidebar_arg_99999999999999999999999", "overflow"),
        ("other_arg_1", "unrelated"),
    ]);
    let parsed = RightSidebarCommandConfig::from_plugin_configuration(&config).unwrap();
    assert_eq!(parsed.command, "codex");
    assert_eq!(parsed.args, vec!["plus two", "two", "nine", "ten"]);
}

#[test]
fn missing_command_is_missing() {
    let config = configuration(&[("right_sidebar_arg_1", "--model")]);
    assert_eq!(
        RightSidebarCommandConfig::from_plugin_configuration(&config),
        None
    );
}
