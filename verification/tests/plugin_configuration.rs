use yazelix_zellij_pane_orchestrator::plugin_configuration::PluginConfiguration;

#[test]
fn read_after_write_and_overwrite() {
    let mut configuration = PluginConfiguration::new();
    assert_eq!(configuration.get("a"), None);
    configuration.insert("b".to_string(), "2".to_string());
    configuration.insert("a".to_string(), "1".to_string());
    configuration.insert("c".to_string(), "3".to_string());
    configuration.insert("b".to_string(), "two".to_string());
    assert_eq!(configuration.get("a").map(String::as_str), Some("1"));
    assert_eq!(configuration.get("b").map(String::as_str), Some("two"));
    assert_eq!(configuration.get("c").map(String::as_str), Some("3"));
    assert_eq!(configuration.get("d"), None);
    let keys: Vec<&str> = configuration
        .entries()
        .iter()
        .map(|(key, _)| key.as_str())
        .collect();
    assert_eq!(keys, vec!["a", "b", "c"]);
}

#[test]
fn entries_follow_string_order() {
    let mut configuration = PluginConfiguration::new();
    for key in ["right_sidebar_arg_2", "right_sidebar_arg_10", "Z", "é", "right_sidebar_arg_1"] {
        configuration.insert(key.to_string(), String::new());
    }
    let keys: Vec<String> = configuration
        .entries()
        .iter()
        .map(|(key, _)| key.clone())
        .collect();
    let mut expected: Vec<String> = keys.clone();
    expected.sort();
    assert_eq!(keys, expected);
    assert_eq!(keys.len(), 5);
}
