use vstd::prelude::*;

use crate::plugin_configuration::{lookup, PluginConfiguration};
use crate::text::{trim, trim_str};

verus! {

/// Configuration key of the directory the plugin runs helper commands in.
pub const RUNTIME_DIR_KEY: &'static str = "runtime_dir";

/// Configuration key of the generation stamp of the runtime configuration.
pub const RUNTIME_CONFIG_GENERATION_KEY: &'static str = "runtime_config_generation";

/// Configuration key of the plugin URL of the workspace popup.
pub const POPUP_PLUGIN_URL_KEY: &'static str = "popup_plugin_url";

/// The configured runtime directory: the trimmed value of `runtime_dir`, or
/// `None` when it is missing or blank (the plugin then uses its initial
/// directory).
pub open spec fn configured_runtime_dir(configuration: Seq<(Seq<char>, Seq<char>)>) -> Option<
    Seq<char>,
> {
    match lookup(configuration, RUNTIME_DIR_KEY@) {
        Some(value) => if trim(value).len() > 0 {
            Some(trim(value))
        } else {
            None
        },
        None => None,
    }
}

/// The configured runtime directory, if one is set.
pub fn runtime_dir_setting(configuration: &PluginConfiguration) -> (dir: Option<String>)
    ensures
        match dir {
            Some(d) => configured_runtime_dir(configuration@) == Some(d@),
            None => configured_runtime_dir(configuration@) is None,
        },
{
    match configuration.get(RUNTIME_DIR_KEY) {
        Some(value) => {
            let dir = trim_str(value.as_str());
            if dir.is_empty() {
                None
            } else {
                Some(dir.to_string())
            }
        },
        None => None,
    }
}

/// The generation stamp of the runtime configuration: the trimmed value of
/// `runtime_config_generation`, empty when it is missing.
pub fn runtime_config_generation(configuration: &PluginConfiguration) -> (generation: String)
    ensures
        generation@ == match lookup(configuration@, RUNTIME_CONFIG_GENERATION_KEY@) {
            Some(value) => trim(value),
            None => Seq::<char>::empty(),
        },
{
    match configuration.get(RUNTIME_CONFIG_GENERATION_KEY) {
        Some(value) => trim_str(value.as_str()).to_string(),
        None => String::new(),
    }
}

/// The plugin URL of the workspace popup, as configured (the popup search
/// trims it); `None` when it is not configured.
pub fn popup_plugin_url_setting(configuration: &PluginConfiguration) -> (url: Option<String>)
    ensures
        match url {
            Some(u) => lookup(configuration@, POPUP_PLUGIN_URL_KEY@) == Some(u@),
            None => lookup(configuration@, POPUP_PLUGIN_URL_KEY@) is None,
        },
{
    match configuration.get(POPUP_PLUGIN_URL_KEY) {
        Some(value) => Some(value.clone()),
        None => None,
    }
}

} // verus!
