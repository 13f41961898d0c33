use vstd::prelude::*;

use crate::plugin_configuration::{lookup, PluginConfiguration};
use crate::text::{str_equal, trim, trim_str};

verus! {

pub const STATUS_USAGE_PROVIDER_CLAUDE_ENABLED_KEY: &'static str =
    "status_usage_provider_claude_enabled";

pub const STATUS_USAGE_PROVIDER_CODEX_ENABLED_KEY: &'static str =
    "status_usage_provider_codex_enabled";

pub const STATUS_USAGE_PROVIDER_OPENCODE_GO_ENABLED_KEY: &'static str =
    "status_usage_provider_opencode_go_enabled";

/// Which usage providers the status bar refreshes.
#[derive(Clone, Copy, Debug, PartialEq, Eq, Structural)]
pub struct StatusUsageProviderConfig {
    pub claude_usage: bool,
    pub codex_usage: bool,
    pub opencode_go_usage: bool,
}

impl Default for StatusUsageProviderConfig {
    /// Every provider enabled.
    fn default() -> (config: Self)
        ensures
            config == (StatusUsageProviderConfig {
                claude_usage: true,
                codex_usage: true,
                opencode_go_usage: true,
            }),
    {
        Self { claude_usage: true, codex_usage: true, opencode_go_usage: true }
    }
}

/// A configured flag: `true`, `1`, `yes`, `on` enable and `false`, `0`, `no`,
/// `off` disable (surrounding white space ignored); anything else, or no
/// value, keeps `default`.
pub open spec fn configured_flag(value: Option<Seq<char>>, default: bool) -> bool {
    match value {
        Some(raw) => {
            let token = trim(raw);
            if token == "true"@ || token == "1"@ || token == "yes"@ || token == "on"@ {
                true
            } else if token == "false"@ || token == "0"@ || token == "no"@ || token == "off"@ {
                false
            } else {
                default
            }
        },
        None => default,
    }
}

fn bool_config(configuration: &PluginConfiguration, key: &str, default: bool) -> (flag: bool)
    ensures
        flag == configured_flag(lookup(configuration@, key@), default),
{
    match configuration.get(key) {
        Some(raw) => {
            let token = trim_str(raw.as_str());
            if str_equal(token, "true") || str_equal(token, "1") || str_equal(token, "yes")
                || str_equal(token, "on") {
                true
            } else if str_equal(token, "false") || str_equal(token, "0") || str_equal(token, "no")
                || str_equal(token, "off") {
                false
            } else {
                default
            }
        },
        None => default,
    }
}

impl StatusUsageProviderConfig {
    /// Reads the three provider flags from the plugin configuration; a
    /// missing or unreadable flag leaves its provider enabled.
    pub fn from_plugin_configuration(configuration: &PluginConfiguration) -> (config: Self)
        ensures
            config.claude_usage == configured_flag(
                lookup(configuration@, STATUS_USAGE_PROVIDER_CLAUDE_ENABLED_KEY@),
                true,
            ),
            config.codex_usage == configured_flag(
                lookup(configuration@, STATUS_USAGE_PROVIDER_CODEX_ENABLED_KEY@),
                true,
            ),
            config.opencode_go_usage == configured_flag(
                lookup(configuration@, STATUS_USAGE_PROVIDER_OPENCODE_GO_ENABLED_KEY@),
                true,
            ),
    {
        let default = Self::default();
        Self {
            claude_usage: bool_config(
                configuration,
                STATUS_USAGE_PROVIDER_CLAUDE_ENABLED_KEY,
                default.claude_usage,
            ),
            codex_usage: bool_config(
                configuration,
                STATUS_USAGE_PROVIDER_CODEX_ENABLED_KEY,
                default.codex_usage,
            ),
            opencode_go_usage: bool_config(
                configuration,
                STATUS_USAGE_PROVIDER_OPENCODE_GO_ENABLED_KEY,
                default.opencode_go_usage,
            ),
        }
    }
}

/// How a configured flag reads, token by token: once trimmed, `true`, `1`,
/// `yes` and `on` read as true and `false`, `0`, `no` and `off` as false,
/// whatever the default; any other value, or none, leaves the default.
pub proof fn law_flag_tokens_decide(raw: Seq<char>, default: bool)
    ensures
        trim(raw) == "true"@ || trim(raw) == "1"@ || trim(raw) == "yes"@ || trim(raw) == "on"@
            ==> configured_flag(Some(raw), default),
        trim(raw) == "false"@ || trim(raw) == "0"@ || trim(raw) == "no"@ || trim(raw) == "off"@
            ==> !configured_flag(Some(raw), default),
        !(trim(raw) == "true"@ || trim(raw) == "1"@ || trim(raw) == "yes"@ || trim(raw) == "on"@
            || trim(raw) == "false"@ || trim(raw) == "0"@ || trim(raw) == "no"@ || trim(raw)
            == "off"@) ==> configured_flag(Some(raw), default) == default,
        configured_flag(None, default) == default,
{
    reveal_strlit("true");
    reveal_strlit("1");
    reveal_strlit("yes");
    reveal_strlit("on");
    reveal_strlit("false");
    reveal_strlit("0");
    reveal_strlit("no");
    reveal_strlit("off");
    assert("no"@[0] != "on"@[0]);
    assert("no"@.len() == 2 && "on"@.len() == 2 && "0"@.len() == 1 && "1"@.len() == 1);
    assert("0"@[0] != "1"@[0]);
    assert("yes"@.len() == 3 && "off"@.len() == 3 && "yes"@[0] != "off"@[0]);
    assert("true"@.len() == 4 && "false"@.len() == 5);
}

} // verus!
