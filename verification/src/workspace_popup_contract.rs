use vstd::prelude::*;

use crate::text::{chars_of, str_equal, trim, trim_str};

verus! {

/// serde_json's error type.
#[verifier::external_type_specification]
#[verifier::external_body]
pub struct ExSerdeJsonError(serde_json::Error);

/// A lowercase hexadecimal digit.
pub open spec fn lower_hex_digit(n: int) -> char {
    if n < 10 {
        (('0' as int) + n) as char
    } else {
        (('a' as int) + n - 10) as char
    }
}

/// How serde_json writes one character inside a JSON string: `"` and `\`
/// and the control characters below U+0020 are escaped (`\b`, `\t`, `\n`,
/// `\f`, `\r` by name, the others as `\u00xx`); every other character is
/// written as it is.
pub open spec fn json_escaped_char(c: char) -> Seq<char> {
    let u = c as int;
    if c == '"' {
        seq!['\\', '"']
    } else if c == '\\' {
        seq!['\\', '\\']
    } else if u == 0x08 {
        seq!['\\', 'b']
    } else if u == 0x09 {
        seq!['\\', 't']
    } else if u == 0x0a {
        seq!['\\', 'n']
    } else if u == 0x0c {
        seq!['\\', 'f']
    } else if u == 0x0d {
        seq!['\\', 'r']
    } else if u < 0x20 {
        seq!['\\', 'u', '0', '0', lower_hex_digit(u / 16), lower_hex_digit(u % 16)]
    } else {
        seq![c]
    }
}

/// The characters of `s`, each written as serde_json writes it in a string.
pub open spec fn json_escaped(s: Seq<char>) -> Seq<char>
    decreases s.len(),
{
    if s.len() == 0 {
        Seq::empty()
    } else {
        json_escaped(s.drop_last()) + json_escaped_char(s.last())
    }
}

/// `s` as a JSON string literal, quotes included, as serde_json writes it.
pub open spec fn json_string_literal(s: Seq<char>) -> Seq<char> {
    seq!['"'] + json_escaped(s) + seq!['"']
}

/// Writes `s` as a JSON string literal with `serde_json::to_string`.
///
/// Trusted: the contract claims that serde_json's `to_string` on a `str`
/// succeeds and writes the string in quotes, escaping `"`, `\` and the
/// control characters below U+0020 as its `ESCAPE` table and
/// `write_char_escape` do, and leaving every other character as it is.
#[verifier::external_body]
fn json_string(s: &str) -> (literal: Result<String, serde_json::Error>)
    ensures
        literal is Ok,
        literal->Ok_0@ == json_string_literal(s@),
{
    serde_json::to_string(s)
}

/// A path is absolute when it starts at the root: `/` first (the Unix and
/// WASI rule of `Path::is_absolute`).
pub open spec fn is_absolute_path(path: Seq<char>) -> bool {
    path.len() > 0 && path[0] == '/'
}

/// The JSON object `{"id":…,"cwd":…}` as serde_json writes it for the popup
/// request.
pub open spec fn popup_request_json(popup_id: Seq<char>, cwd: Seq<char>) -> Seq<char> {
    "{\"id\":"@ + json_string_literal(popup_id) + ",\"cwd\":"@ + json_string_literal(cwd) + "}"@
}

/// The payload of a workspace popup request: the trimmed popup id and the
/// trimmed workspace root as JSON. `None` for a blank popup id or a root that
/// is not absolute.
pub fn workspace_popup_payload(popup_id: &str, workspace_root: &str) -> (payload: Option<String>)
    ensures
        match payload {
            Some(p) => trim(popup_id@).len() > 0 && is_absolute_path(trim(workspace_root@)) && p@
                == popup_request_json(trim(popup_id@), trim(workspace_root@)),
            None => !(trim(popup_id@).len() > 0 && is_absolute_path(trim(workspace_root@))),
        },
{
    let popup_id = trim_str(popup_id);
    let workspace_root = trim_str(workspace_root);
    let root_chars = chars_of(workspace_root);
    if popup_id.is_empty() || !(root_chars.len() > 0 && root_chars[0] == '/') {
        return None;
    }
    let id_literal = match json_string(popup_id) {
        Ok(text) => text,
        Err(_) => {
            return None;
        },
    };
    let cwd_literal = match json_string(workspace_root) {
        Ok(text) => text,
        Err(_) => {
            return None;
        },
    };
    let mut payload = String::from_str("{\"id\":");
    payload.append(id_literal.as_str());
    payload.append(",\"cwd\":");
    payload.append(cwd_literal.as_str());
    payload.append("}");
    Some(payload)
}

/// One pane as the popup search sees it: plugin id, whether it exited, and
/// the URL of the plugin it runs.
pub open spec fn pane_runs_url(pane: (u32, bool, Option<&str>), url: Seq<char>) -> bool {
    !pane.1 && match pane.2 {
        Some(u) => u@ == url,
        None => false,
    }
}

/// Index of the first live pane that runs `url`, or `panes.len()` when none.
pub open spec fn first_pane_running(panes: Seq<(u32, bool, Option<&str>)>, url: Seq<char>) -> int
    decreases panes.len(),
{
    if panes.len() == 0 {
        0
    } else if pane_runs_url(panes[0], url) {
        0
    } else {
        1 + first_pane_running(panes.drop_first(), url)
    }
}

/// `first_pane_running` lies in `0..=len`, names a pane that runs the URL
/// when below `len`, and no pane before it runs it.
pub proof fn lemma_first_pane_running(panes: Seq<(u32, bool, Option<&str>)>, url: Seq<char>)
    ensures
        0 <= first_pane_running(panes, url) <= panes.len(),
        first_pane_running(panes, url) < panes.len() ==> pane_runs_url(
            panes[first_pane_running(panes, url)],
            url,
        ),
        forall|k: int|
            0 <= k < first_pane_running(panes, url) ==> !pane_runs_url(#[trigger] panes[k], url),
    decreases panes.len(),
{
    if panes.len() > 0 && !pane_runs_url(panes[0], url) {
        lemma_first_pane_running(panes.drop_first(), url);
        assert forall|k: int| 0 <= k < first_pane_running(panes, url) implies !pane_runs_url(
            #[trigger] panes[k],
            url,
        ) by {
            if k > 0 {
                assert(panes[k] == panes.drop_first()[k - 1]);
            }
        }
    }
}

/// The plugin id of the first live pane that runs `url`, when `url` is not
/// blank.
pub open spec fn destination_of(panes: Seq<(u32, bool, Option<&str>)>, url: Seq<char>) -> Option<u32> {
    if url.len() > 0 && first_pane_running(panes, url) < panes.len() {
        Some(panes[first_pane_running(panes, url)].0)
    } else {
        None
    }
}

/// The plugin id of the loaded popup: the first live pane whose plugin URL
/// is the trimmed expected URL. `None` for a blank URL or when no such pane
/// is loaded.
pub fn workspace_popup_destination_id(
    expected_plugin_url: &str,
    panes: &[(u32, bool, Option<&str>)],
) -> (id: Option<u32>)
    ensures
        id == destination_of(panes@, trim(expected_plugin_url@)),
{
    let expected = trim_str(expected_plugin_url);
    let ghost url = trim(expected_plugin_url@);
    if expected.is_empty() {
        return None;
    }
    proof {
        lemma_first_pane_running(panes@, url);
    }
    let n = panes.len();
    let mut i: usize = 0;
    while i < n
        invariant
            n == panes@.len(),
            expected@ == url,
            url == trim(expected_plugin_url@),
            url.len() > 0,
            i <= first_pane_running(panes@, url) <= n,
            first_pane_running(panes@, url) < n ==> pane_runs_url(
                panes@[first_pane_running(panes@, url)],
                url,
            ),
            forall|k: int| 0 <= k < first_pane_running(panes@, url) ==> !pane_runs_url(#[trigger] panes@[k], url),
        decreases n - i,
    {
        let pane = panes[i];
        if !pane.1 {
            if let Some(u) = pane.2 {
                if str_equal(u, expected) {
                    assert(pane_runs_url(panes@[i as int], url));
                    assert(i as int == first_pane_running(panes@, url));
                    return Some(pane.0);
                }
            }
        }
        assert(!pane_runs_url(panes@[i as int], url));
        i = i + 1;
    }
    None
}

/// The popup action that shows the workspace picker: focus a live popup,
/// toggle one into being otherwise.
pub fn workspace_popup_show_action(popup_exists: bool) -> (action: &'static str)
    ensures
        action@ == if popup_exists {
            "focus"@
        } else {
            "toggle"@
        },
{
    if popup_exists {
        "focus"
    } else {
        "toggle"
    }
}

/// The arguments of `yazi emit-to`: `emit-to`, the trimmed receiver, the
/// trimmed event name, then the event arguments as given. `None` when the
/// receiver or the name is blank.
pub fn yazi_emit_to_args(receiver: &str, name: &str, args: &[&str]) -> (command: Option<Vec<String>>)
    ensures
        match command {
            Some(c) => trim(receiver@).len() > 0 && trim(name@).len() > 0 && c@.len() == args@.len()
                + 3 && c@[0]@ == "emit-to"@ && c@[1]@ == trim(receiver@) && c@[2]@ == trim(name@)
                && forall|i: int| 0 <= i < args@.len() ==> #[trigger] c@[i + 3]@ == args@[i]@,
            None => trim(receiver@).len() == 0 || trim(name@).len() == 0,
        },
{
    let receiver = trim_str(receiver);
    let name = trim_str(name);
    if receiver.is_empty() || name.is_empty() {
        return None;
    }
    let mut command: Vec<String> = Vec::new();
    command.push("emit-to".to_string());
    command.push(receiver.to_string());
    command.push(name.to_string());
    let n = args.len();
    let mut i: usize = 0;
    while i < n
        invariant
            n == args@.len(),
            i <= n,
            command@.len() == i + 3,
            command@[0]@ == "emit-to"@,
            command@[1]@ == receiver@,
            command@[2]@ == name@,
            forall|k: int| 0 <= k < i ==> #[trigger] command@[k + 3]@ == args@[k]@,
        decreases n - i,
    {
        command.push(args[i].to_string());
        i = i + 1;
    }
    Some(command)
}

} // verus!
