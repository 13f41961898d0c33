use std::collections::{HashMap, HashSet};
use std::path::Path;

use vstd::prelude::*;

use crate::agent_plan::PaneRef;
use crate::plugin_pipe::{
    RESULT_DENIED, RESULT_INVALID_PAYLOAD, RESULT_MISSING, RESULT_OK, RESULT_UNSUPPORTED_EDITOR,
};
use crate::tab_identity_contract::{
    active_id_of, active_tab_id, current_tab_ids, ids_of, retain_current_tab_state, TabRecord,
};
use crate::text::{chars_of, string_from_chars, trim, trim_str};
use crate::workspace_popup_contract::{
    destination_of, is_absolute_path, popup_request_json, workspace_popup_destination_id,
    workspace_popup_payload,
};

verus! {

broadcast use vstd::std_specs::hash::group_hash_axioms;

/// Where a tab's workspace root came from.
#[derive(Clone, Copy, Debug, PartialEq, Eq, Structural)]
pub enum WorkspaceStateSource {
    Bootstrap,
    Explicit,
}

/// The workspace a tab works in: its root directory and where that root came
/// from.
#[derive(Debug, PartialEq, Eq)]
pub struct WorkspaceState {
    pub root: String,
    pub source: WorkspaceStateSource,
}

impl Clone for WorkspaceState {
    fn clone(&self) -> (copy: Self)
        ensures
            copy == *self,
    {
        WorkspaceState { root: self.root.clone(), source: self.source }
    }
}

impl WorkspaceState {
    /// The workspace the plugin starts in, rooted at its initial directory.
    pub fn from_bootstrap_root(root: String) -> (state: Self)
        ensures
            state.root@ == root@,
            state.source == WorkspaceStateSource::Bootstrap,
    {
        WorkspaceState { root, source: WorkspaceStateSource::Bootstrap }
    }
}

/// The 1-based tab index that renaming a tab takes, for the tab at the
/// 0-based `tab_position`.
pub fn tab_index_from_position(tab_position: usize) -> (index: u32)
    requires
        tab_position + 1 <= u32::MAX,
    ensures
        index == tab_position + 1,
{
    (tab_position + 1) as u32
}

/// How one character of a path is written inside a double-quoted shell
/// word: `\`, `"`, `$` and `` ` `` get a backslash before them.
pub open spec fn escaped_path_char(c: char) -> Seq<char> {
    if c == '\\' || c == '"' || c == '$' || c == '`' {
        seq!['\\', c]
    } else {
        seq![c]
    }
}

/// `path` escaped for a double-quoted shell word, one character at a time.
pub open spec fn escaped_path(path: Seq<char>) -> Seq<char>
    decreases path.len(),
{
    if path.len() == 0 {
        Seq::empty()
    } else {
        escaped_path(path.drop_last()) + escaped_path_char(path.last())
    }
}

/// The shell command that changes directory to `path`.
pub open spec fn change_directory_line(path: Seq<char>) -> Seq<char> {
    seq!['c', 'd', ' ', '"'] + escaped_path(path) + seq!['"']
}

/// Appends the escaped form of `path` to `out`.
fn push_escaped_path(out: &mut Vec<char>, path: &str)
    ensures
        final(out)@ == old(out)@ + escaped_path(path@),
{
    let chars = chars_of(path);
    let n = chars.len();
    let mut i: usize = 0;
    while i < n
        invariant
            n == chars@.len(),
            chars@ == path@,
            i <= n,
            out@ == old(out)@ + escaped_path(chars@.take(i as int)),
        decreases n - i,
    {
        let c = chars[i];
        assert(chars@.take(i + 1).drop_last() =~= chars@.take(i as int));
        if c == '\\' || c == '"' || c == '$' || c == '`' {
            out.push('\\');
        }
        out.push(c);
        i = i + 1;
        assert(out@ =~= old(out)@ + escaped_path(chars@.take(i as int)));
    }
    assert(chars@.take(n as int) =~= chars@);
}

/// `path` escaped for a double-quoted shell word.
pub fn escape_double_quoted_path(path: &str) -> (escaped: String)
    ensures
        escaped@ == escaped_path(path@),
{
    let mut out: Vec<char> = Vec::new();
    push_escaped_path(&mut out, path);
    assert(out@ =~= escaped_path(path@));
    string_from_chars(&out)
}

/// `cd "<path>"`, with the path escaped for the double quotes.
pub fn change_directory_command(path: &str) -> (command: String)
    ensures
        command@ == change_directory_line(path@),
{
    let mut out: Vec<char> = Vec::new();
    out.push('c');
    out.push('d');
    out.push(' ');
    out.push('"');
    push_escaped_path(&mut out, path);
    out.push('"');
    assert(out@ =~= change_directory_line(path@));
    string_from_chars(&out)
}

/// The characters of `path` after its last `/` (all of it when it has
/// none).
pub open spec fn last_segment(path: Seq<char>) -> Seq<char>
    decreases path.len(),
{
    if path.len() == 0 || path.last() == '/' {
        Seq::empty()
    } else {
        last_segment(path.drop_last()).push(path.last())
    }
}

/// The characters of `path` before its last `/` (none when it has none).
pub open spec fn before_last_segment(path: Seq<char>) -> Seq<char>
    decreases path.len(),
{
    if path.len() == 0 {
        path
    } else if path.last() == '/' {
        path.drop_last()
    } else {
        before_last_segment(path.drop_last())
    }
}

/// `path` holds a `/`.
pub open spec fn has_separator(path: Seq<char>) -> bool {
    exists|k: int| 0 <= k < path.len() && path[k] == '/'
}

/// The final component of a `/`-separated path, as std documents
/// `Path::file_name` and `Path::components`: empty segments (repeated or
/// trailing separators) and `.` segments are skipped, and the last segment
/// left is the name, unless it is `..` or there is none.
pub open spec fn path_file_name_of(path: Seq<char>) -> Option<Seq<char>>
    decreases path.len(),
{
    let segment = last_segment(path);
    if segment.len() == 0 || segment == seq!['.'] {
        if path.len() > 0 && has_separator(path) {
            proof {
                lemma_before_last_segment_shorter(path);
            }
            path_file_name_of(before_last_segment(path))
        } else {
            None
        }
    } else if segment == seq!['.', '.'] {
        None
    } else {
        Some(segment)
    }
}

/// Dropping the last segment of a path that holds a `/` shortens it.
pub proof fn lemma_before_last_segment_shorter(path: Seq<char>)
    requires
        has_separator(path),
    ensures
        before_last_segment(path).len() < path.len(),
    decreases path.len(),
{
    if path.len() > 0 && path.last() != '/' {
        let k = choose|k: int| 0 <= k < path.len() && path[k] == '/';
        assert(path.drop_last()[k] == '/');
        lemma_before_last_segment_shorter(path.drop_last());
    }
}

/// The final component of `path`, as std's `Path::file_name` finds it,
/// given back as text. Its contract is `path_file_name_of`, which writes
/// out what std documents of `Path::file_name` and `Path::components` for
/// `/`-separated paths.
#[verifier::external_body]
fn path_file_name(path: &str) -> (name: Option<&str>)
    ensures
        match name {
            Some(n) => path_file_name_of(path@) == Some(n@),
            None => path_file_name_of(path@) is None,
        },
{
    match Path::new(path).file_name() {
        Some(name) => name.to_str(),
        None => None,
    }
}

/// `s` without its trailing `/` characters.
pub open spec fn without_trailing_separators(s: Seq<char>) -> Seq<char>
    decreases s.len(),
{
    if s.len() > 0 && s.last() == '/' {
        without_trailing_separators(s.drop_last())
    } else {
        s
    }
}

/// The path whose final component names the tab: the root without its
/// trailing separators, or the root itself when nothing else is left.
pub open spec fn tab_name_candidate(workspace_root: Seq<char>) -> Seq<char> {
    if without_trailing_separators(workspace_root).len() == 0 {
        workspace_root
    } else {
        without_trailing_separators(workspace_root)
    }
}

/// The tab name given the final component of the root: that component, or
/// `unnamed` when there is none or it is empty.
pub open spec fn tab_name_from(file_name: Option<Seq<char>>) -> Seq<char> {
    match file_name {
        Some(name) => if name.len() > 0 {
            name
        } else {
            "unnamed"@
        },
        None => "unnamed"@,
    }
}

/// The tab name for a workspace root.
pub open spec fn workspace_tab_name(workspace_root: Seq<char>) -> Seq<char> {
    tab_name_from(path_file_name_of(tab_name_candidate(workspace_root)))
}

/// The tab name for a root whose final component is `file_name`.
pub fn tab_name_from_file_name(file_name: Option<&str>) -> (name: String)
    ensures
        name@ == tab_name_from(
            match file_name {
                Some(n) => Some(n@),
                None => None,
            },
        ),
{
    match file_name {
        Some(n) => {
            if n.is_empty() {
                String::from_str("unnamed")
            } else {
                n.to_string()
            }
        },
        None => String::from_str("unnamed"),
    }
}

/// The end of `chars` once its trailing `/` characters are dropped.
fn trailing_separators_start(chars: &[char]) -> (end: usize)
    ensures
        end <= chars@.len(),
        chars@.take(end as int) == without_trailing_separators(chars@),
{
    let mut end = chars.len();
    assert(chars@.take(end as int) =~= chars@);
    while end > 0 && chars[end - 1] == '/'
        invariant
            end <= chars@.len(),
            without_trailing_separators(chars@) == without_trailing_separators(
                chars@.take(end as int),
            ),
        decreases end,
    {
        assert(chars@.take(end as int).drop_last() =~= chars@.take(end - 1));
        end = end - 1;
    }
    end
}

/// The name a tab takes after its workspace root: the final component of
/// the root (trailing separators aside), or `unnamed`.
pub fn tab_name_from_workspace_root(workspace_root: &str) -> (name: String)
    ensures
        name@ == workspace_tab_name(workspace_root@),
{
    let chars = chars_of(workspace_root);
    let end = trailing_separators_start(&chars);
    let trimmed = workspace_root.substring_char(0, end);
    let candidate = if end == 0 {
        workspace_root
    } else {
        trimmed
    };
    assert(candidate@ == tab_name_candidate(workspace_root@));
    tab_name_from_file_name(path_file_name(candidate))
}

/// A registered Yazi instance: the pane it runs in, its id, and its working
/// directory.
#[derive(Debug, PartialEq, Eq)]
pub struct YaziRegistration {
    pub pane_id: String,
    pub yazi_id: String,
    pub cwd: String,
}

/// Whether a popup Yazi registration is accepted, given its fields: pane and
/// Yazi ids not blank, and an absolute working directory, all trimmed.
pub open spec fn popup_registration_accepted(
    pane_id: Seq<char>,
    yazi_id: Seq<char>,
    cwd: Seq<char>,
) -> bool {
    trim(pane_id).len() > 0 && trim(yazi_id).len() > 0 && is_absolute_path(trim(cwd))
}

/// The popup Yazi registration made of the trimmed fields; `None` when
/// `popup_registration_accepted` refuses them.
pub fn popup_yazi_registration(pane_id: &str, yazi_id: &str, cwd: &str) -> (registration: Option<
    YaziRegistration,
>)
    ensures
        registration is Some <==> popup_registration_accepted(pane_id@, yazi_id@, cwd@),
        registration matches Some(r) ==> r.pane_id@ == trim(pane_id@) && r.yazi_id@ == trim(
            yazi_id@,
        ) && r.cwd@ == trim(cwd@),
{
    let pane_id = trim_str(pane_id);
    let yazi_id = trim_str(yazi_id);
    let cwd = trim_str(cwd);
    let cwd_chars = chars_of(cwd);
    if pane_id.is_empty() || yazi_id.is_empty() || !(cwd_chars.len() > 0 && cwd_chars[0] == '/') {
        return None;
    }
    Some(
        YaziRegistration {
            pane_id: pane_id.to_string(),
            yazi_id: yazi_id.to_string(),
            cwd: cwd.to_string(),
        },
    )
}

/// The sidebar Yazi registration that a workspace retarget carries, trimmed;
/// `None` when a field is blank or the pane is not the tab's sidebar pane.
pub fn sidebar_yazi_registration(
    pane_id: &str,
    yazi_id: &str,
    cwd: &str,
    expected_sidebar_pane_id: Option<&str>,
) -> (registration: Option<YaziRegistration>)
    ensures
        registration is Some <==> trim(pane_id@).len() > 0 && trim(yazi_id@).len() > 0 && trim(
            cwd@,
        ).len() > 0 && match expected_sidebar_pane_id {
            Some(expected) => expected@ == trim(pane_id@),
            None => false,
        },
        registration matches Some(r) ==> r.pane_id@ == trim(pane_id@) && r.yazi_id@ == trim(
            yazi_id@,
        ) && r.cwd@ == trim(cwd@),
{
    let pane_id = trim_str(pane_id);
    let yazi_id = trim_str(yazi_id);
    let cwd = trim_str(cwd);
    if pane_id.is_empty() || yazi_id.is_empty() || cwd.is_empty() {
        return None;
    }
    match expected_sidebar_pane_id {
        Some(expected) => {
            if !crate::text::str_equal(expected, pane_id) {
                return None;
            }
        },
        None => {
            return None;
        },
    }
    Some(
        YaziRegistration {
            pane_id: pane_id.to_string(),
            yazi_id: yazi_id.to_string(),
            cwd: cwd.to_string(),
        },
    )
}

/// The tab whose workspace Yazi popup runs in `pane_id`, if any.
pub fn tab_for_popup_pane(pane_id_by_tab: &HashMap<usize, String>, pane_id: &str) -> (tab_id:
    Option<usize>)
    ensures
        match tab_id {
            Some(t) => pane_id_by_tab@.contains_key(t) && pane_id_by_tab@[t]@ == pane_id@,
            None => forall|t: usize|
                #[trigger] pane_id_by_tab@.contains_key(t) ==> pane_id_by_tab@[t]@ != pane_id@,
        },
{
    let ghost map = pane_id_by_tab@;
    for key in it: pane_id_by_tab.keys()
        invariant
            pane_id_by_tab@ == map,
            forall|x: usize|
                #[trigger] map.contains_key(x) ==> map[x]@ != pane_id@ || exists|k: int|
                    it.index() <= k < it.seq().len() && *it.seq()[k] == x,
    {
        let tab = *key;
        let candidate = pane_id_by_tab.get(&tab);
        match candidate {
            Some(value) => {
                if crate::text::str_equal(value.as_str(), pane_id) {
                    return Some(tab);
                }
            },
            None => {},
        }
        proof {
            assert forall|x: usize| #[trigger] map.contains_key(x) implies map[x]@ != pane_id@
                || exists|k: int| it.index() + 1 <= k < it.seq().len() && *it.seq()[k] == x by {
                if map[x]@ == pane_id@ {
                    let k = choose|k: int| it.index() <= k < it.seq().len() && *it.seq()[k] == x;
                    assert(k != it.index());
                }
            }
        }
    }
    None
}

/// A terminal pane as the workspace popup search sees it: its pane key,
/// whether it floats, and its title.
#[derive(Debug, PartialEq, Eq)]
pub struct TerminalPaneView {
    pub pane_id: String,
    pub is_floating: bool,
    pub title: String,
}

/// The pane is a floating pane whose trimmed title is `title`.
pub open spec fn is_popup_pane(pane: TerminalPaneView, title: Seq<char>) -> bool {
    pane.is_floating && trim(pane.title@) == title
}

/// Index of the first popup pane among `panes`, or `panes.len()` when none.
pub open spec fn first_popup_pane(panes: Seq<TerminalPaneView>, title: Seq<char>) -> int
    decreases panes.len(),
{
    if panes.len() == 0 {
        0
    } else if is_popup_pane(panes[0], title) {
        0
    } else {
        1 + first_popup_pane(panes.drop_first(), title)
    }
}

/// `first_popup_pane` lies in `0..=len`, names a popup pane when below
/// `len`, and no pane before it is one.
pub proof fn lemma_first_popup_pane(panes: Seq<TerminalPaneView>, title: Seq<char>)
    ensures
        0 <= first_popup_pane(panes, title) <= panes.len(),
        first_popup_pane(panes, title) < panes.len() ==> is_popup_pane(
            panes[first_popup_pane(panes, title)],
            title,
        ),
        forall|k: int| 0 <= k < first_popup_pane(panes, title) ==> !is_popup_pane(#[trigger] panes[k], title),
    decreases panes.len(),
{
    if panes.len() > 0 && !is_popup_pane(panes[0], title) {
        lemma_first_popup_pane(panes.drop_first(), title);
        assert forall|k: int| 0 <= k < first_popup_pane(panes, title) implies !is_popup_pane(
            #[trigger] panes[k],
            title,
        ) by {
            if k > 0 {
                assert(panes[k] == panes.drop_first()[k - 1]);
            }
        }
    }
}

/// The key of the first popup pane among `panes`.
fn popup_pane_in(panes: &Vec<TerminalPaneView>, title: &str) -> (pane_id: Option<String>)
    ensures
        match pane_id {
            Some(id) => first_popup_pane(panes@, title@) < panes@.len() && id@
                == panes@[first_popup_pane(panes@, title@)].pane_id@,
            None => first_popup_pane(panes@, title@) == panes@.len(),
        },
{
    proof {
        lemma_first_popup_pane(panes@, title@);
    }
    let n = panes.len();
    let mut i: usize = 0;
    while i < n
        invariant
            n == panes@.len(),
            i <= first_popup_pane(panes@, title@) <= n,
            first_popup_pane(panes@, title@) < n ==> is_popup_pane(
                panes@[first_popup_pane(panes@, title@)],
                title@,
            ),
            forall|k: int| 0 <= k < first_popup_pane(panes@, title@) ==> !is_popup_pane(#[trigger] panes@[k], title@),
        decreases n - i,
    {
        if panes[i].is_floating && crate::text::str_equal(trim_str(panes[i].title.as_str()), title) {
            assert(is_popup_pane(panes@[i as int], title@));
            return Some(panes[i].pane_id.clone());
        }
        i = i + 1;
    }
    None
}

/// The pane of each tab's workspace Yazi popup: the first floating terminal
/// pane whose trimmed title is the expected popup title. Empty when no
/// popup title is configured.
pub fn workspace_yazi_pane_id_by_tab(
    expected_title: Option<&str>,
    panes_by_tab: &HashMap<usize, Vec<TerminalPaneView>>,
) -> (pane_id_by_tab: HashMap<usize, String>)
    ensures
        match expected_title {
            None => pane_id_by_tab@ == Map::<usize, String>::empty(),
            Some(title) => forall|t: usize|
                #[trigger] pane_id_by_tab@.contains_key(t) <==> panes_by_tab@.contains_key(t)
                    && first_popup_pane(panes_by_tab@[t]@, title@) < panes_by_tab@[t]@.len(),
        },
        match expected_title {
            None => true,
            Some(title) => forall|t: usize|
                #[trigger] pane_id_by_tab@.contains_key(t) ==> pane_id_by_tab@[t]@
                    == panes_by_tab@[t]@[first_popup_pane(panes_by_tab@[t]@, title@)].pane_id@,
        },
{
    let mut found: HashMap<usize, String> = HashMap::new();
    let title = match expected_title {
        Some(title) => title,
        None => {
            assert(found@ =~= Map::<usize, String>::empty());
            return found;
        },
    };
    let ids = crate::ai_activity_store::tab_ids_of(panes_by_tab);
    let n = ids.len();
    let mut i: usize = 0;
    while i < n
        invariant
            n == ids@.len(),
            i <= n,
            forall|t: usize| #[trigger] panes_by_tab@.contains_key(t) ==> ids@.contains(t),
            forall|t: usize|
                #[trigger] found@.contains_key(t) <==> panes_by_tab@.contains_key(t) && first_popup_pane(
                    panes_by_tab@[t]@,
                    title@,
                ) < panes_by_tab@[t]@.len() && ids@.take(i as int).contains(t),
            forall|t: usize|
                #[trigger] found@.contains_key(t) ==> found@[t]@
                    == panes_by_tab@[t]@[first_popup_pane(panes_by_tab@[t]@, title@)].pane_id@,
        decreases n - i,
    {
        let t = ids[i];
        match panes_by_tab.get(&t) {
            Some(panes) => match popup_pane_in(panes, title) {
                Some(pane_id) => {
                    found.insert(t, pane_id);
                },
                None => {},
            },
            None => {},
        }
        proof {
            let done = ids@.take(i as int);
            let next = ids@.take(i + 1);
            assert(next[i as int] == t);
            assert forall|x: usize| #[trigger] next.contains(x) <==> done.contains(x) || x == t by {
                if next.contains(x) && x != t {
                    let k = choose|k: int| 0 <= k < next.len() && next[k] == x;
                    assert(done[k] == x);
                }
                if done.contains(x) {
                    let k = choose|k: int| 0 <= k < done.len() && done[k] == x;
                    assert(next[k] == x);
                }
            }
        }
        i = i + 1;
    }
    assert(ids@.take(n as int) =~= ids@);
    found
}

/// Keeps the popup Yazi registrations whose pane is still the workspace
/// popup of their tab.
pub fn retain_live_popup_yazi(
    states: &mut HashMap<usize, YaziRegistration>,
    pane_id_by_tab: &HashMap<usize, String>,
)
    ensures
        final(states)@ == old(states)@.restrict(
            Set::new(
                |t: usize|
                    pane_id_by_tab@.contains_key(t) && old(states)@.contains_key(t)
                        && pane_id_by_tab@[t]@ == old(states)@[t].pane_id@,
            ),
        ),
{
    let live = Ghost(
        Set::new(
            |t: usize|
                pane_id_by_tab@.contains_key(t) && old(states)@.contains_key(t)
                    && pane_id_by_tab@[t]@ == old(states)@[t].pane_id@,
        ),
    );
    let ids = crate::ai_activity_store::tab_ids_of(states);
    let ghost before = states@;
    let n = ids.len();
    let mut i: usize = 0;
    while i < n
        invariant
            n == ids@.len(),
            i <= n,
            before == old(states)@,
            live@ == Set::new(
                |t: usize|
                    pane_id_by_tab@.contains_key(t) && before.contains_key(t)
                        && pane_id_by_tab@[t]@ == before[t].pane_id@,
            ),
            forall|t: usize| #[trigger] before.contains_key(t) ==> ids@.contains(t),
            forall|t: usize|
                #[trigger] states@.contains_key(t) <==> before.contains_key(t) && (live@.contains(t)
                    || !ids@.take(i as int).contains(t)),
            forall|t: usize| #[trigger] states@.contains_key(t) ==> states@[t] == before[t],
        decreases n - i,
    {
        let t = ids[i];
        let keep = match states.get(&t) {
            Some(state) => match pane_id_by_tab.get(&t) {
                Some(pane_id) => crate::text::str_equal(pane_id.as_str(), state.pane_id.as_str()),
                None => false,
            },
            None => true,
        };
        if !keep {
            states.remove(&t);
        }
        proof {
            let done = ids@.take(i as int);
            let next = ids@.take(i + 1);
            assert(next[i as int] == t);
            assert forall|x: usize| #[trigger] next.contains(x) <==> done.contains(x) || x == t by {
                if next.contains(x) && x != t {
                    let k = choose|k: int| 0 <= k < next.len() && next[k] == x;
                    assert(done[k] == x);
                }
                if done.contains(x) {
                    let k = choose|k: int| 0 <= k < done.len() && done[k] == x;
                    assert(next[k] == x);
                }
            }
        }
        i = i + 1;
    }
    assert(ids@.take(n as int) =~= ids@);
    assert(states@ =~= old(states)@.restrict(live@));
}

/// The popup Yazi registration of a pipe message, and the tab whose popup
/// runs in its pane: `RESULT_DENIED` without permissions,
/// `RESULT_INVALID_PAYLOAD` for a refused registration, `RESULT_MISSING`
/// when no tab's popup runs in the pane.
pub fn plan_popup_yazi_registration(
    permissions_granted: bool,
    pane_id: &str,
    yazi_id: &str,
    cwd: &str,
    pane_id_by_tab: &HashMap<usize, String>,
) -> (plan: Result<(usize, YaziRegistration), &'static str>)
    ensures
        !permissions_granted ==> plan == Err::<(usize, YaziRegistration), &'static str>(
            RESULT_DENIED,
        ),
        permissions_granted && !popup_registration_accepted(pane_id@, yazi_id@, cwd@) ==> plan
            == Err::<(usize, YaziRegistration), &'static str>(RESULT_INVALID_PAYLOAD),
        permissions_granted && popup_registration_accepted(pane_id@, yazi_id@, cwd@) ==> {
            &&& (plan is Err <==> forall|t: usize|
                #[trigger] pane_id_by_tab@.contains_key(t) ==> pane_id_by_tab@[t]@ != trim(
                    pane_id@,
                ))
            &&& plan matches Err(e) ==> e == RESULT_MISSING
            &&& plan matches Ok((tab_id, r)) ==> pane_id_by_tab@.contains_key(tab_id)
                && pane_id_by_tab@[tab_id]@ == trim(pane_id@) && r.pane_id@ == trim(pane_id@)
                && r.yazi_id@ == trim(yazi_id@) && r.cwd@ == trim(cwd@)
        },
{
    if !permissions_granted {
        return Err(RESULT_DENIED);
    }
    let registration = match popup_yazi_registration(pane_id, yazi_id, cwd) {
        Some(registration) => registration,
        None => {
            return Err(RESULT_INVALID_PAYLOAD);
        },
    };
    match tab_for_popup_pane(pane_id_by_tab, registration.pane_id.as_str()) {
        Some(tab_id) => Ok((tab_id, registration)),
        None => Err(RESULT_MISSING),
    }
}

/// The message that asks the workspace popup to run `action`: its plugin
/// id and its JSON payload. `RESULT_MISSING` without a workspace root, a
/// popup plugin URL or a loaded popup; `RESULT_INVALID_PAYLOAD` without a
/// popup id or when the payload cannot be built.
pub fn plan_workspace_popup_message(
    workspace_root: Option<&str>,
    popup_id: Option<&str>,
    plugin_url: Option<&str>,
    panes: &[(u32, bool, Option<&str>)],
) -> (message: Result<(u32, String), &'static str>)
    ensures
        match (workspace_root, popup_id) {
            (None, _) => message == Err::<(u32, String), &'static str>(RESULT_MISSING),
            (Some(_), None) => message == Err::<(u32, String), &'static str>(RESULT_INVALID_PAYLOAD),
            (Some(root), Some(id)) => if !(trim(id@).len() > 0 && is_absolute_path(trim(root@))) {
                message == Err::<(u32, String), &'static str>(RESULT_INVALID_PAYLOAD)
            } else {
                match plugin_url {
                    None => message == Err::<(u32, String), &'static str>(RESULT_MISSING),
                    Some(url) => match destination_of(panes@, trim(url@)) {
                        None => message == Err::<(u32, String), &'static str>(RESULT_MISSING),
                        Some(destination) => message matches Ok((d, payload)) && d == destination
                            && payload@ == popup_request_json(trim(id@), trim(root@)),
                    },
                }
            },
        },
{
    let root = match workspace_root {
        Some(root) => root,
        None => {
            return Err(RESULT_MISSING);
        },
    };
    let id = match popup_id {
        Some(id) => id,
        None => {
            return Err(RESULT_INVALID_PAYLOAD);
        },
    };
    let payload = match workspace_popup_payload(id, root) {
        Some(payload) => payload,
        None => {
            return Err(RESULT_INVALID_PAYLOAD);
        },
    };
    let url = match plugin_url {
        Some(url) => url,
        None => {
            return Err(RESULT_MISSING);
        },
    };
    match workspace_popup_destination_id(url, panes) {
        Some(destination) => Ok((destination, payload)),
        None => Err(RESULT_MISSING),
    }
}

/// Editor status of a retarget that names no editor.
pub const EDITOR_RETARGET_SKIPPED: &'static str = "skipped";

/// What a retarget does in the tab's managed editor.
#[derive(Debug, PartialEq, Eq)]
pub enum EditorRetarget {
    /// No editor was named.
    Skipped,
    /// The named editor has no directory-change command.
    Unsupported,
    /// The tab has no managed editor pane.
    Missing,
    /// Send `command` to the editor pane.
    ChangeDirectory { pane: PaneRef, command: String },
}

/// What a retarget does in the editor: nothing when no editor (or a blank
/// one) is named; else `Unsupported` when the named editor has no
/// directory-change command (`editor_command`, the command that editor
/// would take for the new root), `Missing` when the tab has no editor
/// pane, and otherwise send the command to that pane.
pub fn plan_editor_retarget(
    editor: Option<&str>,
    editor_command: Option<String>,
    editor_pane: Option<PaneRef>,
) -> (plan: EditorRetarget)
    ensures
        match editor {
            None => plan == EditorRetarget::Skipped,
            Some(name) => if trim(name@).len() == 0 {
                plan == EditorRetarget::Skipped
            } else {
                match editor_command {
                    None => plan == EditorRetarget::Unsupported,
                    Some(command) => match editor_pane {
                        None => plan == EditorRetarget::Missing,
                        Some(pane) => plan == EditorRetarget::ChangeDirectory { pane, command },
                    },
                }
            },
        },
{
    let name = match editor {
        Some(name) => name,
        None => {
            return EditorRetarget::Skipped;
        },
    };
    if trim_str(name).is_empty() {
        return EditorRetarget::Skipped;
    }
    let command = match editor_command {
        Some(command) => command,
        None => {
            return EditorRetarget::Unsupported;
        },
    };
    match editor_pane {
        Some(pane) => EditorRetarget::ChangeDirectory { pane, command },
        None => EditorRetarget::Missing,
    }
}

/// The editor status a retarget answers with.
pub open spec fn editor_retarget_status(plan: EditorRetarget) -> &'static str {
    match plan {
        EditorRetarget::Skipped => EDITOR_RETARGET_SKIPPED,
        EditorRetarget::Unsupported => RESULT_UNSUPPORTED_EDITOR,
        EditorRetarget::Missing => RESULT_MISSING,
        EditorRetarget::ChangeDirectory { .. } => RESULT_OK,
    }
}

/// The answer to a workspace retarget: its status, the editor status, and
/// the Yazi instance registered in the tab's sidebar, if any.
#[derive(Debug, PartialEq, Eq)]
pub struct WorkspaceRetargetAnswer {
    pub status: &'static str,
    pub editor_status: &'static str,
    pub sidebar_yazi_id: Option<String>,
    pub sidebar_yazi_cwd: Option<String>,
}

/// The answer to a retarget that went through: status `RESULT_OK`, the
/// editor status of `editor`, and the id and directory of the sidebar's
/// Yazi instance.
pub fn retarget_answer(editor: &EditorRetarget, sidebar_yazi: Option<&YaziRegistration>) -> (answer:
    WorkspaceRetargetAnswer)
    ensures
        answer.status == RESULT_OK,
        answer.editor_status == editor_retarget_status(*editor),
        match sidebar_yazi {
            Some(r) => answer.sidebar_yazi_id == Some(r.yazi_id) && answer.sidebar_yazi_cwd
                == Some(r.cwd),
            None => answer.sidebar_yazi_id is None && answer.sidebar_yazi_cwd is None,
        },
{
    let editor_status = match editor {
        EditorRetarget::Skipped => EDITOR_RETARGET_SKIPPED,
        EditorRetarget::Unsupported => RESULT_UNSUPPORTED_EDITOR,
        EditorRetarget::Missing => RESULT_MISSING,
        EditorRetarget::ChangeDirectory { .. } => RESULT_OK,
    };
    let (sidebar_yazi_id, sidebar_yazi_cwd) = match sidebar_yazi {
        Some(r) => (Some(r.yazi_id.clone()), Some(r.cwd.clone())),
        None => (None, None),
    };
    WorkspaceRetargetAnswer { status: RESULT_OK, editor_status, sidebar_yazi_id, sidebar_yazi_cwd }
}

/// What a workspace retarget does to the active tab: the workspace it now
/// works in, and the index and name the tab is renamed to.
#[derive(Debug, PartialEq, Eq)]
pub struct WorkspaceRetarget {
    pub state: WorkspaceState,
    pub tab_index: u32,
    pub tab_name: String,
}

/// The retarget of the tab at `active_tab_position` to `workspace_root`: the
/// root trimmed, the source `Explicit` unless the request names one.
/// `RESULT_INVALID_PAYLOAD` for a blank root.
pub fn plan_workspace_retarget(
    active_tab_position: usize,
    workspace_root: &str,
    source: Option<WorkspaceStateSource>,
) -> (retarget: Result<WorkspaceRetarget, &'static str>)
    requires
        active_tab_position + 1 <= u32::MAX,
    ensures
        retarget is Err <==> trim(workspace_root@).len() == 0,
        retarget matches Err(e) ==> e == RESULT_INVALID_PAYLOAD,
        retarget matches Ok(r) ==> {
            &&& r.state.root@ == trim(workspace_root@)
            &&& r.state.source == match source {
                Some(s) => s,
                None => WorkspaceStateSource::Explicit,
            }
            &&& r.tab_index == active_tab_position + 1
            &&& r.tab_name@ == workspace_tab_name(trim(workspace_root@))
        },
{
    let root = trim_str(workspace_root);
    if root.is_empty() {
        return Err(RESULT_INVALID_PAYLOAD);
    }
    let source = match source {
        Some(s) => s,
        None => WorkspaceStateSource::Explicit,
    };
    let tab_name = tab_name_from_workspace_root(root);
    Ok(
        WorkspaceRetarget {
            state: WorkspaceState { root: root.to_string(), source },
            tab_index: tab_index_from_position(active_tab_position),
            tab_name,
        },
    )
}

/// The workspace of each tab after a tab update: the states of closed tabs
/// are dropped, and the active tab, when it has none, takes the initial
/// workspace if it is new or if no tab has a workspace left.
pub open spec fn reconciled_workspaces(
    state_by_tab: Map<usize, WorkspaceState>,
    seen_tab_ids: Set<usize>,
    initial: Option<WorkspaceState>,
    tabs: Seq<TabRecord>,
) -> Map<usize, WorkspaceState> {
    let kept = state_by_tab.restrict(ids_of(tabs));
    match active_id_of(tabs) {
        Some(active) => if !kept.contains_key(active) && initial is Some && (!seen_tab_ids.contains(
            active,
        ) || kept.len() == 0) {
            kept.insert(active, initial->0)
        } else {
            kept
        },
        None => kept,
    }
}

/// The workspace a tab works in: its own, or else the initial one.
pub open spec fn tab_workspace(
    state_by_tab: Map<usize, WorkspaceState>,
    initial: Option<WorkspaceState>,
    tab_id: usize,
) -> Option<WorkspaceState> {
    if state_by_tab.contains_key(tab_id) {
        Some(state_by_tab[tab_id])
    } else {
        initial
    }
}

/// A tab update keeps the workspace of every surviving tab as it was, keeps
/// none for a closed tab, and gives a new active tab a workspace of its own
/// whenever the plugin has an initial one.
pub proof fn law_reconcile_keeps_surviving_workspaces(
    state_by_tab: Map<usize, WorkspaceState>,
    seen_tab_ids: Set<usize>,
    initial: Option<WorkspaceState>,
    tabs: Seq<TabRecord>,
)
    ensures
        forall|t: usize|
            ids_of(tabs).contains(t) && state_by_tab.contains_key(t) ==> #[trigger] reconciled_workspaces(
                state_by_tab,
                seen_tab_ids,
                initial,
                tabs,
            ).contains_key(t) && reconciled_workspaces(state_by_tab, seen_tab_ids, initial, tabs)[t]
                == state_by_tab[t],
        forall|t: usize|
            #[trigger] reconciled_workspaces(state_by_tab, seen_tab_ids, initial, tabs).contains_key(
                t,
            ) ==> ids_of(tabs).contains(t),
        match active_id_of(tabs) {
            Some(active) => initial is Some && !seen_tab_ids.contains(active) ==> reconciled_workspaces(
                state_by_tab,
                seen_tab_ids,
                initial,
                tabs,
            ).contains_key(active),
            None => true,
        },
{
    crate::tab_identity_contract::lemma_first_active(tabs);
    if let Some(active) = active_id_of(tabs) {
        let k = crate::tab_identity_contract::first_active(tabs);
        assert(tabs[k].tab_id == active);
        assert(ids_of(tabs).contains(active));
    }
}

/// Reading a tab's workspace after pointing the tab at a workspace gives
/// that workspace back.
pub proof fn law_retarget_then_read(
    state_by_tab: Map<usize, WorkspaceState>,
    initial: Option<WorkspaceState>,
    tab_id: usize,
    state: WorkspaceState,
)
    ensures
        tab_workspace(state_by_tab.insert(tab_id, state), initial, tab_id) == Some(state),
{
}

/// The workspace of each tab, the tabs seen so far, the workspace the
/// plugin started in, the tabs whose zoxide picker waits for its popup, and
/// the Yazi instance registered in each tab's workspace popup.
pub struct WorkspaceTabs {
    pub state_by_tab: HashMap<usize, WorkspaceState>,
    pub seen_tab_ids: HashSet<usize>,
    pub initial: Option<WorkspaceState>,
    pub pending_zoxide_picker: HashSet<usize>,
    pub popup_yazi_by_tab: HashMap<usize, YaziRegistration>,
}

impl WorkspaceTabs {
    /// No tab known yet; new tabs start in `initial`.
    pub fn new(initial: Option<WorkspaceState>) -> (tabs: Self)
        ensures
            tabs.state_by_tab@ == Map::<usize, WorkspaceState>::empty(),
            tabs.seen_tab_ids@ == Set::<usize>::empty(),
            tabs.initial == initial,
            tabs.pending_zoxide_picker@ == Set::<usize>::empty(),
            tabs.popup_yazi_by_tab@ == Map::<usize, YaziRegistration>::empty(),
    {
        WorkspaceTabs {
            state_by_tab: HashMap::new(),
            seen_tab_ids: HashSet::new(),
            initial,
            pending_zoxide_picker: HashSet::new(),
            popup_yazi_by_tab: HashMap::new(),
        }
    }

    /// Brings the workspaces in line with a tab update (see
    /// `reconciled_workspaces`); the tabs of the update become the seen tabs.
    pub fn reconcile(&mut self, tabs: &[TabRecord])
        ensures
            final(self).state_by_tab@ == reconciled_workspaces(
                old(self).state_by_tab@,
                old(self).seen_tab_ids@,
                old(self).initial,
                tabs@,
            ),
            final(self).seen_tab_ids@ == ids_of(tabs@),
            final(self).initial == old(self).initial,
            final(self).pending_zoxide_picker@ == old(self).pending_zoxide_picker@,
            final(self).popup_yazi_by_tab@ == old(self).popup_yazi_by_tab@,
    {
        let ids = current_tab_ids(tabs);
        retain_current_tab_state(&mut self.state_by_tab, &ids);
        if let Some(active) = active_tab_id(tabs) {
            if !self.state_by_tab.contains_key(&active) {
                let is_new_tab = !self.seen_tab_ids.contains(&active);
                let inherit = is_new_tab || self.state_by_tab.is_empty();
                if inherit {
                    match &self.initial {
                        Some(initial) => {
                            let state = initial.clone();
                            self.state_by_tab.insert(active, state);
                        },
                        None => {},
                    }
                }
            }
        }
        self.seen_tab_ids = ids;
    }

    /// The workspace of a tab: its own, or else the initial one.
    pub fn state_for_tab(&self, tab_id: usize) -> (state: Option<WorkspaceState>)
        ensures
            state == tab_workspace(self.state_by_tab@, self.initial, tab_id),
    {
        match self.state_by_tab.get(&tab_id) {
            Some(state) => Some(state.clone()),
            None => match &self.initial {
                Some(initial) => Some(initial.clone()),
                None => None,
            },
        }
    }

    /// The workspace root of a tab: its own, or else the initial one.
    pub fn root_for_tab(&self, tab_id: usize) -> (root: Option<&str>)
        ensures
            match tab_workspace(self.state_by_tab@, self.initial, tab_id) {
                Some(state) => root matches Some(r) && r@ == state.root@,
                None => root is None,
            },
    {
        match self.state_by_tab.get(&tab_id) {
            Some(state) => Some(state.root.as_str()),
            None => match &self.initial {
                Some(initial) => Some(initial.root.as_str()),
                None => None,
            },
        }
    }

    /// Points a tab at a new workspace; a zoxide picker that waited for the
    /// tab's popup is dropped.
    pub fn retarget(&mut self, tab_id: usize, state: WorkspaceState)
        ensures
            final(self).state_by_tab@ == old(self).state_by_tab@.insert(tab_id, state),
            final(self).pending_zoxide_picker@ == old(self).pending_zoxide_picker@.remove(tab_id),
            !final(self).pending_zoxide_picker@.contains(tab_id),
            final(self).seen_tab_ids@ == old(self).seen_tab_ids@,
            final(self).initial == old(self).initial,
            final(self).popup_yazi_by_tab@ == old(self).popup_yazi_by_tab@,
    {
        self.state_by_tab.insert(tab_id, state);
        self.pending_zoxide_picker.remove(&tab_id);
    }

    /// Marks the zoxide picker of a tab as waiting for the tab's popup.
    pub fn request_zoxide_picker(&mut self, tab_id: usize)
        ensures
            final(self).pending_zoxide_picker@ == old(self).pending_zoxide_picker@.insert(tab_id),
            final(self).state_by_tab@ == old(self).state_by_tab@,
            final(self).seen_tab_ids@ == old(self).seen_tab_ids@,
            final(self).initial == old(self).initial,
            final(self).popup_yazi_by_tab@ == old(self).popup_yazi_by_tab@,
    {
        self.pending_zoxide_picker.insert(tab_id);
    }

    /// Takes the waiting zoxide picker of a tab: tells whether one waited,
    /// and leaves none waiting.
    pub fn take_zoxide_picker(&mut self, tab_id: usize) -> (was_pending: bool)
        ensures
            was_pending == old(self).pending_zoxide_picker@.contains(tab_id),
            final(self).pending_zoxide_picker@ == old(self).pending_zoxide_picker@.remove(tab_id),
            final(self).state_by_tab@ == old(self).state_by_tab@,
            final(self).seen_tab_ids@ == old(self).seen_tab_ids@,
            final(self).initial == old(self).initial,
            final(self).popup_yazi_by_tab@ == old(self).popup_yazi_by_tab@,
    {
        self.pending_zoxide_picker.remove(&tab_id)
    }

    /// Records the Yazi instance that runs in a tab's workspace popup.
    pub fn register_popup_yazi(&mut self, tab_id: usize, registration: YaziRegistration)
        ensures
            final(self).popup_yazi_by_tab@ == old(self).popup_yazi_by_tab@.insert(
                tab_id,
                registration,
            ),
            final(self).state_by_tab@ == old(self).state_by_tab@,
            final(self).seen_tab_ids@ == old(self).seen_tab_ids@,
            final(self).initial == old(self).initial,
            final(self).pending_zoxide_picker@ == old(self).pending_zoxide_picker@,
    {
        self.popup_yazi_by_tab.insert(tab_id, registration);
    }

    /// The Yazi instance registered in a tab's workspace popup, if any.
    pub fn popup_yazi_for_tab(&self, tab_id: usize) -> (registration: Option<&YaziRegistration>)
        ensures
            match registration {
                Some(r) => self.popup_yazi_by_tab@.contains_key(tab_id) && *r
                    == self.popup_yazi_by_tab@[tab_id],
                None => !self.popup_yazi_by_tab@.contains_key(tab_id),
            },
    {
        self.popup_yazi_by_tab.get(&tab_id)
    }

    /// Keeps the popup registrations whose pane is still the workspace popup
    /// of their tab (see `retain_live_popup_yazi`).
    pub fn retain_live_popups(&mut self, pane_id_by_tab: &HashMap<usize, String>)
        ensures
            final(self).popup_yazi_by_tab@ == old(self).popup_yazi_by_tab@.restrict(
                Set::new(
                    |t: usize|
                        pane_id_by_tab@.contains_key(t) && old(self).popup_yazi_by_tab@.contains_key(t)
                            && pane_id_by_tab@[t]@ == old(self).popup_yazi_by_tab@[t].pane_id@,
                ),
            ),
            final(self).state_by_tab@ == old(self).state_by_tab@,
            final(self).seen_tab_ids@ == old(self).seen_tab_ids@,
            final(self).initial == old(self).initial,
            final(self).pending_zoxide_picker@ == old(self).pending_zoxide_picker@,
    {
        retain_live_popup_yazi(&mut self.popup_yazi_by_tab, pane_id_by_tab);
    }
}

} // verus!
