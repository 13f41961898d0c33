use vstd::prelude::*;

use crate::status_bar_tab_activity_pipe_contract::{
    blank_line_break, blank_line_breaks, blank_line_breaks_of, zjstatus_frame,
    zjstatus_pipe_payload,
};
use crate::text::{chars_of, string_from_chars};

verus! {

/// Name of the plugin message that carries the workspace label.
pub const ZJSTATUS_WORKSPACE_PIPE_MESSAGE: &'static str = "yazelix_workspace_status";

/// zjstatus pipe that shows the workspace label.
pub const ZJSTATUS_WORKSPACE_PIPE_NAME: &'static str = "pipe_workspace";

/// `content` with every run of `:` squeezed to one `:`, so that no `::`
/// is left.
pub open spec fn squeeze_colons(content: Seq<char>) -> Seq<char>
    decreases content.len(),
{
    if content.len() == 0 {
        content
    } else {
        let rest = squeeze_colons(content.drop_last());
        if content.last() == ':' && rest.len() > 0 && rest.last() == ':' {
            rest
        } else {
            rest.push(content.last())
        }
    }
}

/// The workspace label as the status bar gets it: line breaks become
/// spaces, and runs of `:` become one `:`.
pub open spec fn sanitized_workspace_label(content: Seq<char>) -> Seq<char> {
    squeeze_colons(blank_line_breaks(content))
}

/// No two neighbouring characters of `s` are both `:`.
pub open spec fn has_no_double_colon(s: Seq<char>) -> bool {
    forall|k: int| 0 <= k && k + 1 < s.len() ==> !(#[trigger] s[k] == ':' && s[k + 1] == ':')
}

/// Squeezing keeps only characters of `content`, leaves no `::`, and is
/// empty exactly when `content` is.
pub proof fn lemma_squeeze_colons(content: Seq<char>)
    ensures
        has_no_double_colon(squeeze_colons(content)),
        forall|k: int|
            0 <= k < squeeze_colons(content).len() ==> content.contains(
                #[trigger] squeeze_colons(content)[k],
            ),
        squeeze_colons(content).len() == 0 <==> content.len() == 0,
    decreases content.len(),
{
    if content.len() > 0 {
        let front = content.drop_last();
        lemma_squeeze_colons(front);
        let rest = squeeze_colons(front);
        let out = squeeze_colons(content);
        assert forall|k: int| 0 <= k < out.len() implies content.contains(#[trigger] out[k]) by {
            if k < rest.len() {
                assert(out[k] == rest[k]);
                assert(front.contains(rest[k]));
                let j = choose|j: int| 0 <= j < front.len() && front[j] == rest[k];
                assert(content[j] == front[j]);
            } else {
                assert(out[k] == content[content.len() - 1]);
            }
        }
        assert forall|k: int| 0 <= k && k + 1 < out.len() implies !(#[trigger] out[k] == ':' && out[
            k + 1
        ] == ':') by {
            if k + 1 < rest.len() {
                assert(out[k] == rest[k] && out[k + 1] == rest[k + 1]);
            } else {
                assert(out[k] == rest.last());
            }
        }
    }
}

/// The zjstatus pipe-protocol payload that carries the workspace label; the
/// label is sanitized (see `sanitized_workspace_label`): it holds no `::`,
/// no carriage return and no line feed, and it is empty exactly when the
/// label given is, so an empty label clears the widget.
pub fn workspace_pipe_protocol_payload(content: &str) -> (payload: String)
    ensures
        payload@ == zjstatus_frame(
            ZJSTATUS_WORKSPACE_PIPE_NAME@,
            sanitized_workspace_label(content@),
        ),
        has_no_double_colon(sanitized_workspace_label(content@)),
        forall|k: int|
            0 <= k < sanitized_workspace_label(content@).len() ==> #[trigger] sanitized_workspace_label(
                content@,
            )[k] != '\r' && sanitized_workspace_label(content@)[k] != '\n',
        sanitized_workspace_label(content@).len() == 0 <==> content@.len() == 0,
{
    proof {
        lemma_squeeze_colons(blank_line_breaks(content@));
        let label = sanitized_workspace_label(content@);
        let blanked = blank_line_breaks(content@);
        assert forall|k: int| 0 <= k < label.len() implies #[trigger] label[k] != '\r' && label[k]
            != '\n' by {
            assert(blanked.contains(label[k]));
            let j = choose|j: int| 0 <= j < blanked.len() && blanked[j] == label[k];
            assert(blanked[j] == blank_line_break(content@[j]));
        }
    }
    zjstatus_pipe_payload(ZJSTATUS_WORKSPACE_PIPE_NAME, sanitize_zjstatus_pipe_content(content))
}

/// `content` with every run of `:` squeezed to one `:`.
fn squeeze_colons_of(content: &[char]) -> (out: Vec<char>)
    ensures
        out@ == squeeze_colons(content@),
{
    let mut out: Vec<char> = Vec::new();
    let n = content.len();
    let mut i: usize = 0;
    while i < n
        invariant
            n == content@.len(),
            i <= n,
            out@ == squeeze_colons(content@.take(i as int)),
        decreases n - i,
    {
        assert(content@.take(i + 1).drop_last() =~= content@.take(i as int));
        let c = content[i];
        let len = out.len();
        if !(c == ':' && len > 0 && out[len - 1] == ':') {
            out.push(c);
        }
        i = i + 1;
    }
    assert(content@.take(n as int) =~= content@);
    out
}

fn sanitize_zjstatus_pipe_content(content: &str) -> (sanitized: String)
    ensures
        sanitized@ == sanitized_workspace_label(content@),
{
    let chars = chars_of(content);
    let blanked = blank_line_breaks_of(chars.as_slice());
    let squeezed = squeeze_colons_of(blanked.as_slice());
    string_from_chars(squeezed.as_slice())
}

} // verus!
