use vstd::prelude::*;

use crate::text::{chars_of, string_from_chars};

verus! {

/// Name of the plugin message that carries tab-activity snapshots.
pub const ZJSTATUS_TAB_ACTIVITY_PIPE_MESSAGE: &'static str = "yazelix_tab_activity";

/// zjstatus pipe that shows tab activity.
pub const ZJSTATUS_TAB_ACTIVITY_PIPE_NAME: &'static str = "pipe_tab_activity";

/// `c` with a carriage return or line feed turned into a space.
pub open spec fn blank_line_break(c: char) -> char {
    if c == '\r' || c == '\n' {
        ' '
    } else {
        c
    }
}

/// `content` on one line: every carriage return and line feed becomes a space.
pub open spec fn blank_line_breaks(content: Seq<char>) -> Seq<char> {
    content.map_values(|c: char| blank_line_break(c))
}

/// The zjstatus pipe-protocol frame for pipe `name` around `content`.
pub open spec fn zjstatus_frame(name: Seq<char>, content: Seq<char>) -> Seq<char> {
    "zjstatus::pipe::"@ + name + "::"@ + content
}

/// `content` with carriage returns and line feeds turned into spaces.
pub fn blank_line_breaks_of(content: &[char]) -> (out: Vec<char>)
    ensures
        out@ == blank_line_breaks(content@),
{
    let mut out: Vec<char> = Vec::new();
    let n = content.len();
    let mut i: usize = 0;
    while i < n
        invariant
            n == content@.len(),
            i <= n,
            out@.len() == i,
            forall|k: int| 0 <= k < i ==> #[trigger] out@[k] == blank_line_break(content@[k]),
        decreases n - i,
    {
        let c = content[i];
        if c == '\r' || c == '\n' {
            out.push(' ');
        } else {
            out.push(c);
        }
        i = i + 1;
    }
    assert(out@ =~= blank_line_breaks(content@));
    out
}

/// Frames `content` for zjstatus pipe `name`.
pub fn zjstatus_pipe_payload(name: &str, content: String) -> (payload: String)
    ensures
        payload@ == zjstatus_frame(name@, content@),
{
    let mut payload = String::from_str("zjstatus::pipe::");
    payload.append(name);
    payload.append("::");
    payload.append(content.as_str());
    payload
}

/// The zjstatus pipe-protocol payload that carries an activity snapshot; line
/// breaks become spaces so the snapshot stays one protocol message.
pub fn tab_activity_pipe_protocol_payload(snapshot_json: &str) -> (payload: String)
    ensures
        payload@ == zjstatus_frame(
            ZJSTATUS_TAB_ACTIVITY_PIPE_NAME@,
            blank_line_breaks(snapshot_json@),
        ),
{
    zjstatus_pipe_payload(ZJSTATUS_TAB_ACTIVITY_PIPE_NAME, sanitize_zjstatus_pipe_content(snapshot_json))
}

fn sanitize_zjstatus_pipe_content(content: &str) -> (sanitized: String)
    ensures
        sanitized@ == blank_line_breaks(content@),
{
    let chars = chars_of(content);
    let blanked = blank_line_breaks_of(chars.as_slice());
    string_from_chars(blanked.as_slice())
}

/// A framed payload is one line: neither the frame nor the content, once
/// its line breaks are blanked, holds a carriage return or a line feed; and
/// blanking keeps every other character in place.
pub proof fn law_framed_content_is_one_line(name: Seq<char>, content: Seq<char>)
    requires
        forall|k: int| 0 <= k < name.len() ==> #[trigger] name[k] != '\r' && name[k] != '\n',
    ensures
        blank_line_breaks(content).len() == content.len(),
        forall|k: int|
            0 <= k < content.len() && content[k] != '\r' && content[k] != '\n'
                ==> #[trigger] blank_line_breaks(content)[k] == content[k],
        forall|k: int|
            0 <= k < zjstatus_frame(name, blank_line_breaks(content)).len() ==> #[trigger] zjstatus_frame(
                name,
                blank_line_breaks(content),
            )[k] != '\r' && zjstatus_frame(name, blank_line_breaks(content))[k] != '\n',
{
    reveal_strlit("zjstatus::pipe::");
    reveal_strlit("::");
    let frame = zjstatus_frame(name, blank_line_breaks(content));
    let prefix = "zjstatus::pipe::"@;
    assert forall|k: int| 0 <= k < frame.len() implies #[trigger] frame[k] != '\r' && frame[k]
        != '\n' by {
        if k < prefix.len() {
            assert(frame[k] == prefix[k]);
        } else if k < prefix.len() + name.len() {
            assert(frame[k] == name[k - prefix.len()]);
        } else if k < prefix.len() + name.len() + 2 {
            assert(frame[k] == "::"@[k - prefix.len() - name.len()]);
        } else {
            let j = k - prefix.len() - name.len() - 2;
            assert(frame[k] == blank_line_breaks(content)[j]);
        }
    }
}

} // verus!
