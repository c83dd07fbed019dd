//! The tool that sends a formatted message, with attachments, to the user.

use vstd::prelude::*;
use crate::text::{debug_quoted, debug_quoted_of, join_seq, join_strings};

verus! {

/// Arguments of the message tool.
pub struct BriefArgs {
    pub message: String,
    pub attachments: Option<Vec<String>>,
    pub status: String,
}

/// A list of texts as `Debug` writes it: `["a", "b"]`.
pub open spec fn debug_list(items: Seq<Seq<char>>) -> Seq<char> {
    "["@ + join_seq(items.map_values(|s: Seq<char>| debug_quoted_of(s)), ", "@) + "]"@
}

/// The reply for a sent message.
pub open spec fn brief_reply(status: Seq<char>, message: Seq<char>, attachments: Option<Seq<Seq<char>>>) -> Seq<char> {
    "Brief successfully sent to the user (Status: "@ + status + ").\n\nMessage content: "@ + message
        + (match attachments {
            Some(a) if a.len() > 0 => "\n\nAttachments: "@ + debug_list(a),
            _ => Seq::empty(),
        })
}

/// Schema of the message tool's arguments (JSON text).
pub const BRIEF_SCHEMA: &'static str = "{\"type\":\"object\",\"properties\":{\"message\":{\"type\":\"string\",\"description\":\"The formatted Markdown message to send to the user\"},\"attachments\":{\"type\":\"array\",\"items\":{\"type\":\"string\"},\"description\":\"Optional list of file paths to attach to the message (logs, screenshots, diffs)\"},\"status\":{\"type\":\"string\",\"enum\":[\"normal\",\"proactive\"],\"description\":\"Set to 'normal' for direct responses to user input, or 'proactive' when interrupting to notify the user of background updates.\"}},\"required\":[\"message\",\"status\"]}";

/// Writes a list of texts as `Debug` does.
pub fn debug_string_list(items: &Vec<String>) -> (r: String)
    ensures
        r@ == debug_list(items.deep_view()),
{
    let ghost iv = items.deep_view();
    let mut quoted: Vec<String> = Vec::new();
    let mut i: usize = 0;
    while i < items.len()
        invariant
            i <= items.len(),
            iv == items.deep_view(),
            quoted.len() == i,
            quoted.deep_view() == iv.take(i as int).map_values(|s: Seq<char>| debug_quoted_of(s)),
        decreases items.len() - i,
    {
        let q = debug_quoted(items[i].as_str());
        let ghost before = quoted@;
        let ghost before_dv = quoted.deep_view();
        let ghost qv = q@;
        quoted.push(q);
        assert forall|j: int| 0 <= j < i + 1 implies #[trigger] quoted.deep_view()[j] == iv.take(i + 1).map_values(|s: Seq<char>| debug_quoted_of(s))[j] by {
            if j < i {
                assert(quoted@[j] == before[j]);
                assert(before_dv[j] == iv.take(i as int).map_values(|s: Seq<char>| debug_quoted_of(s))[j]);
            } else {
                assert(quoted@[j]@ == qv);
            }
        }
        assert(quoted.deep_view() =~= iv.take(i + 1).map_values(|s: Seq<char>| debug_quoted_of(s)));
        i = i + 1;
    }
    assert(iv.take(iv.len() as int) =~= iv);
    let mut r = String::from_str("[");
    r.append(join_strings(&quoted, ", ").as_str());
    r.append("]");
    r
}

/// Sends formatted messages and attachments to the user.
pub struct BriefTool;

impl BriefTool {
    pub fn new() -> Self {
        BriefTool
    }

    pub fn name(&self) -> (r: &'static str)
        ensures
            r@ == "Brief"@,
    {
        "Brief"
    }

    pub fn description(&self) -> (r: &'static str)
        ensures
            r@ == "Send formatted messages and attachments to the user. Supports proactive mode to interrupt and notify the user about important background status updates."@,
    {
        "Send formatted messages and attachments to the user. Supports proactive mode to interrupt and notify the user about important background status updates."
    }

    pub fn input_schema(&self) -> (r: &'static str)
        ensures
            r@ == BRIEF_SCHEMA@,
    {
        BRIEF_SCHEMA
    }

    /// Reports the message as sent, listing any attachments.
    pub fn execute(&self, args: &BriefArgs) -> (r: Result<String, String>)
        ensures
            r is Ok,
            r->Ok_0@ == brief_reply(args.status@, args.message@, match args.attachments {
                Some(a) => Some(a.deep_view()),
                None => None,
            }),
    {
        let mut s = String::from_str("Brief successfully sent to the user (Status: ");
        s.append(args.status.as_str());
        s.append(").\n\nMessage content: ");
        s.append(args.message.as_str());
        match &args.attachments {
            Some(a) => {
                if a.len() > 0 {
                    s.append("\n\nAttachments: ");
                    s.append(debug_string_list(a).as_str());
                }
            },
            None => {},
        }
        Ok(s)
    }
}

} // verus!
