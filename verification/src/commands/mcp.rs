//! The `/mcp` command: manages the configured MCP servers.

use vstd::prelude::*;
use crate::text::{chars_of, join_chars, join_seq, seqs_of, split_whitespace_chars, string_of, words_seq};

verus! {

/// The reply to `/mcp <args>`.
pub open spec fn mcp_reply(args: Seq<char>) -> Seq<char> {
    let parts = words_seq(args);
    if parts.len() == 0 {
        "Usage: /mcp [add|remove|list|restart] <args>"@
    } else {
        let sub = parts[0];
        if sub == "list"@ {
            "Configured MCP Servers:\n  - sqlite (stdio)\n  - github (stdio)"@
        } else if sub == "add"@ {
            if parts.len() < 3 {
                "Usage: /mcp add <name> <command> [args...]"@
            } else {
                "Added MCP server '"@ + parts[1] + "' with command '"@ + join_seq(parts.skip(2), " "@)
                    + "'. Note: MCP configs are mocked."@
            }
        } else if sub == "remove"@ {
            if parts.len() < 2 {
                "Usage: /mcp remove <name>"@
            } else {
                "Removed MCP server '"@ + parts[1] + "'."@
            }
        } else if sub == "restart"@ {
            "Restarted all MCP server connections."@
        } else {
            "Unknown mcp subcommand: "@ + sub + ". Available: add, remove, list, restart"@
        }
    }
}

fn chars_eq(a: &Vec<char>, b: &str) -> (r: bool)
    ensures
        r == (a@ == b@),
{
    let vb = chars_of(b);
    let r = a.len() == vb.len() && crate::text::matches_at_exec(a, &vb, 0);
    proof {
        if a.len() == vb.len() {
            assert(a@.subrange(0, vb@.len() as int) =~= a@);
        }
    }
    r
}

/// Handles `/mcp`.
pub struct McpCommand;

impl McpCommand {
    /// Handles `/mcp <args>`: `list`, `add <name> <command> [args...]`,
    /// `remove <name>` and `restart`; anything else gets a usage hint.
    pub fn handle_mcp(args: &str) -> (r: Result<String, String>)
        ensures
            r is Ok,
            r->Ok_0@ == mcp_reply(args@),
    {
        let chars = chars_of(args);
        let parts = split_whitespace_chars(&chars);
        proof {
            assert(seqs_of(parts@).len() == parts@.len());
        }
        if parts.len() == 0 {
            return Ok(String::from_str("Usage: /mcp [add|remove|list|restart] <args>"));
        }
        let ghost p = seqs_of(parts@);
        assert(p[0] == parts@[0]@);
        let sub = &parts[0];
        if chars_eq(sub, "list") {
            Ok(String::from_str("Configured MCP Servers:\n  - sqlite (stdio)\n  - github (stdio)"))
        } else if chars_eq(sub, "add") {
            if parts.len() < 3 {
                return Ok(String::from_str("Usage: /mcp add <name> <command> [args...]"));
            }
            assert(p[1] == parts@[1]@);
            let cmd = join_chars(&parts, 2, &chars_of(" "));
            let mut r = String::from_str("Added MCP server '");
            r.append(string_of(&parts[1]).as_str());
            r.append("' with command '");
            r.append(string_of(&cmd).as_str());
            r.append("'. Note: MCP configs are mocked.");
            Ok(r)
        } else if chars_eq(sub, "remove") {
            if parts.len() < 2 {
                return Ok(String::from_str("Usage: /mcp remove <name>"));
            }
            assert(p[1] == parts@[1]@);
            let mut r = String::from_str("Removed MCP server '");
            r.append(string_of(&parts[1]).as_str());
            r.append("'.");
            Ok(r)
        } else if chars_eq(sub, "restart") {
            Ok(String::from_str("Restarted all MCP server connections."))
        } else {
            let mut r = String::from_str("Unknown mcp subcommand: ");
            r.append(string_of(sub).as_str());
            r.append(". Available: add, remove, list, restart");
            Ok(r)
        }
    }
}

} // verus!
