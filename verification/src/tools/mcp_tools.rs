//! Tools that expose MCP servers to the model: listing and reading their
//! resources, and calling a server's own tools.

use vstd::prelude::*;
use crate::mcp::{McpClient, McpResourceInfo, McpResourceInfoView, McpResourceContent, McpResourceContentView};
use crate::mcp::registry::{McpRegistry, pair_views, server_not_found_message};
use crate::text::{opt_view, str_eq};

verus! {

/// Reply when no server offers any resource.
pub const NO_MCP_RESOURCES: &'static str = "No MCP resources found. You may need to connect an MCP server first.";

/// The block that describes one resource of `server`.
pub open spec fn resource_entry(server: Seq<char>, res: McpResourceInfoView) -> Seq<char> {
    "Server: "@ + server + "\nURI: "@ + res.uri + "\nName: "@ + res.name + "\n"@
        + (match res.description { Some(d) => "Description: "@ + d + "\n"@, None => Seq::empty() })
        + (match res.mime_type { Some(m) => "MIME Type: "@ + m + "\n"@, None => Seq::empty() })
        + "---\n"@
}

/// The blocks of the listed resources that belong to `filter` (all when `None`).
pub open spec fn resource_blocks(entries: Seq<(Seq<char>, McpResourceInfo)>, filter: Option<Seq<char>>) -> Seq<char>
    decreases entries.len(),
{
    if entries.len() == 0 {
        Seq::empty()
    } else {
        let k = entries.len() - 1;
        let e = entries[k];
        resource_blocks(entries.take(k), filter) + (match filter {
            Some(f) if f != e.0 => Seq::empty(),
            _ => resource_entry(e.0, e.1@),
        })
    }
}

/// The reply of the resource-listing tool for the listed resources.
pub open spec fn resource_listing_reply(entries: Seq<(Seq<char>, McpResourceInfo)>, filter: Option<Seq<char>>) -> Seq<char> {
    if entries.len() == 0 {
        NO_MCP_RESOURCES@
    } else if resource_blocks(entries, filter).len() == 0 {
        "No resources found for server: "@ + (match filter { Some(f) => f, None => Seq::empty() })
    } else {
        resource_blocks(entries, filter)
    }
}

/// The block that shows one resource content.
pub open spec fn content_block(c: McpResourceContentView) -> Seq<char> {
    match c.text {
        Some(t) => "--- Resource "@ + c.uri + " ("@ + c.mime_type + ") ---\n"@ + t + "\n"@,
        None => match c.blob {
            Some(_) => "--- Resource "@ + c.uri + " ("@ + c.mime_type + ") ---\n[Binary Content - Not displaying directly]\n"@,
            None => Seq::empty(),
        },
    }
}

/// The blocks of a list of contents, in order.
pub open spec fn content_blocks(cs: Seq<McpResourceContentView>) -> Seq<char>
    decreases cs.len(),
{
    if cs.len() == 0 {
        Seq::empty()
    } else {
        content_blocks(cs.drop_last()) + content_block(cs.last())
    }
}

/// The reply of the resource-reading tool for what the server returned.
pub open spec fn resource_read_reply(server: Seq<char>, uri: Seq<char>, cs: Seq<McpResourceContentView>) -> Result<Seq<char>, Seq<char>> {
    if cs.len() == 0 {
        Err("Resource "@ + uri + " not found on server "@ + server)
    } else {
        Ok(content_blocks(cs))
    }
}

fn resource_entry_text(server: &str, res: &McpResourceInfo) -> (r: String)
    ensures
        r@ == resource_entry(server@, res@),
{
    let mut s = String::from_str("Server: ");
    s.append(server);
    s.append("\nURI: ");
    s.append(res.uri.as_str());
    s.append("\nName: ");
    s.append(res.name.as_str());
    s.append("\n");
    match &res.description {
        Some(d) => {
            s.append("Description: ");
            s.append(d.as_str());
            s.append("\n");
        },
        None => {},
    }
    match &res.mime_type {
        Some(m) => {
            s.append("MIME Type: ");
            s.append(m.as_str());
            s.append("\n");
        },
        None => {},
    }
    s.append("---\n");
    s
}

/// The reply for listed resources, keeping only those of `server` when given.
pub fn format_resource_listing(entries: &Vec<(String, McpResourceInfo)>, server: &Option<String>) -> (r: String)
    ensures
        r@ == resource_listing_reply(pair_views(entries@), opt_view(*server)),
{
    let ghost ev = pair_views(entries@);
    if entries.len() == 0 {
        return String::from_str(NO_MCP_RESOURCES);
    }
    let mut out = String::new();
    let mut i: usize = 0;
    while i < entries.len()
        invariant
            i <= entries.len(),
            ev == pair_views(entries@),
            out@ == resource_blocks(ev.take(i as int), opt_view(*server)),
        decreases entries.len() - i,
    {
        assert(ev.take(i + 1).take(i as int) =~= ev.take(i as int));
        assert(ev.take(i + 1)[i as int] == ev[i as int]);
        let keep = match server {
            Some(target) => str_eq(target.as_str(), entries[i].0.as_str()),
            None => true,
        };
        if keep {
            let block = resource_entry_text(entries[i].0.as_str(), &entries[i].1);
            out.append(block.as_str());
        }
        i = i + 1;
    }
    assert(ev.take(entries.len() as int) =~= ev);
    if out.as_str().is_empty() {
        let mut r = String::from_str("No resources found for server: ");
        match server {
            Some(s) => r.append(s.as_str()),
            None => {},
        }
        r
    } else {
        out
    }
}

/// The reply for what the server returned when reading `uri`.
pub fn format_resource_contents(server: &str, uri: &str, contents: &Vec<McpResourceContent>) -> (r: Result<String, String>)
    ensures
        match (r, resource_read_reply(server@, uri@, contents@.map_values(|c: McpResourceContent| c@))) {
            (Ok(s), Ok(t)) => s@ == t,
            (Err(e), Err(m)) => e@ == m,
            _ => false,
        },
{
    let ghost cv = contents@.map_values(|c: McpResourceContent| c@);
    if contents.len() == 0 {
        let mut e = String::from_str("Resource ");
        e.append(uri);
        e.append(" not found on server ");
        e.append(server);
        return Err(e);
    }
    let mut out = String::new();
    let mut i: usize = 0;
    while i < contents.len()
        invariant
            i <= contents.len(),
            cv == contents@.map_values(|c: McpResourceContent| c@),
            out@ == content_blocks(cv.take(i as int)),
        decreases contents.len() - i,
    {
        assert(cv.take(i + 1).drop_last() =~= cv.take(i as int));
        let c = &contents[i];
        match &c.text {
            Some(t) => {
                out.append("--- Resource ");
                out.append(c.uri.as_str());
                out.append(" (");
                out.append(c.mime_type.as_str());
                out.append(") ---\n");
                out.append(t.as_str());
                out.append("\n");
            },
            None => match &c.blob {
                Some(_) => {
                    out.append("--- Resource ");
                    out.append(c.uri.as_str());
                    out.append(" (");
                    out.append(c.mime_type.as_str());
                    out.append(") ---\n[Binary Content - Not displaying directly]\n");
                },
                None => {},
            },
        }
        i = i + 1;
    }
    assert(cv.take(contents.len() as int) =~= cv);
    Ok(out)
}

/// Lists the resources of the connected MCP servers.
pub struct ListMcpResourcesTool;

impl ListMcpResourcesTool {
    pub fn new() -> Self {
        ListMcpResourcesTool
    }

    pub fn name(&self) -> (r: &'static str)
        ensures
            r@ == "ListMcpResources"@,
    {
        "ListMcpResources"
    }

    pub fn description(&self) -> (r: &'static str)
        ensures
            r@ == "List all available Model Context Protocol (MCP) resources. You can specify a server name to filter results, or leave it empty to list all resources across all connected MCP servers."@,
    {
        "List all available Model Context Protocol (MCP) resources. You can specify a server name to filter results, or leave it empty to list all resources across all connected MCP servers."
    }

    pub fn input_schema(&self) -> (r: &'static str)
        ensures
            r@ == LIST_RESOURCES_SCHEMA@,
    {
        LIST_RESOURCES_SCHEMA
    }

    /// Lists the resources of every server in `registry`, or of `server` alone.
    pub fn execute<C: McpClient>(&self, registry: &McpRegistry<C>, server: &Option<String>) -> (r: Result<String, String>)
        requires
            registry.wf(),
        ensures
            r is Ok,
            registry.names().len() == 0 ==> r->Ok_0@ == NO_MCP_RESOURCES@,
            exists|e: Seq<(Seq<char>, McpResourceInfo)>|
                r->Ok_0@ == resource_listing_reply(e, opt_view(*server))
                && forall|i: int| 0 <= i < e.len() ==> registry.names().contains(#[trigger] e[i].0),
    {
        let listed = registry.list_all_resources();
        match listed {
            Ok(entries) => {
                proof {
                    if registry.names().len() == 0 {
                        assert(entries@.len() == 0 || registry.names().contains(entries@[0].0@));
                    }
                }
                let r = format_resource_listing(&entries, server);
                proof {
                    let e = pair_views(entries@);
                    assert forall|i: int| 0 <= i < e.len() implies registry.names().contains(#[trigger] e[i].0) by {
                        assert(e[i].0 == entries@[i].0@);
                    }
                    assert(r@ == resource_listing_reply(e, opt_view(*server)));
                }
                Ok(r)
            },
            Err(e) => Err(e),
        }
    }
}

/// Schema of the resource-listing tool's arguments (JSON text).
pub const LIST_RESOURCES_SCHEMA: &'static str = "{\"type\":\"object\",\"properties\":{\"server\":{\"type\":\"string\",\"description\":\"Optional name of the specific MCP server to list resources for. If omitted, lists resources from all connected servers.\"}}}";

/// Schema of the resource-reading tool's arguments (JSON text).
pub const READ_RESOURCE_SCHEMA: &'static str = "{\"type\":\"object\",\"properties\":{\"server\":{\"type\":\"string\",\"description\":\"Name of the MCP server providing the resource\"},\"uri\":{\"type\":\"string\",\"description\":\"The exact URI of the resource to read\"}},\"required\":[\"server\",\"uri\"]}";

/// The text of a reply, whether it succeeded or failed.
pub open spec fn reply_view(r: Result<String, String>) -> Result<Seq<char>, Seq<char>> {
    match r {
        Ok(s) => Ok(s@),
        Err(e) => Err(e@),
    }
}

/// The resource-reading tool's reply for the server's answer `a`: the
/// contents shown, or the server's error handed on.
pub open spec fn read_tool_reply(server: Seq<char>, uri: Seq<char>, a: Result<Vec<McpResourceContent>, String>) -> Result<Seq<char>, Seq<char>> {
    match a {
        Ok(v) => resource_read_reply(server, uri, v@.map_values(|c: McpResourceContent| c@)),
        Err(e) => Err(e@),
    }
}

/// Reads one resource of a connected MCP server.
pub struct ReadMcpResourceTool;

impl ReadMcpResourceTool {
    pub fn new() -> Self {
        ReadMcpResourceTool
    }

    pub fn name(&self) -> (r: &'static str)
        ensures
            r@ == "ReadMcpResource"@,
    {
        "ReadMcpResource"
    }

    pub fn description(&self) -> (r: &'static str)
        ensures
            r@ == "Read the content of a specific Model Context Protocol (MCP) resource. Use ListMcpResources first to find the correct server name and URI."@,
    {
        "Read the content of a specific Model Context Protocol (MCP) resource. Use ListMcpResources first to find the correct server name and URI."
    }

    pub fn input_schema(&self) -> (r: &'static str)
        ensures
            r@ == READ_RESOURCE_SCHEMA@,
    {
        READ_RESOURCE_SCHEMA
    }

    /// Reads `uri` from `server` and shows its contents.
    pub fn execute<C: McpClient>(&self, registry: &McpRegistry<C>, server: &str, uri: &str) -> (r: Result<String, String>)
        requires
            registry.wf(),
        ensures
            !registry.names().contains(server@) ==> r is Err && r->Err_0@ == server_not_found_message(server@),
            r is Ok ==> exists|cs: Seq<McpResourceContentView>| cs.len() > 0 && r->Ok_0@ == content_blocks(cs),
            forall|j: int| 0 <= j < registry.names().len() && registry.names()[j] == server@
                ==> exists|a: Result<Vec<McpResourceContent>, String>|
                    #[trigger] registry.client_at(j).answers_read(uri@, a)
                    && reply_view(r) == read_tool_reply(server@, uri@, a),
    {
        let answer = registry.read_resource(server, uri);
        let ghost a = answer;
        let r = match answer {
            Ok(contents) => {
                let r = format_resource_contents(server, uri, &contents);
                proof {
                    let cs = contents@.map_values(|c: McpResourceContent| c@);
                    if r is Ok {
                        assert(cs.len() > 0 && r->Ok_0@ == content_blocks(cs));
                    }
                }
                r
            },
            Err(e) => Err(e),
        };
        proof {
            assert(reply_view(r) == read_tool_reply(server@, uri@, a));
            assert forall|j: int| 0 <= j < registry.names().len() && registry.names()[j] == server@
                implies exists|a2: Result<Vec<McpResourceContent>, String>|
                    #[trigger] registry.client_at(j).answers_read(uri@, a2)
                    && reply_view(r) == read_tool_reply(server@, uri@, a2) by {
                assert(registry.client_at(j).answers_read(uri@, a));
            }
        }
        r
    }
}

/// A tool of an MCP server, offered to the model under the server's tool name.
pub struct McpToolWrapper {
    pub server_name: String,
    pub tool_name: String,
    pub description: String,
    pub input_schema: String,
}

impl McpToolWrapper {
    pub fn new(server_name: String, tool_name: String, description: String, input_schema: String) -> (r: Self)
        ensures
            r.server_name@ == server_name@,
            r.tool_name@ == tool_name@,
            r.description@ == description@,
            r.input_schema@ == input_schema@,
    {
        McpToolWrapper { server_name, tool_name, description, input_schema }
    }

    pub fn name(&self) -> (r: String)
        ensures
            r@ == self.tool_name@,
    {
        self.tool_name.clone()
    }

    /// The server's description, prefixed with the server's name.
    pub fn description(&self) -> (r: String)
        ensures
            r@ == "[MCP Tool from server: "@ + self.server_name@ + "] "@ + self.description@,
    {
        let mut s = String::from_str("[MCP Tool from server: ");
        s.append(self.server_name.as_str());
        s.append("] ");
        s.append(self.description.as_str());
        s
    }

    pub fn input_schema(&self) -> (r: String)
        ensures
            r@ == self.input_schema@,
    {
        self.input_schema.clone()
    }

    /// Forwards the call, with its JSON arguments, to the server.
    pub fn execute<C: McpClient>(&self, registry: &McpRegistry<C>, arguments: &str) -> (r: Result<String, String>)
        requires
            registry.wf(),
        ensures
            !registry.names().contains(self.server_name@) ==> r is Err
                && r->Err_0@ == server_not_found_message(self.server_name@),
            forall|j: int| 0 <= j < registry.names().len() && registry.names()[j] == self.server_name@
                ==> #[trigger] registry.client_at(j).answers_call(self.tool_name@, arguments@, r),
    {
        registry.call_tool(self.server_name.as_str(), self.tool_name.as_str(), arguments)
    }
}

} // verus!
