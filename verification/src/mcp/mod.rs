//! Model Context Protocol servers: what they offer, a mock stdio client, and
//! a registry that routes calls to the server they are addressed to.

use vstd::prelude::*;
use crate::text::{concat, opt_view};

pub mod registry;

verus! {

/// A tool offered by a server. `input_schema` is the JSON text of its schema.
pub struct McpToolInfo {
    pub name: String,
    pub description: String,
    pub input_schema: String,
}

/// Mathematical value of a tool description.
pub struct McpToolInfoView {
    pub name: Seq<char>,
    pub description: Seq<char>,
    pub input_schema: Seq<char>,
}

impl View for McpToolInfo {
    type V = McpToolInfoView;

    open spec fn view(&self) -> McpToolInfoView {
        McpToolInfoView { name: self.name@, description: self.description@, input_schema: self.input_schema@ }
    }
}

/// A resource offered by a server.
pub struct McpResourceInfo {
    pub uri: String,
    pub name: String,
    pub description: Option<String>,
    pub mime_type: Option<String>,
}

/// Mathematical value of a resource description.
pub struct McpResourceInfoView {
    pub uri: Seq<char>,
    pub name: Seq<char>,
    pub description: Option<Seq<char>>,
    pub mime_type: Option<Seq<char>>,
}

impl View for McpResourceInfo {
    type V = McpResourceInfoView;

    open spec fn view(&self) -> McpResourceInfoView {
        McpResourceInfoView {
            uri: self.uri@,
            name: self.name@,
            description: opt_view(self.description),
            mime_type: opt_view(self.mime_type),
        }
    }
}

/// The content of a resource: text, or a base64 blob for binary data.
pub struct McpResourceContent {
    pub uri: String,
    pub mime_type: String,
    pub text: Option<String>,
    pub blob: Option<String>,
}

/// Mathematical value of a resource content.
pub struct McpResourceContentView {
    pub uri: Seq<char>,
    pub mime_type: Seq<char>,
    pub text: Option<Seq<char>>,
    pub blob: Option<Seq<char>>,
}

impl View for McpResourceContent {
    type V = McpResourceContentView;

    open spec fn view(&self) -> McpResourceContentView {
        McpResourceContentView {
            uri: self.uri@,
            mime_type: self.mime_type@,
            text: opt_view(self.text),
            blob: opt_view(self.blob),
        }
    }
}

/// A connection to one MCP server. Tool arguments travel as JSON text.
pub trait McpClient {
    /// Connects to the server.
    fn connect(&mut self) -> Result<(), String>;

    /// Disconnects from the server.
    fn disconnect(&mut self) -> Result<(), String>;

    /// Whether `r` is an answer the server may give when asked for its tools.
    spec fn answers_tool_listing(&self, r: Result<Vec<McpToolInfo>, String>) -> bool;

    /// Whether `r` is an answer the server may give when asked for its resources.
    spec fn answers_resource_listing(&self, r: Result<Vec<McpResourceInfo>, String>) -> bool;

    /// The tools the server offers.
    fn list_tools(&self) -> (r: Result<Vec<McpToolInfo>, String>)
        ensures
            self.answers_tool_listing(r),
    ;

    /// Whether `r` is an answer the server may give to a call of tool `name`
    /// with the JSON text `arguments`.
    spec fn answers_call(&self, name: Seq<char>, arguments: Seq<char>, r: Result<String, String>) -> bool;

    /// Whether `r` is an answer the server may give when asked to read `uri`.
    spec fn answers_read(&self, uri: Seq<char>, r: Result<Vec<McpResourceContent>, String>) -> bool;

    /// Calls tool `name` with the JSON text `arguments`.
    fn call_tool(&self, name: &str, arguments: &str) -> (r: Result<String, String>)
        ensures
            self.answers_call(name@, arguments@, r),
    ;

    /// The resources the server offers.
    fn list_resources(&self) -> (r: Result<Vec<McpResourceInfo>, String>)
        ensures
            self.answers_resource_listing(r),
    ;

    /// Reads the resource at `uri`.
    fn read_resource(&self, uri: &str) -> (r: Result<Vec<McpResourceContent>, String>)
        ensures
            self.answers_read(uri@, r),
    ;
}

/// The only resource the mock server knows.
pub const MOCK_RESOURCE_URI: &'static str = "mock://system/info";

/// The JSON text of the mock tool's input schema.
pub const MOCK_TOOL_SCHEMA: &'static str = "{\"type\":\"object\",\"properties\":{\"input\":{\"type\":\"string\"}},\"required\":[\"input\"]}";

/// A server started as a child process and spoken to over stdin/stdout.
/// The conversation itself is mocked: the answers are fixed.
pub struct StdioMcpClient {
    pub command: String,
    pub args: Vec<String>,
}

/// The mock server's tool list.
pub open spec fn mock_tools() -> Seq<McpToolInfoView> {
    seq![McpToolInfoView {
        name: "mock_mcp_tool"@,
        description: "A mock tool provided by a mock MCP server"@,
        input_schema: MOCK_TOOL_SCHEMA@,
    }]
}

/// The mock server's answer to a tool call.
pub open spec fn mock_call_reply(name: Seq<char>, arguments: Seq<char>) -> Seq<char> {
    "Mock MCP server executed tool '"@ + name + "' with args: "@ + arguments
}

/// The mock server's resource list.
pub open spec fn mock_resources() -> Seq<McpResourceInfoView> {
    seq![McpResourceInfoView {
        uri: MOCK_RESOURCE_URI@,
        name: "Mock System Info"@,
        description: Some("Mock resource showing system info"@),
        mime_type: Some("application/json"@),
    }]
}

/// The mock server's answer to reading `uri`.
pub open spec fn mock_read(uri: Seq<char>) -> Result<Seq<McpResourceContentView>, Seq<char>> {
    if uri == MOCK_RESOURCE_URI@ {
        Ok(seq![McpResourceContentView {
            uri: uri,
            mime_type: "application/json"@,
            text: Some("{\"status\": \"mock_online\"}"@),
            blob: None,
        }])
    } else {
        Err("Resource not found: "@ + uri)
    }
}

impl StdioMcpClient {
    /// A client for the server started by `command` with `args`.
    pub fn new(command: String, args: Vec<String>) -> (r: StdioMcpClient)
        ensures
            r.command@ == command@,
            r.args.deep_view() == args.deep_view(),
    {
        StdioMcpClient { command, args }
    }
}

impl McpClient for StdioMcpClient {
    /// The mock server always lists its one tool.
    open spec fn answers_tool_listing(&self, r: Result<Vec<McpToolInfo>, String>) -> bool {
        r is Ok && r->Ok_0@.map_values(|t: McpToolInfo| t@) == mock_tools()
    }

    /// The mock server answers every call with a fixed text naming the tool
    /// and its arguments.
    open spec fn answers_call(&self, name: Seq<char>, arguments: Seq<char>, r: Result<String, String>) -> bool {
        r is Ok && r->Ok_0@ == mock_call_reply(name, arguments)
    }

    /// The mock server reads only its one resource.
    open spec fn answers_read(&self, uri: Seq<char>, r: Result<Vec<McpResourceContent>, String>) -> bool {
        match (r, mock_read(uri)) {
            (Ok(v), Ok(w)) => v@.map_values(|c: McpResourceContent| c@) == w,
            (Err(e), Err(m)) => e@ == m,
            _ => false,
        }
    }

    /// The mock server always lists its one resource.
    open spec fn answers_resource_listing(&self, r: Result<Vec<McpResourceInfo>, String>) -> bool {
        r is Ok && r->Ok_0@.map_values(|x: McpResourceInfo| x@) == mock_resources()
    }

    fn connect(&mut self) -> (r: Result<(), String>)
        ensures
            r is Ok,
            *final(self) == *old(self),
    {
        Ok(())
    }

    fn disconnect(&mut self) -> (r: Result<(), String>)
        ensures
            r is Ok,
            *final(self) == *old(self),
    {
        Ok(())
    }

    fn list_tools(&self) -> (r: Result<Vec<McpToolInfo>, String>)
        ensures
            r is Ok,
            r->Ok_0@.map_values(|t: McpToolInfo| t@) == mock_tools(),
    {
        let mut v: Vec<McpToolInfo> = Vec::new();
        v.push(McpToolInfo {
            name: String::from_str("mock_mcp_tool"),
            description: String::from_str("A mock tool provided by a mock MCP server"),
            input_schema: String::from_str(MOCK_TOOL_SCHEMA),
        });
        assert(v@.map_values(|t: McpToolInfo| t@) =~= mock_tools());
        Ok(v)
    }

    fn call_tool(&self, name: &str, arguments: &str) -> (r: Result<String, String>)
        ensures
            r is Ok,
            r->Ok_0@ == mock_call_reply(name@, arguments@),
    {
        let mut s = String::from_str("Mock MCP server executed tool '");
        s.append(name);
        s.append("' with args: ");
        s.append(arguments);
        Ok(s)
    }

    fn list_resources(&self) -> (r: Result<Vec<McpResourceInfo>, String>)
        ensures
            r is Ok,
            r->Ok_0@.map_values(|x: McpResourceInfo| x@) == mock_resources(),
    {
        let mut v: Vec<McpResourceInfo> = Vec::new();
        v.push(McpResourceInfo {
            uri: String::from_str(MOCK_RESOURCE_URI),
            name: String::from_str("Mock System Info"),
            description: Some(String::from_str("Mock resource showing system info")),
            mime_type: Some(String::from_str("application/json")),
        });
        assert(v@.map_values(|x: McpResourceInfo| x@) =~= mock_resources());
        Ok(v)
    }

    fn read_resource(&self, uri: &str) -> (r: Result<Vec<McpResourceContent>, String>)
        ensures
            match (r, mock_read(uri@)) {
                (Ok(v), Ok(w)) => v@.map_values(|c: McpResourceContent| c@) == w,
                (Err(e), Err(m)) => e@ == m,
                _ => false,
            },
    {
        if crate::text::str_eq(uri, MOCK_RESOURCE_URI) {
            let mut v: Vec<McpResourceContent> = Vec::new();
            v.push(McpResourceContent {
                uri: String::from_str(uri),
                mime_type: String::from_str("application/json"),
                text: Some(String::from_str("{\"status\": \"mock_online\"}")),
                blob: None,
            });
            assert(v@.map_values(|c: McpResourceContent| c@) =~= mock_read(uri@)->Ok_0);
            Ok(v)
        } else {
            Err(concat("Resource not found: ", uri))
        }
    }
}

} // verus!
