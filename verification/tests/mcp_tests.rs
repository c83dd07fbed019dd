use claude_code_rs::mcp::registry::{flatten_listings, McpRegistry};
use claude_code_rs::mcp::{McpClient, McpResourceContent, StdioMcpClient};
use claude_code_rs::tools::mcp_tools::{
    format_resource_contents, ListMcpResourcesTool, McpToolWrapper, ReadMcpResourceTool, NO_MCP_RESOURCES,
};

fn client() -> StdioMcpClient {
    StdioMcpClient::new("mock-server".to_string(), vec!["--stdio".to_string()])
}

const MOCK_ENTRY: &str = "Server: a\nURI: mock://system/info\nName: Mock System Info\nDescription: Mock resource showing system info\nMIME Type: application/json\n---\n";

#[test]
fn stdio_client_mock_answers() {
    let mut c = client();
    assert_eq!(c.command, "mock-server");
    assert_eq!(c.connect(), Ok(()));
    let tools = c.list_tools().unwrap();
    assert_eq!(tools.len(), 1);
    assert_eq!(tools[0].name, "mock_mcp_tool");
    assert_eq!(tools[0].description, "A mock tool provided by a mock MCP server");
    let schema: serde_json::Value = serde_json::from_str(&tools[0].input_schema).unwrap();
    assert_eq!(schema["required"][0], "input");
    assert_eq!(
        c.call_tool("t", "{\"a\":1}"),
        Ok("Mock MCP server executed tool 't' with args: {\"a\":1}".to_string())
    );
    let res = c.list_resources().unwrap();
    assert_eq!(res[0].uri, "mock://system/info");
    assert_eq!(res[0].mime_type, Some("application/json".to_string()));
    assert_eq!(c.disconnect(), Ok(()));
}

#[test]
fn stdio_client_reads_only_its_resource() {
    let c = client();
    let contents = c.read_resource("mock://system/info").unwrap();
    assert_eq!(contents.len(), 1);
    assert_eq!(contents[0].text, Some("{\"status\": \"mock_online\"}".to_string()));
    assert!(contents[0].blob.is_none());
    match c.read_resource("mock://other") {
        Err(e) => assert_eq!(e, "Resource not found: mock://other"),
        Ok(_) => panic!("unknown resource was read"),
    }
}

#[test]
fn registry_finds_what_was_registered() {
    let mut r: McpRegistry<StdioMcpClient> = McpRegistry::new();
    assert!(r.get("a").is_none());
    assert_eq!(r.register_client("a".to_string(), client()), Ok(()));
    assert!(r.get("a").is_some());
    assert!(r.get("b").is_none());
    assert_eq!(r.register_client("a".to_string(), client()), Ok(()));
    assert_eq!(r.list_all_resources().unwrap().len(), 1);
    assert_eq!(r.register_client("b".to_string(), client()), Ok(()));
    let tools = r.list_all_tools().unwrap();
    let servers: Vec<&str> = tools.iter().map(|(s, _)| s.as_str()).collect();
    assert_eq!(servers, vec!["a", "b"]);
}

#[test]
fn registry_refuses_unknown_servers() {
    let mut r: McpRegistry<StdioMcpClient> = McpRegistry::new();
    r.register_client("a".to_string(), client()).unwrap();
    assert_eq!(r.call_tool("b", "t", "{}"), Err("MCP server 'b' not found".to_string()));
    assert_eq!(r.call_tool("a", "t", "{}"), Ok("Mock MCP server executed tool 't' with args: {}".to_string()));
    match r.read_resource("zzz", "mock://system/info") {
        Err(e) => assert_eq!(e, "MCP server 'zzz' not found"),
        Ok(_) => panic!("unknown server answered"),
    }
}

#[test]
fn flatten_pairs_items_and_skips_failures() {
    let names = vec!["x".to_string(), "y".to_string(), "z".to_string()];
    let listings: Vec<Result<Vec<u32>, String>> = vec![Ok(vec![1, 2]), Err("down".to_string()), Ok(vec![3])];
    let flat = flatten_listings(&names, listings);
    assert_eq!(flat, vec![("x".to_string(), 1), ("x".to_string(), 2), ("z".to_string(), 3)]);
}

#[test]
fn list_resources_tool() {
    let tool = ListMcpResourcesTool::new();
    let mut r: McpRegistry<StdioMcpClient> = McpRegistry::new();
    assert_eq!(tool.execute(&r, &None), Ok(NO_MCP_RESOURCES.to_string()));
    r.register_client("a".to_string(), client()).unwrap();
    assert_eq!(tool.execute(&r, &None), Ok(MOCK_ENTRY.to_string()));
    assert_eq!(tool.execute(&r, &Some("a".to_string())), Ok(MOCK_ENTRY.to_string()));
    assert_eq!(tool.execute(&r, &Some("zzz".to_string())), Ok("No resources found for server: zzz".to_string()));
    assert_eq!(tool.name(), "ListMcpResources");
}

#[test]
fn read_resource_tool() {
    let tool = ReadMcpResourceTool::new();
    let mut r: McpRegistry<StdioMcpClient> = McpRegistry::new();
    r.register_client("a".to_string(), client()).unwrap();
    assert_eq!(
        tool.execute(&r, "a", "mock://system/info"),
        Ok("--- Resource mock://system/info (application/json) ---\n{\"status\": \"mock_online\"}\n".to_string())
    );
    assert_eq!(tool.execute(&r, "a", "nope"), Err("Resource not found: nope".to_string()));
    assert_eq!(tool.execute(&r, "b", "nope"), Err("MCP server 'b' not found".to_string()));
}

#[test]
fn resource_contents_formatting() {
    assert_eq!(format_resource_contents("s", "u", &vec![]), Err("Resource u not found on server s".to_string()));
    let blob = McpResourceContent {
        uri: "u".to_string(),
        mime_type: "image/png".to_string(),
        text: None,
        blob: Some("AAAA".to_string()),
    };
    let neither = McpResourceContent { uri: "v".to_string(), mime_type: "x".to_string(), text: None, blob: None };
    assert_eq!(
        format_resource_contents("s", "u", &vec![blob, neither]),
        Ok("--- Resource u (image/png) ---\n[Binary Content - Not displaying directly]\n".to_string())
    );
}

#[test]
fn mcp_tool_wrapper_forwards() {
    let w = McpToolWrapper::new("a".to_string(), "mock_mcp_tool".to_string(), "does things".to_string(), "{}".to_string());
    assert_eq!(w.name(), "mock_mcp_tool");
    assert_eq!(w.description(), "[MCP Tool from server: a] does things");
    assert_eq!(w.input_schema(), "{}");
    let mut r: McpRegistry<StdioMcpClient> = McpRegistry::new();
    assert_eq!(w.execute(&r, "{}"), Err("MCP server 'a' not found".to_string()));
    r.register_client("a".to_string(), client()).unwrap();
    assert_eq!(w.execute(&r, "{\"input\":\"x\"}"), Ok("Mock MCP server executed tool 'mock_mcp_tool' with args: {\"input\":\"x\"}".to_string()));
}
