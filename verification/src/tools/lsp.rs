//! The code-intelligence tool (language server queries, simulated).

use vstd::prelude::*;

verus! {

/// Arguments of the code-intelligence tool.
pub struct LspArgs {
    pub operation: String,
    pub file_path: Option<String>,
    pub line: Option<u32>,
    pub character: Option<u32>,
}

/// The reply for an operation.
pub open spec fn lsp_reply(operation: Seq<char>) -> Seq<char> {
    "Mock LSP Result: Operation '"@ + operation
        + "' executed successfully. \n(Note: In a full Rust implementation, this would connect to the local Language Server via JSON-RPC to return exact symbols or hover information.)"@
}

/// Schema of the code-intelligence tool's arguments (JSON text).
pub const LSP_SCHEMA: &'static str = "{\"type\":\"object\",\"properties\":{\"operation\":{\"type\":\"string\",\"enum\":[\"goToDefinition\",\"findReferences\",\"hover\",\"documentSymbol\",\"workspaceSymbol\",\"goToImplementation\",\"prepareCallHierarchy\",\"incomingCalls\",\"outgoingCalls\"],\"description\":\"The LSP operation to perform\"},\"filePath\":{\"type\":\"string\",\"description\":\"The absolute or relative path to the file (Optional for workspaceSymbol)\"},\"line\":{\"type\":\"integer\",\"description\":\"The line number (1-based, as shown in editors)\"},\"character\":{\"type\":\"integer\",\"description\":\"The character offset (1-based, as shown in editors)\"}},\"required\":[\"operation\"]}";

/// Queries language servers for code intelligence.
pub struct LspTool;

impl LspTool {
    pub fn new() -> Self {
        LspTool
    }

    pub fn name(&self) -> (r: &'static str)
        ensures
            r@ == "LSP"@,
    {
        "LSP"
    }

    pub fn description(&self) -> (r: &'static str)
        ensures
            r@ == "Interact with Language Server Protocol (LSP) servers to get code intelligence features.\nSupported operations:\n- goToDefinition: Find where a symbol is defined\n- findReferences: Find all references to a symbol\n- hover: Get hover information (documentation, type info) for a symbol\n- documentSymbol: Get all symbols (functions, classes, variables) in a document\n- workspaceSymbol: Search for symbols across the entire workspace\n- goToImplementation: Find implementations of an interface or abstract method"@,
    {
        "Interact with Language Server Protocol (LSP) servers to get code intelligence features.\nSupported operations:\n- goToDefinition: Find where a symbol is defined\n- findReferences: Find all references to a symbol\n- hover: Get hover information (documentation, type info) for a symbol\n- documentSymbol: Get all symbols (functions, classes, variables) in a document\n- workspaceSymbol: Search for symbols across the entire workspace\n- goToImplementation: Find implementations of an interface or abstract method"
    }

    pub fn input_schema(&self) -> (r: &'static str)
        ensures
            r@ == LSP_SCHEMA@,
    {
        LSP_SCHEMA
    }

    /// Reports the operation as done.
    pub fn execute(&self, args: &LspArgs) -> (r: Result<String, String>)
        ensures
            r is Ok,
            r->Ok_0@ == lsp_reply(args.operation@),
    {
        let mut s = String::from_str("Mock LSP Result: Operation '");
        s.append(args.operation.as_str());
        s.append("' executed successfully. \n(Note: In a full Rust implementation, this would connect to the local Language Server via JSON-RPC to return exact symbols or hover information.)");
        Ok(s)
    }
}

} // verus!
