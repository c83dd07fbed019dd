//! The sub-agent tool: hands a task to a specialised sub-agent.

use vstd::prelude::*;

verus! {

/// Arguments of the sub-agent tool.
pub struct AgentArgs {
    pub query: String,
    pub subagent_type: Option<String>,
}

/// Schema of the sub-agent tool's arguments (JSON text).
pub const AGENT_SCHEMA: &'static str = "{\"type\":\"object\",\"properties\":{\"query\":{\"type\":\"string\",\"description\":\"The task for the sub-agent to perform. Include all necessary context and a detailed plan.\"},\"subagent_type\":{\"type\":\"string\",\"enum\":[\"explore\",\"plan\",\"verification\"],\"description\":\"The specialized type of sub-agent to launch. Leave empty for a general-purpose agent.\"}},\"required\":[\"query\"]}";

/// The sub-agent's report for `query`, run by a sub-agent of kind `kind`.
pub open spec fn agent_report(kind: Seq<char>, query: Seq<char>) -> Seq<char> {
    "Sub-Agent ("@ + kind + ") completed its task successfully.\n\nTask Query: "@ + query
        + "\n\n(Note: In a full Rust implementation, this would spawn an isolated async Agent loop, execute tools independently, and return a synthesized summary instead of this mock message.)"@
}

/// Launches a sub-agent for a large or specialised task.
pub struct AgentTool;

impl AgentTool {
    pub fn new() -> Self {
        AgentTool
    }

    pub fn name(&self) -> (r: &'static str)
        ensures
            r@ == "Agent"@,
    {
        "Agent"
    }

    pub fn description(&self) -> (r: &'static str)
        ensures
            r@ == "Launch a sub-agent to handle complex multi-step tasks autonomously. Use this when a task is large or requires a specialized sub-agent (like exploration, verification, or code review)."@,
    {
        "Launch a sub-agent to handle complex multi-step tasks autonomously. Use this when a task is large or requires a specialized sub-agent (like exploration, verification, or code review)."
    }

    pub fn input_schema(&self) -> (r: &'static str)
        ensures
            r@ == AGENT_SCHEMA@,
    {
        AGENT_SCHEMA
    }

    /// Runs the task (the sub-agent is simulated); the kind defaults to `general`.
    pub fn execute(&self, args: AgentArgs) -> (r: Result<String, String>)
        ensures
            r is Ok,
            r->Ok_0@ == agent_report(
                match args.subagent_type { Some(k) => k@, None => "general"@ },
                args.query@,
            ),
    {
        let kind = match args.subagent_type {
            Some(k) => k,
            None => String::from_str("general"),
        };
        let mut s = String::from_str("Sub-Agent (");
        s.append(kind.as_str());
        s.append(") completed its task successfully.\n\nTask Query: ");
        s.append(args.query.as_str());
        s.append("\n\n(Note: In a full Rust implementation, this would spawn an isolated async Agent loop, execute tools independently, and return a synthesized summary instead of this mock message.)");
        Ok(s)
    }
}

} // verus!
