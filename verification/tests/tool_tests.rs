use claude_code_rs::tools::agent::{AgentArgs, AgentTool};
use claude_code_rs::tools::ask_user::{AskUserQuestionArgs, AskUserQuestionTool, Question, QuestionOption};
use claude_code_rs::tools::bash::BashTool;
use claude_code_rs::tools::brief::{debug_string_list, BriefArgs, BriefTool};
use claude_code_rs::tools::config::{ConfigArgs, ConfigTool};
use claude_code_rs::tools::file_ops::edit::FileEditTool;
use claude_code_rs::tools::file_ops::glob::GlobTool;
use claude_code_rs::tools::file_ops::grep::{limit_matches, GrepStep, GrepTool, ProcessOutput};
use claude_code_rs::tools::file_ops::read::FileReadTool;
use claude_code_rs::tools::file_ops::write::FileWriteTool;
use claude_code_rs::tools::lsp::{LspArgs, LspTool};
use claude_code_rs::tools::notebook::{default_edit_mode, NotebookEditArgs, NotebookEditTool};
use claude_code_rs::tools::sleep::{SleepArgs, SleepTool};
use claude_code_rs::tools::tool_search::{ToolSearchArgs, ToolSearchTool};
use claude_code_rs::tools::web_fetch::WebFetchTool;
use claude_code_rs::tools::web_search::{WebSearchArgs, WebSearchTool};

fn schema_is_json(s: &str) -> serde_json::Value {
    serde_json::from_str(s).unwrap()
}

#[test]
fn schemas_are_valid_json() {
    let v = schema_is_json(AskUserQuestionTool::new().input_schema());
    assert_eq!(v["properties"]["questions"]["maxItems"], 4);
    assert_eq!(schema_is_json(AgentTool::new().input_schema())["required"][0], "query");
    assert_eq!(schema_is_json(BashTool::new().input_schema())["required"][0], "command");
    assert_eq!(schema_is_json(BriefTool::new().input_schema())["required"][1], "status");
    assert_eq!(schema_is_json(ConfigTool::new().input_schema())["required"][0], "setting");
    assert_eq!(schema_is_json(LspTool::new().input_schema())["properties"]["operation"]["enum"][8], "outgoingCalls");
    assert_eq!(schema_is_json(NotebookEditTool::new().input_schema())["properties"]["edit_mode"]["enum"][2], "delete");
    assert_eq!(schema_is_json(SleepTool::new().input_schema())["required"][0], "duration_ms");
    assert_eq!(schema_is_json(ToolSearchTool::new().input_schema())["required"][0], "query");
    assert_eq!(schema_is_json(WebFetchTool::new().input_schema())["required"][0], "url");
    assert_eq!(schema_is_json(WebSearchTool::new().input_schema())["required"][0], "query");
    assert_eq!(schema_is_json(GlobTool::new().input_schema())["required"][0], "pattern");
    assert_eq!(schema_is_json(FileReadTool::new().input_schema())["required"][0], "file_path");
    assert_eq!(schema_is_json(FileWriteTool::new().input_schema())["required"][1], "file_text");
    assert_eq!(schema_is_json(FileEditTool::new().input_schema())["required"][2], "new_str");
}

#[test]
fn agent_tool_reports_task() {
    let t = AgentTool::new();
    assert_eq!(t.name(), "Agent");
    let r = t.execute(AgentArgs { query: "map the repo".to_string(), subagent_type: None }).unwrap();
    assert!(r.starts_with("Sub-Agent (general) completed its task successfully.\n\nTask Query: map the repo\n\n(Note:"));
    let r = t.execute(AgentArgs { query: "q".to_string(), subagent_type: Some("explore".to_string()) }).unwrap();
    assert!(r.starts_with("Sub-Agent (explore) completed"));
}

fn opt(label: &str) -> QuestionOption {
    QuestionOption { label: label.to_string(), description: "d".to_string(), preview: None }
}

#[test]
fn ask_user_takes_first_choices() {
    let t = AskUserQuestionTool::new();
    assert_eq!(
        t.execute(&AskUserQuestionArgs { questions: vec![] }),
        Err("At least one question must be provided".to_string())
    );
    let args = AskUserQuestionArgs {
        questions: vec![
            Question { question: "Which db?".to_string(), header: "DB".to_string(), options: vec![opt("Postgres"), opt("SQLite")], multi_select: false },
            Question { question: "Name?".to_string(), header: "N".to_string(), options: vec![], multi_select: true },
        ],
    };
    assert_eq!(
        t.execute(&args),
        Ok("User has answered your questions: \"Which db?\"=\"Postgres\", \"Name?\"=\"No options provided\". You can now continue with the user's answers in mind.".to_string())
    );
}

#[test]
fn brief_lists_attachments_like_debug() {
    let t = BriefTool::new();
    let args = BriefArgs {
        message: "done".to_string(),
        attachments: Some(vec!["a.log".to_string(), "b \"c\"".to_string()]),
        status: "normal".to_string(),
    };
    let expected = format!(
        "Brief successfully sent to the user (Status: normal).\n\nMessage content: done\n\nAttachments: {:?}",
        vec!["a.log", "b \"c\""]
    );
    assert_eq!(t.execute(&args), Ok(expected));
    let none = BriefArgs { message: "m".to_string(), attachments: Some(vec![]), status: "proactive".to_string() };
    assert_eq!(t.execute(&none), Ok("Brief successfully sent to the user (Status: proactive).\n\nMessage content: m".to_string()));
    assert_eq!(debug_string_list(&vec![]), "[]");
}

#[test]
fn config_reads_and_writes() {
    let t = ConfigTool::new();
    assert_eq!(
        t.execute(&ConfigArgs { setting: "theme".to_string(), value: Some("\"dark\"".to_string()) }),
        Ok("Successfully updated configuration 'theme' to '\"dark\"'.".to_string())
    );
    assert_eq!(
        t.execute(&ConfigArgs { setting: "theme".to_string(), value: None }),
        Ok("Configuration 'theme' is currently set to a default/mock value.".to_string())
    );
}

#[test]
fn lsp_reports_operation() {
    let r = LspTool::new()
        .execute(&LspArgs { operation: "hover".to_string(), file_path: None, line: Some(3), character: None })
        .unwrap();
    assert!(r.starts_with("Mock LSP Result: Operation 'hover' executed successfully. \n(Note:"));
}

#[test]
fn sleep_is_capped_at_a_minute() {
    let t = SleepTool::new();
    assert_eq!(t.duration_for(&SleepArgs { duration_ms: 70000 }), 60000);
    assert_eq!(t.duration_for(&SleepArgs { duration_ms: 60000 }), 60000);
    assert_eq!(t.duration_for(&SleepArgs { duration_ms: 5 }), 5);
    assert_eq!(t.finished_reply(60000), "Finished sleeping for 60000 milliseconds.");
}

#[test]
fn tool_search_select_and_search() {
    let t = ToolSearchTool::new();
    assert_eq!(
        t.execute(&ToolSearchArgs { query: "select:select: Grep ".to_string(), max_results: None }),
        Ok("Successfully activated tool 'Grep'. It will be available for you to use in the next turn.".to_string())
    );
    let r = t.execute(&ToolSearchArgs { query: "git".to_string(), max_results: Some(2) }).unwrap();
    assert!(r.starts_with("Search query 'git' completed.\n\nFound matches:\n- 'GitCommit' (Deferred)"));
}

fn nb(path: &str, id: Option<&str>, mode: &str) -> NotebookEditArgs {
    NotebookEditArgs {
        notebook_path: path.to_string(),
        cell_id: id.map(|s| s.to_string()),
        new_source: "x = 1".to_string(),
        cell_type: None,
        edit_mode: mode.to_string(),
    }
}

#[test]
fn notebook_edit_modes() {
    let t = NotebookEditTool::new();
    assert_eq!(default_edit_mode(), "replace");
    assert_eq!(t.execute(&nb("a.py", None, "replace")), Err("File must be a Jupyter notebook (.ipynb file)".to_string()));
    assert_eq!(t.execute(&nb("n.ipynb", None, "replace")), Ok("Successfully replaced cell unknown in n.ipynb".to_string()));
    assert_eq!(t.execute(&nb("n.ipynb", None, "insert")), Ok("Successfully inserted new cell after start in n.ipynb".to_string()));
    assert_eq!(t.execute(&nb("n.ipynb", Some("c2"), "delete")), Ok("Successfully deleted cell c2 in n.ipynb".to_string()));
    assert_eq!(t.execute(&nb("n.ipynb", Some("c2"), "move")), Err("Unknown edit mode: move".to_string()));
}

#[test]
fn web_fetch_shows_page() {
    let t = WebFetchTool::new();
    assert_eq!(t.reply("page", ""), "page");
    assert_eq!(t.reply("page", "summarize"), "Prompt applied: summarize\n\nContent:\npage");
    let long = "x".repeat(60000);
    assert!(t.can_show(&long));
    let shown = t.reply(&long, "");
    assert_eq!(shown, format!("{}\n\n...(Content truncated due to length)...", "x".repeat(50000)));
    let awkward = format!("{}\u{e9}", "x".repeat(49999)) + &"y".repeat(10);
    assert!(!t.can_show(&awkward));
    assert_eq!(t.status_error(404, Some("Not Found")), "HTTP Error 404: Not Found");
    assert_eq!(t.status_error(599, None), "HTTP Error 599: Unknown");
    assert_eq!(t.fetch_failure("http://x"), "Failed to fetch URL: http://x");
}

#[test]
fn web_search_mock_results() {
    let r = WebSearchTool::new()
        .execute(&WebSearchArgs { query: "rust".to_string(), allowed_domains: None, blocked_domains: None })
        .unwrap();
    assert!(r.starts_with("Web search results for query: \"rust\"\n\n1. [Example Search Result 1]"));
    assert!(r.ends_with("using markdown hyperlinks."));
}

#[test]
fn bash_report_formats_streams() {
    let t = BashTool::new();
    assert_eq!(t.report("  out \n", "", true, "exit status: 0"), "STDOUT:\nout\n");
    assert_eq!(t.report("", "err\n", false, "exit status: 2"), "STDERR:\nerr\n");
    assert_eq!(t.report("o", " e ", true, "exit status: 0"), "STDOUT:\no\n\nSTDERR:\ne\n");
    assert_eq!(t.report(" \n", "", true, "exit status: 0"), "Command executed successfully with no output.");
    assert_eq!(t.report("", "", false, "exit status: 1"), "Command failed with exit code: exit status: 1");
    assert_eq!(t.launch_failure("ls"), "Failed to execute bash command: ls");
}

#[test]
fn file_tools_replies() {
    assert_eq!(FileWriteTool::new().reply("h\u{e9}llo", "f.txt"), "Successfully wrote 6 bytes to f.txt");
    let legacy = claude_code_rs::tools::file::FileEditTool::new();
    assert_eq!(legacy.edit("a b a", "a", "c"), Ok("c b c".to_string()));
    assert_eq!(legacy.edit("abc", "z", "c"), Err("The target string 'old_str' was not found in the file.".to_string()));
    let edit = FileEditTool::new();
    assert_eq!(
        edit.edit("abc", "z", "c"),
        Err("The target string 'old_str' was not found in the file. Make sure indentation matches exactly.".to_string())
    );
    assert_eq!(edit.edit("ab", "", "-"), Ok("-a-b-".to_string()));
    assert_eq!(edit.reply("/p"), "Successfully edited /p");
    assert_eq!(claude_code_rs::tools::file::FileReadTool::new().name(), "file_read");
    assert_eq!(claude_code_rs::tools::file::FileWriteTool::new().reply("abc", "o"), "Successfully wrote 3 bytes to o");
    assert_eq!(FileReadTool::new().read_failure("/x"), "Failed to read file: /x");
}

#[test]
fn glob_pattern_and_listing() {
    let t = GlobTool::new();
    assert_eq!(t.full_pattern("/d", "*.rs"), "/d/*.rs");
    assert_eq!(t.full_pattern("/d", "/x/*.rs"), "/d/x/*.rs");
    assert_eq!(t.listing(vec![]), "No files found");
    assert_eq!(t.listing(vec![("a".to_string(), 5), ("b".to_string(), 5)]), "a\nb");
    assert_eq!(
        t.listing(vec![("old".to_string(), -3), ("new".to_string(), 9), ("mid".to_string(), 4), ("mid2".to_string(), 4)]),
        "new\nmid\nmid2\nold"
    );
    let many: Vec<(String, i128)> = (0..101).map(|i| (format!("f{}", i), 1000 - i as i128)).collect();
    let out = t.listing(many);
    let lines: Vec<&str> = out.split('\n').collect();
    assert_eq!(lines.len(), 101);
    assert_eq!(lines[99], "f99");
    assert_eq!(lines[100], "(Results are truncated. Consider using a more specific path or pattern.)");
}

fn ran(success: bool, code: Option<i32>, stdout: &str, stderr: &str) -> Result<ProcessOutput, String> {
    Ok(ProcessOutput { success, code, stdout: stdout.to_string(), stderr: stderr.to_string() })
}

#[test]
fn grep_limits_lines() {
    assert_eq!(limit_matches(""), "No matches found");
    assert_eq!(limit_matches("a:1:x\nb:2:y\n"), "a:1:x\nb:2:y\n");
    let many: String = (0..250).map(|i| format!("f:{}:m\n", i)).collect();
    let out = limit_matches(&many);
    let lines: Vec<&str> = out.split('\n').collect();
    assert_eq!(lines.len(), 201);
    assert_eq!(lines[199], "f:199:m");
    assert_eq!(lines[200], "(Results are truncated. Consider using a more specific pattern or path.)");
}

#[test]
fn grep_decisions() {
    let t = GrepTool::new();
    assert_eq!(
        t.ripgrep_args("fn main", &Some("*.rs".to_string()), "/src"),
        vec!["-n", "-H", "--no-heading", "-g", "*.rs", "fn main", "/src"]
    );
    assert_eq!(t.ripgrep_args("x", &None, "/s"), vec!["-n", "-H", "--no-heading", "x", "/s"]);
    assert!(matches!(t.after_ripgrep(&ran(true, Some(0), "a:1:x\n", "")), GrepStep::Done(Ok(s)) if s == "a:1:x\n"));
    assert!(matches!(t.after_ripgrep(&ran(false, Some(1), "", "")), GrepStep::Done(Ok(s)) if s == "No matches found"));
    assert!(matches!(t.after_ripgrep(&ran(false, Some(2), "", "rg: /x: No such file or directory (os error 2)")), GrepStep::RunFallback));
    assert!(matches!(t.after_ripgrep(&ran(false, Some(2), "", "regex parse error")), GrepStep::Done(Err(e)) if e == "Grep execution failed: regex parse error"));
    assert!(matches!(t.after_ripgrep(&Err("not found".to_string())), GrepStep::Done(Err(e)) if e == "Failed to execute ripgrep/grep: not found"));
    assert_eq!(t.after_fallback(&ran(true, Some(0), "m\n", "")), Ok("m\n".to_string()));
    assert_eq!(t.after_fallback(&ran(false, Some(1), "", "")), Ok("No matches found".to_string()));
    assert_eq!(t.after_fallback(&Err("spawn".to_string())), Err("Failed to execute grep fallback".to_string()));
    assert_eq!(t.missing_path("/nope"), "Directory or file does not exist: /nope");
}
