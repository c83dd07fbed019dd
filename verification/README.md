# claude_code_rs

A terminal coding assistant: a chat loop with a language model, a set of tools
the model may call (files, shell, search, tasks, MCP servers), slash commands,
memory files, rate-limit and cost tracking, and a terminal UI.

Layout:

- `src/` is the verified library (Verus). It holds the decisions and text of
  every tool, command, service and UI state transition, each with a contract
  over spec models (`Seq`, `Map`, views), and the laws that relate them
  (`law_*` proof functions). Calls into outside crates stand behind small
  trusted wrappers whose doc comments say what is believed of them.
- `app/` is the unverified shell around it: argument parsing, the async
  runtime, HTTP, processes, the file system, the terminal, and serde types.
  It performs the I/O and hands plain values to the library.
- `tests/` exercises the library on concrete inputs.
