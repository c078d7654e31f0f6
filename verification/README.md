# rust_coding_agent

A terminal coding agent whose decision logic is a verified library.

- `src/` is the library, checked by Verus: the conversation and session state,
  the slash commands of the prompt, the approval policy, the tool registry,
  the tools' answers (file reading and listing, editing, shell and fetch
  results, grep and web-search reports, memory and to-do lists), MCP server
  state, hooks, settings, persistence naming, text truncation and SSE parsing.
  Every public function carries a contract; the `law_*` proof functions state
  properties that span several calls.
- `app/` is the program around it: argument parsing, reading and writing
  files, running commands, HTTP, and the terminal loop.
- `tests/` exercises the library on concrete values.
