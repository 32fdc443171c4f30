# DuckPilot

A local data-analysis agent: DuckDB loads the project's data files as tables, and a
language model answers questions about them by calling tools that query the tables.

The logic is a library verified with Verus (`src/`):

- `agent` — the tool-using agent: when to ask the model, which tool calls to run,
  what goes into the conversation, the step limit, repeated-call warnings.
- `llm` — the chat request, the reading of the streamed (server-sent events) answer,
  and the SQL taken out of an answer.
- `message`, `json` — conversation messages and JSON documents as plain values.
- `tool`, `tool_run` — the tools, their registry and schemas, argument checks, the
  SQL they run and the answers they write.
- `engine_plan` — how data files become tables: readers tried in turn, fallbacks,
  and the statements run on DuckDB.
- `screen`, `ui`, `mouse`, `widgets` — the interactive screen as a state machine: keys,
  commands, mouse scrolling, where the panels go and what they show.
- `config`, `cli`, `models`, `text` — settings, the command line, shared data, text.

`app/` holds the program around it: files, terminal, network and the DuckDB
connection. `tests/` runs the library on concrete values.
