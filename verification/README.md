# open_cc

The verified core of a terminal coding assistant, written in Verus.

- `src/` is the library. Every function in it carries a contract that Verus
  proves: the conversation types, the built-in tools and the decisions
  their calls make (what a shell run, a search, a file edit or a web fetch
  reports), the tool registry, the teammates' mailbox, the task store, and
  the state, key handling and views of the terminal interface.
  `src/ext.rs` and a few wrappers in `src/text.rs` are the trusted edge:
  each states what it assumes of the outside crate or std function it
  calls.
- `tests/` exercises the library on concrete values.
- `app/` is ordinary Rust around the library: the asynchronous tool
  interface, processes, files, the network, the terminal drawing, and the
  serialised forms of the library's types.

Display names (the product, the assistant, its maker, the account site and
the default model) are parameters of the library; `app/branding.rs` reads
them from the environment.

## Built-in tools

The registry holds 40 built-in tools, listed in order by `builtin_entries`
in `src/tools/builtin.rs`. Ten further tools of the assistant have no
implementation in this project, because their code is not available to it:
send_user_message, ask_question, config_tool, send_user_file,
terminal_capture, monitor, overflow_test, review_artifact, web_browser and
workflow. The tests therefore count 40 built-in tools where the full
assistant has 50.
