# hermes_agent_wizard

A terminal launcher and chat front end for the Hermes agent. The library (`src/`) holds
the wizard's logic, verified with Verus:

- `wizard`: the wizard's state, and how it answers keys, replies of the model and log reads
  (`App::handle_key`, `App::receive_reply`, `App::set_log_lines`), each against a spec
  state machine (`key_step`, `reply_step`, `log_tail`).
- `agent`: messages, the chat agent and one turn of a conversation.
- `config`: the Hermes configuration and the service address and model taken from it.
- `launch`: the Hermes directory, its files, and the commands of the launcher.
- `screen`: the text that each view shows: tab and panel titles, key help, dashboard
  lines (including the toolsets and whether the Hermes directory is present), chat
  entries, the input box and the launcher entries.
- `cli`: the help flag.
- `laws`: properties across calls (tab and launcher cycles, invariants, chat turns).
- `text`: the std string and path operations that the rest builds on.

`app/` is the program: terminal, drawing with ratatui, files, HTTP and processes.
