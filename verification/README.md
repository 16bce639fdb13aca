# vulcan_agent

The core of the Vulcan coding agent, verified with Verus.

`src/` is the library. Its functions are proved against their contracts,
except the few that call outside code (the clock, random identifiers,
chrono's RFC 3339 reading and writing, error display and `String::push`):
those state what they claim in their doc comments and are trusted.

- `event`, `session`, `ids`, `time`: the domain types (events, sessions,
  messages) and the construction of new events.
- `projector`: rebuilds a session from its event stream; the contract
  defines each part of the projection over the events, and
  `law_projection_of_concatenation` shows that projecting a stream in two
  parts agrees with projecting it whole.
- `registry`: the tool registry, viewed as a map from names to
  descriptors, with the laws of registration and lookup.
- `storage`, `migration`: the decisions of the SQLite event store (the
  outcome of an append, the label of an event kind, the conversion between
  events and their stored columns, which schema migrations to apply).
- `settings`: the reader of the settings file, a small subset of TOML,
  defined line by line over its text.
- `config`, `state`, `skills`, `llm`, `error`: configuration defaults and
  loading, application state, the skills loader, the provider interface
  and the error types with their messages.

`app/` is the program around it: the command line, reading the settings
file, the SQLite event store and migrations (through `rusqlite`), the JSON
encoding of event payloads (through `serde_json`) and the asynchronous
provider interface.
