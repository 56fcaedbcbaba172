# streamdeck_plugin

A Stream Deck plugin SDK for WebSocket plugins, with its logic verified by Verus.

- `src/` is the verified library:
  - `json`, `decode`, `text`, `keyed`: JSON documents and their accessors, the
    reading of records out of documents (absent fields take their defaults),
    text helpers, and a map keyed by text with distinct keys.
  - `protocol`: launch arguments, inbound events and payloads, the outbound
    command envelope and every command, Base64 image URLs, and the decisions of
    the connection loop.
  - `plugin`: the action registry (UUIDs compared without regard to letter
    case), the routing of each inbound message to plugin-wide hooks or to live
    action instances, the manifest UUID comparison, and the log lines sent to
    Stream Deck.
  - `sample`: the counter sample's settings, messages, titles and count changes.
  - `laws`: properties that span several operations (wire round trips, the
    shape of Base64 text, routing only to live instances, and others).
- `app/` is the runtime around it: the Tokio WebSocket transport, the async host
  that runs action handlers, JSON text parsing and writing, logging to a file,
  finding the manifest on disk, and the sample's action implementations.
- `tests/` runs the library on concrete inputs.
