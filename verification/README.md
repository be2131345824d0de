# workflow_websocket

A platform-neutral WebSocket client (browser and native) and a native
WebSocket server, whose decisions are verified with Verus.

- `src/` is the verified library:
  - `client::message` — messages, control notifications, dispatch requests
    and their byte representation;
  - `client::state`, `client::event`, `client::settings`, `client::error` —
    ready states, lifecycle events, channel capacities and client errors;
  - `client::connection` — the connection state shared by the connection
    task, the dispatcher and the user's calls (connect, reconnect, close,
    disconnect, post, send);
  - `client::dispatch` — what the dispatcher writes to the socket and what
    it relays to the receive channel;
  - `client::browser` — how browser message and close events are read;
  - `server::session`, `server::error` — the decisions of one server
    connection and the errors that end it;
  - `foreign` — the outside types the library carries and how they are
    rendered as text.
- `app/` is the asynchronous runtime that performs the socket and channel
  I/O (tokio-tungstenite natively, the browser `WebSocket` under wasm32) and
  follows the library's decisions.
- `tests/` exercises the library on concrete values.
