# onebot_connect

Connections between OneBot applications and OneBot implementations: HTTP,
HTTP polling, webhooks, WebSocket and reverse WebSocket for OneBot 12, the
OneBot 11 HTTP, HTTP POST and WebSocket connections, a file storage for
uploads, and a bridge from an application connection to implementation
connections.

## Layout

- `src/` is the library, verified with Verus. It holds what the connections
  decide and keep: the response model and return codes, response arguments,
  access-token, content-type and signature checks of HTTP servers, the lossy
  event channel, the polling buffers and event queues, echo assignment, the
  file storage's records and upload steps, the webhook's answers, how
  OneBot 11 answers and frames are read, and the laws that relate them.
  It also holds the OneBot 11 action, segment and response plans that a
  conversion between OneBot 11 and OneBot 12 follows; the conversion itself
  needs the `onebot-types` crate, which is not available, so no connection
  calls the plans and the OneBot 11 connections carry OneBot 11 JSON.
  `src/outside.rs` holds the trusted declarations through which the library
  calls `http`, `hmac`, `sha1`, `hex`, `rand`, `uuid` and `serde_value`; `src/common/storage.rs` declares `dashmap::DashMap`.
- `app/` is the runtime around the library: the traits user code implements,
  the tokio tasks, the hyper server, the WebSocket tasks, the HTTP clients and
  file I/O, and the serde forms of the library's types.
- `tests/` runs the library on concrete values.
