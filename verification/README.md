# gilvave

The core of the Gilvave chat server, written in Verus. The functions under
`src/` carry contracts that Verus proves, except the small wrappers marked
`#[verifier::external_body]` around the outside crates (decancer, argon2,
sha2, hex, base64, image, the operating system's random source) and a few std
calls: their contracts are assumed, and each one's doc comment says what it
claims of the outside code.

- `validation` — user-name rules (length, control/space/bidirectional/invisible
  characters, zalgo, one alphabet) and chat-message sanitizing and validation,
  with the laws they keep; look-alike user names via `decancer`.
- `security` — where a request's access token is found, and the decisions after
  each check of it.
- `gateway` — what the WebSocket gateway does with each client frame.
- `password`, `tokens` — Argon2 password hashes, refresh tokens and their
  SHA-256 digests.
- `avatar` — avatar upload checks and WebP re-encoding.
- `error`, `storage`, `dto`, `model`, `event`, `ids`, `messaging` — errors and
  their HTTP answers, object URLs, and the data types.
- `text` — whitespace, control characters and trimming as the standard library
  defines them.

`app/` is the server around the library (HTTP, WebSocket, Postgres, RabbitMQ,
Redis); `tests/` runs the library on concrete values.
