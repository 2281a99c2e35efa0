# konstruct

The logic of a terminal client for the Konstruct messenger, verified with Verus.

The library under `src/` decides; the program under `app/` performs. Wherever the client
alternates between deciding and waiting for the outside (the network, the disk, the terminal, the
encryption core), the library holds a state machine: it says what to do next, the program does it
and reports back.

| Module | What it decides |
|--------|-----------------|
| `invite` | invites: the signed text, the binary form, links, expiry, minting |
| `knst`, `proto` | the frame around a plaintext, and the messages inside it |
| `grpc` | framing, status and headers of replies, retries, the services' replies, the pump of the message stream |
| `envelope` | envelopes to and from the server, sealed senders |
| `streaming` | the watermark of the stream, routing, back-off, the worker that keeps the stream open |
| `orchestrator_task` | the actor around the encryption core: what its actions come to, and in which order |
| `startup` | bringing the core up after sign-in, passing stream events on |
| `auth` | registering or linking a device, signing in again |
| `app`, `screens` | the screens: what keys and background messages do, what is drawn and where |
| `storage`, `config`, `bridge`, `orchestration`, `event`, `clock` | the data that these share |
| `text`, `encoding`, `signing` | strings, hexadecimal, Base64, UUIDs, Ed25519 |

Each function's contract says what it returns, over mathematical models of its arguments. Laws
that span several functions are proof functions named `law_…`. What comes from outside crates
stands behind small wrappers whose contracts are trusted; their doc comments name the function
behind each.

The encryption core (`construct_core`) is a sibling checkout. Only `app/core.rs` calls it.

The program keeps the session in `session.enc` (Argon2id and AES-256-GCM) or, without encryption,
in `session.json`, both in the configuration directory. Messages, contacts and secrets stand in
`messages.enc` or `messages.json` in the data directory. `konstruct logout` removes all of it.
