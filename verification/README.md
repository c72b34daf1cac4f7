# presidium_core

The core of a decentralised, end-to-end encrypted P2P messenger, written in
Verus: the domain model (identifiers, message content, users, devices,
messages, chats, the `Conversation` aggregate, domain events and errors), the
data and errors of the application ports, the decisions of the send-message
use case and the typed configuration, each with a contract proved by Verus.

Layout:

- `src/` — the verified library.
  - `domain/` — value objects, entities, the `Conversation` aggregate with its
    laws, events and errors.
  - `application/` — the ports' data and errors, and the send-message use case
    as decision functions from each port answer to the next step.
  - `config/` — configuration sections and their defaults.
  - `infrastructure/` — the adapter types.
  - `render.rs` — decimal and UUID text, stated exactly.
  - `platform.rs` — the wrappers around the clock and the `uuid` crate.
- `tests/` — the test suite.
- `app/` — the asynchronous ports and their adapter implementations, the
  driver of the send-message use case, configuration loading with `figment`
  and tracing set-up with `tracing-subscriber`.
