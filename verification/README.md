# kinnector_config

A verified library for loading and querying signed security-policy rules
databases, written in Verus.

A database file is a 64-byte Ed25519 signature, a little-endian version,
release time and payload length, and a FlatBuffers payload of rule tables.
The library checks the framing and the signature, builds the rule tables
from the decoded payload and from the JSON lists of the configuration
directory, and answers the rule queries of a telemetry engine.

## Layout

- `src/` — the verified library
  - `header.rs` — the 80-byte header, framing of a database file, and the
    read-back property of the framing
  - `crypto.rs` — Ed25519 through `ed25519_dalek` (the trusted items)
  - `database.rs` — signature checking and signing of database files
  - `text.rs` — character-level matching and path normalization
  - `category.rs` — categories, their bits and their policy names
  - `model.rs` — sequence and map models of the tables, with their lemmas
  - `payload.rs` — decoded payload and JSON lists as plain values
  - `state.rs` — the rule tables, how they are built, and the queries
  - `manager.rs` — the configuration manager, loading and reloading
  - `policy.rs` — policy files and their combination into a payload
  - `sources.rs` — where the JSON lists are looked for
  - `json.rs` — JSON documents (parsed with `serde_json`) and the lists and
    maps read from them
  - `laws.rs` — properties that span several operations
- `tests/` — tests of the library
- `app/` — file reading, the FlatBuffers schema tables, the policy
  compiler and database generator, thread-shared hot reloading and the C API
