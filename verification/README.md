# null_chat

The core of Null Chat, a post-quantum, Double-Ratchet messenger that runs over
Tor, written in Verus: every function of the library states what it returns
or changes (where a result is drawn from chance or the clock, what is made
of the drawn value), and Verus proves it.

## Layout

- `src/crypto/` — key derivation (HKDF/HMAC over SHA3-256), the hybrid
  X25519 + Kyber-1024 key encapsulation, identities (Ed25519 and SHA3-256
  fingerprints), the store of skipped message keys and the Double Ratchet.
  `primitives.rs` holds every call into the cryptography crates, each behind
  one trusted item; results that take pages to state are named by
  uninterpreted spec functions.
- `src/protocol/` — the session protocol (handshake messages, envelopes) and
  the Discord and Matrix gateways.
- `src/network/` — traffic padding and delays, the Tor proxy's state, and the
  peer-to-peer link: message framing, the torrc text and the order in which
  a link is tried.
- `src/storage/` — the vault's key derivation, salt file text and record
  sealing, and the passes of a secure file wipe.
- `src/ui/` — the command center's state and actions, and what its panels
  show.
- `src/backend/` — the messaging backend: its state (profile, friends and
  conversations, groups, servers with channels and bans, unread counters),
  what a peer's message does to it, the step of every command of the window
  (with the sends it asks for), the checks around opening the vault and
  starting Tor, and the picture of the state that the window is sent.
- `src/model.rs`, `src/text.rs`, `src/panic_engine.rs` — the data model and
  its display helpers, text helpers, and the memory scrubbing of the panic
  shortcut.
- `app/` — the program around the library: the iced window, the backend's
  JSON-lines server for a separate window process, Tor and peer-to-peer I/O
  with tokio, the LMDB database of the vault, file wiping,
  and the JSON forms of the messages.
- `tests/` — tests of the library on concrete values.

The public proof functions named `law_*` state properties that relate
several operations, such as that every message a sender encrypts decrypts
at its receiver over a whole conversation in any order of delivery
(`crypto/conversation.rs`), that consecutive encryptions count up on one
key; that a refused command of the backend changes
nothing and sends nothing; and that the salt
file's text reads back as the salt it was written from.
