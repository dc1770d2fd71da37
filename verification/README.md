# mepassa

Verified core of a hybrid peer-to-peer messenger, written in Verus.

- `src/` is the library. Every function in it is verified against its
  contract. The calls it makes outside sit behind small trusted functions
  whose contracts say what the callee promises: the cryptographic crates
  (HKDF, AES-GCM, X25519, Ed25519, the random number generators), base64,
  the clock, `Path::join` and `String::push`.
  The storage envelope is framed in verified code, in bincode's layout
  for a (nonce, bytes) pair; a test checks it against bincode.
  - `primitives`, `signal`, `ratchet`, `storage_crypto`: AES-256-GCM
    envelopes, X3DH over X25519 prekeys, the symmetric ratchet, and the
    encrypted storage envelope.
  - `prekeys`, `sender_keys`: prekey pools and bundles, group sender keys
    and their store.
  - `protocol`, `message_handling`, `migrations`, `client_setup`: decisions
    of the client around the network and the database.
  - `media`, `video`, `playback`, `turn`, `ffi_types`, `call_signaling`,
    `call_registry`: media and call records, the playback sample queue,
    TURN credentials, FFI records, the dispatch of incoming call signals and
    the states of active calls.
  - `server`, `registration`: rate limits, push clients and configuration
    of the servers, and the check of a registration signature.
- `tests/` exercises the library with the real crates linked.
- `app/` holds what needs files, the environment, serialisation or
  floating point, and drivers that carry out the library's decisions.
