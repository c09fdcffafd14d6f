# desox

A partial implementation of the MIFARE DESFire protocol, written in Verus:
the wire encodings, the cryptographic session shared with the card, the
mutual authentication handshake, and the meaning of every command and reply
are executable Rust with `requires` / `ensures` contracts that Verus proves.

## Layout

- `src/` — the verified library.
  - `status_code`, `instruction`, `key`, `key_count`, `key_settings`,
    `permissions`, `file`, `u24`, `version_info`, `padding`: wire encodings,
    each with its round-trip laws.
  - `crc`: DESFire's CRC-32 (over `crc32fast`) and checksum checking.
  - `crypto`: CBC encryption and decryption (over the `cbc`, `des` and `aes`
    crates), the session `Scheme`, and the CMAC subkey derivation.
  - `keying`: the keying state shared with the card, CMAC signing and
    checking.
  - `handshake`: the authentication handshake (RndA / RndB) and the session
    key it derives.
  - `io`: the exchanges as state machines — plain, encrypted, and the
    protected exchanges of an authenticated session — and the replaying
    `MockBackend`.
  - `commands`: how each card command is laid out, and what each reply
    means.
  - `card`, `session`: the card handle and its authentication state.
- `app/` — the asynchronous side: the `Backend` transport trait and its
  implementations, the loops that drive the library's exchanges over a
  backend, and the card commands as `async` methods.
- `tests/` — tests on recorded card traffic and on the laws' concrete cases.
