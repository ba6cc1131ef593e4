# aqueduct

The client side of a TCP tunnel. It reads its configuration from the
environment and the command line (asking for credentials where none are
given), logs in to a tunnel server over a TLS control connection, and for
every external user that the server announces, claims that user's
connection and copies it to a local service.

- `src/` is the verified library:
  - `config/` — reading host and service endpoints, ports and credentials
    (`config_handler`), the credential prompt as a step function, and the
    text helpers it rests on (`text`: trimming, splitting at `:`, reading a
    `u16`).
  - `message/` — messages and their frames: one version byte, one type
    byte, then the payload; at most 255 bytes, the limit of the one-byte
    length field that frames them on the wire.
  - `tunnel/` — the decisions of the control connection and of the proxy
    task: how to log in, what each server message leads to, the claim id of
    an external connection, and which disconnects are ordinary.
  - `outside.rs` — the calls into rustls-pki-types, base64, hmac/sha2, regex
    and `std::str::from_utf8`, with the contracts the library relies on.
- `app/` is the program around it: command-line parsing, environment,
  the interactive prompt, TLS, sockets, JSON payloads and logging.
- `tests/` run the library against concrete values.
