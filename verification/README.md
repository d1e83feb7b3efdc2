# reverse-proxy

A reverse proxy (NAT traversal) over QUIC. A client exposes local TCP or UDP
services through a server: each configured service becomes a mapping on a
remote port of the server.

Layout:

- `src/` — the verified core, checked by Verus:
  - `msg.rs`: the framing of tunnelled datagrams (address kind, octets,
    big-endian port, payload), with proofs that decoding and encoding undo
    each other;
  - `config.rs`: the configuration types, the protocol names and codes, the
    length-prefixed handshake frame and the heartbeat byte;
  - `nat_table.rs`: the client's table of UDP relays, keyed by remote peer;
  - `addr.rs`: socket addresses as the header carries them;
  - `convert.rs`: conversions of absent values and foreign errors into I/O
    errors;
  - `pem.rs`: the TLS certificate chain and private key read from PEM
    bytes through quinn, tied to what the PEM reader yields;
  - `buf.rs`: the contracts of the `bytes` buffer methods the framing uses.
- `app/` — the program: command line, configuration files, QUIC endpoints,
  sockets and tasks (tokio, quinn, serde, log4rs).
- `tests/` — tests of the library.
