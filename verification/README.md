# fzstream-client

A client library for a QUIC event stream of Solana chain events, with its logic verified
by Verus.

- `src/` is the verified library: connection status and session decisions (reconnection
  attempts, health checks, authentication failures), endpoint address parsing, LZ4/Zstd
  payload compression, event classification and metadata completion, handler dispatch,
  event statistics, client configuration profiles, and the performance helpers
  (exponential reconnection backoff, batching, a bounded FIFO event buffer, traffic
  counters, a round-robin connection pool). Calls into `lz4`, `zstd`, `crossbeam-queue`,
  `url` and std's clock go through small trusted wrappers whose contracts are stated in
  their doc comments.
- `app/` is the networked client around it: QUIC and TLS setup (`quinn`, `rustls`), the
  async receive and reconnection loops (`tokio`), the wire formats (`serde`, `bincode`,
  `serde_json`), decoding of chain events, and the statistics that need floating point.
- `tests/` exercises the library, including the properties its contracts state.
