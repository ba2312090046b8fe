# grammers_session (peer identities)

Compact identifiers for Telegram peers, verified with Verus.

- `src/ids.rs`: the Bot API dialog ID ranges and the model of how a kind and a
  bare identifier are packed into one dialog ID.
- `src/peer.rs`: `PeerId` (whose invariant is that it holds a valid dialog ID),
  `PeerAuth`, `PeerRef`, `PeerInfo`, `PeerKind` and the error types.
- `src/tl.rs`: the fields of the Telegram API constructors that name peers.
- `src/convert.rs`: conversions between peer references and those constructors.
- `src/text.rs`: the decimal text of a `PeerId`.
- `src/laws.rs`: round-trip and partition properties, proved.
- `app/`: conversions to and from the `grammers_tl_types` types, the unchecked
  constructors over `NonZeroI64`, and the error types with their `Display` texts
  (through `snafu`).
