# opencarpanel

A game-neutral car-dashboard host library whose behaviour is stated in Verus
contracts and proved.

- `src/telemetry` — the telemetry model, the frame-ordered reducer that merges
  partial updates into one snapshot, and its laws (stale frames never
  overwrite, frameless values are written, a new session clears stale state,
  an empty update changes nothing, sequences advance).
- `src/adapter` — adapter identities, ordered capability sets, output buffers
  and adapter errors.
- `src/f1` — EA F1 24/25 UDP decoding: headers, layouts, packet validation,
  player-entry extraction, mapping to telemetry updates, events, lap and DRS
  tracking.
- `src/scs` — the truck-game adapters' identities, capabilities and gear rules,
  the little-endian field reader over a bridge datagram, and the mapping of a
  decoded bridge packet to a telemetry update.
- `src/config` — layout documents, Host settings, settings JSON bounds,
  v0→v1 migration, repository paths, revisions and recovery decisions.
- `src/plugin` — plugin manifests and packages, decoder-output rules, the
  `wasmi` sandbox that loads a decoder module and calls its ABI exports, its
  module and response rules, discovery decisions and guest ABI framing.
- `src/protocol` — the Host/dashboard wire messages and their envelope rules.
- `src/text` — decimal, hexadecimal and quoted renderings used in messages.

`app/` holds what runs around the library: the serialized (`serde`) forms of
its values, file storage, the typed decode of a sandboxed decoder's
response, schema generation and the floating-point unit conversions of game
data.
