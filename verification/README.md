# pointlock

A verified core for flows that act on real devices: the typed flow document and
its content hashes, the provider interface with a scripted fake and a conformance
suite, the DeviceRail provider, and the terminal and webhook channels to a human.

## Layout

- `src/ir` holds the flow document, its closed vocabularies and grammars, the
  canonical JSON text, the three content hashes, run paths, records and the run log.
- `src/kit` holds the provider interface: manifests, capability lockfiles, errors,
  the fake provider and the conformance suite as a machine of calls and replies.
- `src/devicerail` holds the DeviceRail provider: the handshake offer, lockfiles,
  drift reports, error classes, budgets, the log scan, and the session as decisions
  before and after each call on the wire.
- `src/human` holds pending requests, the reading of answers, and webhook signatures.
- `src/json.rs`, `src/keyed.rs`, `src/sets.rs`, `src/text.rs`, `src/order.rs`,
  `src/ids.rs` and `src/wire.rs` hold JSON values, ordered maps and sets, text, ids,
  and the JSON forms.
- `tests` runs the library. `app` is the asynchronous and I/O side: it makes the
  calls, reads and writes documents with `serde`, and generates the JSON Schema.

## What is proved

Every function states its result over mathematical models. Properties that span
functions are public proof functions whose names start with `law_`; most stand in
files that end in `_laws.rs`. Among them:

- writing a run path that was read gives back its text, reading one that was
  written gives back its frames, and what is read is always a canonical path;
- no `null` branch is left in the generated schema;
- equal scripts and equal calls on the fake provider give equal results;
- values in normal form with the same canonical text are the same, a canonical text
  without fractions is read back as its value, and the hash domains never share an
  input;
- each hash covers exactly its members, a change of one changes what is hashed, and
  so the hash, up to a collision of SHA-256;
- a call id is dispatched at most once, its fate stays as it is through later calls,
  an ended session refuses, and a log that cannot be read is never taken for one
  without the call;
- a session is opened only where the live world has the expected digest, and a
  failed opening is closed.

## What is trusted

Outside functions stand behind small wrappers whose contracts are believed:
`sha2`, `hmac`, `serde_json`, `uuid`, the integer types of `devicerail-client`, and
a few functions of the standard library. Digests, debug texts, parsed ids and read
JSON texts are only named.
