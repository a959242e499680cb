# nat_lab

A verified library for a NAT traversal comparison lab. Two endpoints sit behind
separate simulated NATs, reach each other through a local relay, and may or may
not move to a direct path. The lab compares the traversal opt-in against the
disabled default.

| Server traversal | Client traversal | UDP | Expected path | Transfer after relay cutoff |
| --- | --- | --- | --- | --- |
| Off | Off | Allowed | Relay | Fails |
| Off | On | Allowed | Relay | Fails |
| On | Off | Allowed | Relay | Fails |
| On | On | Allowed | Direct IP | Succeeds |
| On | On | Blocked on client | Relay | Fails |

Two further cases have no relay at all and must not connect.

- `src/` decides: which cases run (`case`, `run`), what each part of a case does
  next (`coordinator`, `client`, `server`, `no_relay`), what counts as a direct
  path or an intact payload (`path`, `transfer`), which networks are built
  (`topology`, `relay`, `endpoint`, `address`), and what is reported (`report`,
  `document`). `client_laws` and `lab_laws` state what holds of every run.
- `app/` performs: `main.rs` is the lab, for Linux with user namespaces, `ip`,
  `nft` and `tc`; `relay_helper.rs` is the relay, whose path goes into
  `ZAKURA_NAT_RELAY`.
- `tests/` runs the library on concrete values.

Hashing is done by `blake2b_simd` and JSON by `serde_json`. What the library
takes on trust from them stands in the contracts of the functions marked
`external_body`.
