# cosmic_gfwd

The decisions of a firewalld front end, verified with Verus: validation of
ports, addresses, interfaces and IP-set entries; rich-rule generation; the
decoding of zone-settings dictionaries and the comparison of permanent and
runtime settings; the sidebar, dialog, zone, IP-set, catalog and
reconciliation state machines; the root that routes their requests; the
configuration-watch session and its reconnection backoff.

Layout:

- `src/` — the verified library. Each feature module holds its state, its
  messages and a reducer whose contract states the new state and the work it
  hands on; `root.rs` applies the features' requests to the state the
  application owns; `settings.rs`, `reconciliation.rs`, `presentation.rs` and
  `review.rs` decode, compare and present zone settings.
- `tests/` — scenarios run against the compiled library.
- `app/` — a small command-line program that reads zones and zone settings
  from firewalld over the system bus and prints what the library decides.
