# settlement

Uptime-based settlement for infrastructure nodes, verified with Verus.

An oracle vouches for uptime reports (in basis points) about nodes that its
administrator has authorized. The settlement contract keeps, per node, an
uptime threshold and an escrow; a verified report that meets the threshold
pays `escrow * uptime / 10000` (truncated), capped by the contract's token
balance, and every verified report records its timestamp and adds its uptime
to the node's total. A guard refuses a report while another is being settled.

Layout:

- `src/` — the verified library: addresses and address-keyed tables
  (`address.rs`, `address_map.rs`), the oracle (`oracle.rs`), node records and
  payout arithmetic (`node.rs`), the settlement contract (`settlement.rs`),
  whose report handling is a step function from an event (report submitted,
  oracle answered, balance read) to the next action for the host, and the
  model of its entries with the laws over whole reports and request sequences
  (`model.rs`).
- `app/` — the two ledger contracts: storage, authorization, the call to the
  oracle contract and token transfers, each decision delegated to the library.
- `tests/` — the contract scenarios run against an in-memory token, and the
  rules of each operation on concrete values.
