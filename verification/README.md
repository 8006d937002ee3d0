# candy_machine

A candy machine sells the tokens of an NFT collection in phases. Each phase has
a price, an end time, an allowlist (a first entry `*` admits anyone) and an
allocation: a buyer who already holds that many tokens is refused. A buyer pays
the price plus a 3% fee; the owner receives the payment less the fee, a fixed
collector receives the fee, and the NFT contract hands the next token over.

Layout:

- `src/` — the verified library (Verus):
  - `state.rs`, `msg.rs`, `error.rs`: the stored state, the messages and the
    errors, as plain values;
  - `contract.rs`: instantiation and the query dispatch;
  - `contract/execute.rs`: a mint, in four steps (the coin paid, the phase
    check whose result is stored at once, the payment and allowlist checks, and
    the decision once the NFT contract has said which tokens the buyer holds);
    the fee; decimal token ids;
  - `contract/query.rs`: the metadata and phase queries;
  - `laws.rs`: properties that relate several operations, among them runs of
    mint requests.
- `app/` — the CosmWasm contract: entry points, storage, the queries to other
  contracts and JSON encoding, around the library.
- `tests/` — tests of the library.
