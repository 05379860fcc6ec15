# earnproof

A verified model of the EarnProof registries.

- `src/` is the library, verified with Verus. It holds the issuer registry
  (issuer records, the address reverse index, status lifecycle, address
  rotation), the proof registry (proof commitments, the registration guards
  and the order of its reads of other contracts, revocation, validity in
  ledger time) and the upgrade governance the two share (an allowlist of
  code hashes and a monotonically increasing contract version).
  Each contract keeps its storage contents as values; each entry point is a
  method whose contract states its effect exactly, over the spec functions
  of the same module. The `*_laws.rs` files state and prove the properties
  that span operations.
  Ledger time, the invocation's authorizations and the answers of other
  contracts are plain inputs: an operation names the address that must have
  authorized it, and a registration asks for each answer in turn.
- `app/` holds the Soroban contracts around the library: they read the
  ledger entries a decision needs, call the library's decision functions,
  demand the authorization they name, perform the writes the library plans
  for the operation (each plan is proved to give the operation's effect),
  extend entry lifetimes and publish events.
- `tests/` exercises the library on concrete values.
