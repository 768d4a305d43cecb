# belize_governance

The governance rules of the BelizeChain runtime as a verified Verus library:
proposals and voting (with conviction, stake weighting, delegation and
commit-reveal), council and board seats, district elections, referendums,
emergencies with a veto window, departmental and district treasuries,
participation rewards, constitutional safeguards and the per-block hook.

- `src/` holds the library. Its state is the `Pallet` struct; every call takes
  the answers of the runtime's providers and currency as arguments and states,
  in its contract, the result and the new state over the abstract view
  `GovView`. `src/laws.rs` states properties that span several calls.
- `tests/` runs the scenarios on a small test chain.
- `app/` is the glue to a FRAME runtime: weight and origin conversions, the
  SCALE form of department call data, and adapters that ask the runtime's
  providers before calling the library.
