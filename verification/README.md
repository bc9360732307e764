# checks

Static checks on Soroban smart-contract sources, verified with Verus.

- `src/model.rs` — the checks' picture of a parsed source file: its
  `impl` blocks, their functions, and what a walk of each body meets.
- `src/util.rs` — the functions of `#[contractimpl]` blocks.
- `src/admin_no_group_auth.rs`, `src/admin_zero_address.rs`,
  `src/ownership_no_approval_invalidation.rs`,
  `src/ownership_pending_not_cleared.rs` — the four checks, each with a
  contract that states its findings exactly.
- `src/laws.rs` — properties that hold across the checks.
- `src/text.rs` — verified string helpers (substring search, join, decimal).
- `src/contracts.rs` — the sample contract types.
- `app/` — parsing with `syn` into the model, and the sample contracts as
  Soroban contracts.
