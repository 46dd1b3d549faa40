# niffyinsure

Pricing and policy lifecycle rules of a parametric insurance contract on
Soroban, verified with Verus.

- `src/` — the verified library: checked premium arithmetic and the staged
  premium computation (`premium_pure`), the multiplier table backed by
  `soroban_sdk::Map` (`types`), and the decisions of binding, terminating and
  lapsing a policy (`policy_lifecycle`).
- `app/` — the Soroban entry points: authorization, storage reads and writes,
  and event publishing around the library's decisions.
- `tests/` — tests run against the compiled library with the real
  `soroban-sdk`.
