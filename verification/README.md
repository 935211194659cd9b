# tiered_pricing

Transaction-pricing mechanisms for a ranking-block / endorser-block chain,
with their rules proved in Verus.

## Layout

- `src/chain_pricing` — chain-derived EIP-1559 controllers: the per-block
  step, the capacity-weighted window aggregate, the single-lane and
  two-lane backends, and laws on step bounds, the multiplier floor and
  window eviction.
- `src/tx_pricing` — the tiered fee market: tier selection by submitter
  utility, quoted-assignment history and admission, routing of transactions
  to tiers at inclusion, block filling under per-tier budgets, the
  priority-lane market, cadences, tier-count decisions and configuration
  rules.
- `src/model.rs` — transactions, tier ids, per-lane quotes and window
  aggregates.
- `app/` — configuration files (serde, TOML), the floating-point price
  controllers, randomised delay updates and capacity rebalancing, built on
  the library.
- `tests/` — scenarios for every module.
