# dig-mirror-collateral

How much DIG a mirror-coin advertisement must lock to be counted in an epoch:

```
required(n) = max( 1, floor(5_000 * multiplier(n) / 1_000_000) - handicap(n) )   [base units]
```

The multiplier comes from a bang-bang controller reading the previous epoch's census; the
handicap is a bootstrap subsidy that shrinks linearly to zero as the network gains verified
owners.

## Layout

- `src/` — the arithmetic, written and proved in Verus. Every public function states its result
  exactly over spec functions (`*_spec`), and the properties the rules promise are proof
  functions beside the code they speak of (`lemma_*`): the controller never moves more than one
  step and keeps the multiplier within its bounds, an empty network holds the price, no
  safety-margin preset can move the multiplier of a stable network, the requirement never falls
  as owners are gained or as the multiplier rises, the handicap is linear, the margin is the
  least covering amount, and the ruleset of an epoch is selected by the epoch alone.
- `tests/` — conformance scenarios and edge cases run against the compiled library.
- `app/` — the wire forms of the library's types (serde) and the refusal's message (thiserror),
  each with `From` in both directions.
