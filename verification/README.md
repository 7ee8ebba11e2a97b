# redeem

The redeem module of the PolkaBTC bridge, verified with Verus.

- `src/types.rs`: amounts, identifiers, stored requests, errors, events.
- `src/storage.rs`: the module's state (configuration and the table of open
  requests, viewed as a map from identifier to request) and its queries.
- `src/arithmetic.rs`: conversions and the liquidation share of a redeem.
- `src/dispatch.rs`: the decisions of `request_redeem`, `execute_redeem` and
  `cancel_redeem`, taking what the other modules report and describing what
  they are to do.
- `src/laws.rs`: properties that span the functions above.
- `app/lib.rs`: runs the three calls against the other modules of a runtime.
