# stellar_lend

The StellarLend core contract's configuration and risk logic, verified with Verus.

- `src/` is the verified library. `HelloContract` holds the entries that the contract keeps
  in ledger storage; each entry point is a method whose contract states the new storage and
  the result exactly, over `ContractState`:
  - `account.rs`: addresses, compared by their key text;
  - `errors.rs`: the error enums of each subsystem;
  - `risk_params.rs`: risk parameters, their security bounds and the basis-point
    computations (liquidation eligibility, minimum collateral ratio, close factor, incentive);
  - `risk_management.rs`: the risk configuration, pause switches and storage keys;
  - `interest_rate.rs`, `treasury.rs`: the interest-rate and fee configurations;
  - `contract.rs`: the storage model, its invariant and the entry points;
  - `laws.rs`: properties that span several calls (one-time initialization, read-back of
    writes, authority transfer, liquidation bounds).
- `app/` is the Soroban contract: it reads storage, checks authorization with the host, calls
  the library and writes the outcome back.
- `tests/` runs the library on concrete values.

The crate covers initialization, administration, risk parameters and their computations,
pauses, treasury and fee settings and the interest-rate configuration. The lending
operations (deposits, borrows, repayments, withdrawals, liquidations, flash loans, reserves,
utilization and rates, multi-asset collateral, analytics, governance and per-asset
configuration) are not implemented: their rules were not available. Where a rule had to be
chosen (the bounds of risk parameters, interest-rate and fee settings, the initial
interest-rate values, the default fees and the administrator model), the doc comment says
that it is this library's own choice.
