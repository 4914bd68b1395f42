# stable_coin_project

A stable-coin system: vaults lend a stable coin against collateral, a
measurer turns oracle prices into a stability measure, and two controllers
turn that measure into the vault's and the stable coin's interest rates; a
shares-profit controller collects the interest earned and distributes it.

- `src/` is the verified library (Verus). Each contract's decisions are
  functions of its state and of what the chain answered (caller, time, token
  owner, prices); they return the calls to make and the events to emit.
  `vault_laws.rs` and the `lemma_*` functions beside each module state what
  the messages keep and promise.
- `app/` holds the ink! contracts that read the chain, call the library, make
  the token calls and store the state.
- `tests/` exercises the library on concrete values.
