# escrow

A verified escrow for a contract on a Soroban ledger. A depositor locks an amount
of a token. Until the lock runs out, a neutral arbiter releases it to the
beneficiary, less a fee, or refunds it in full; afterwards the depositor may take
it back alone. With no lock, only the arbiter decides.

- `src/` holds the rules, verified with Verus. `contract` has the entry points,
  `state` the stored state and the split of the funds, `env` what a call sees of
  the ledger and the effects it asks for, `laws` what holds over any sequence of
  calls: the terms are final, funds leave once, the escrow covers what it owes
  (unless it is its own depositor), there is always one way out.
- `app/` is the contract itself. Each entry point reads the ledger, asks the
  library, and has the ledger carry out the effects in order: authorisation,
  transfers, storage. The ledger aborts and undoes a call that it cannot carry
  out, so these steps stay outside the verified code.
- `tests/` runs the rules on plain values and on a simulated ledger with a real
  token.

`release` multiplies the amount by the fee rate, so it may be called only where
`release_fits` says that the product is within range; the contract aborts
otherwise. Refunds have no such limit.
