# stellar_invoice

An invoice ledger with a verified lifecycle: create, pay (in full or in
instalments), cancel and mark overdue, with sequential ids, a per-address index
and an event log.

- `src/` is the library, verified with Verus: error codes (`errors`), the invoice
  and address types (`types`), the per-invoice rules (`lifecycle`), the storage
  model (`storage`), the contract operations (`contract`), the published events
  (`events`) and the properties that hold across operations (`laws`).
- `tests/` exercises the library on concrete values.
- `app/` is the Soroban contract: authorization, ledger storage with TTL rent,
  the ledger clock and event publication around the library's decisions.
