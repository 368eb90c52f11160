# cryptgain

The CryptGain MultiversX contracts with their logic verified by Verus.

- `src/` is the verified library. Every endpoint of the liquid staking and
  GToken contracts is a state transition over plain values: the chain's
  answers (caller, owner, payments, gas, epoch, whether an address is a smart
  contract) come in as arguments, and the calls and transfers to make come
  out as values. Amounts are arbitrary-precision integers (`Amount`, whose
  view is a `nat`), computed by `num-bigint` behind small trusted wrappers.
- `tests/` runs the library on the contracts' scenarios, with the answers of
  the DEX pair contract written out step by step, and on edge cases.
- `app/` holds the contract shells for the MultiversX VM: each endpoint reads
  the storage into the library's state, performs what the library returns
  and writes the state back.
