# Loans

A lending pool: accounts supply assets to markets and receive vouchers for them, use their deposits
as collateral, borrow against it, repay, and liquidate the debts of accounts whose collateral no
longer secures them. The library in `src/` is written in Verus; what each call does to the state of
the pool, and each reason why it fails, is stated as a contract and proved.

- `src/` is the library. `Pallet` holds the storage of the pool, the runtime around it and the events
  that it has reported; a call either leads to the state that its contract names or changes nothing.
  The runtime is any implementation of the trait `Config`. `src/laws/` states and proves what holds
  of all calls together: vouchers add up, debts stay secured, markets and voucher tokens stay bound.
- `tests/` runs the library in a small runtime.
- `app/` is a FRAME pallet around the library: the storage of a chain, its calls, events and weights.

Numbers have eighteen decimals and round as `sp_runtime::FixedU128` does, which the library calls.

The pallet is built against the `frame-support` 4 and `sp-runtime` 6 lines. `substrate-bip39` is
pinned in `Cargo.toml` for their sake and used nowhere: later patches of it bring in a newer
`schnorrkel` than the `sp-core` of these lines has, and the two do not build together.
