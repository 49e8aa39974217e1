# foresta

Verified logic of the Foresta carbon-credit pallets, written in Verus.

- `src/dex/`: the DEX pallet (sell orders, trades with payment fee, purchase
  fee and royalty, seller receivables, project treasuries) and its types.
- `src/foresta_bounties.rs`: bounties paid from a project's DEX treasury.
- `src/utilities.rs`: storage-transaction outcomes.
- `src/weight.rs` and the `*_weights.rs` modules: benchmarked call weights.
- `src/percent.rs`, `src/double_map.rs`, `src/support.rs`: percentages,
  value-query double maps, origins and dispatch errors.
- `app/`: runtime glue that asks the other pallets for the facts the pallets
  read, carries out their transfers inside a storage transaction, and holds
  the encodable copies of the pallets' types.

Each call of a pallet is specified by a function from the storage before the
call to the storage after it, the actions it hands to other pallets and its
event, or the error that refuses it; a refused call leaves the storage as it
was.
