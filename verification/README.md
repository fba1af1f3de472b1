# eldorado

The Eldorado swap aggregators for CosmWasm chains (Kujira, Osmosis, and a
generic one), with their logic verified by Verus.

- `src/` is the verified library. Each contract's rules are functions from
  the stored state, the message, the funds sent and the chain's answers
  (address checks, pool and balance queries, sub-message results) to the new
  state and the response, with exact contracts over spec functions. Laws that
  span calls are public proof functions named `law_*`: over any sequence of
  calls the queue of pending recipients is served first in, first out
  (`osmosis::law_queue_first_in_first_out` and
  `kujira::law_queue_first_in_first_out`, over swaps and their replies
  interleaved; `aggregator::law_transfers_pay_in_order`, over its transfers);
  only the admin changes the configuration; an IBC transfer is only made for
  an IBC token.
- The calls into `cosmwasm-std`, `bech32` and `osmosis-std` that only compute
  stand behind small trusted wrappers whose contracts are stated in their
  doc comments.
- `app/` holds the contracts' entry points: storage, queries to the chain,
  serialisation, and the conversions between the chain's types and the
  library's.
- `tests/` exercises the library on concrete values, with the real outside
  crates linked.
