# halo_contracts

Staking contracts for CosmWasm chains, with their logic verified by Verus:

- a **farm**: stakers deposit an LP token and earn a reward token released
  evenly over a sequence of phases that the owner adds, funds and activates;
- a **pool**: the same idea with a reward rate per phase and a staked supply
  read from the staked token contract;
- two **factories** that create farms and pools and keep a paged registry of
  them.

## Layout

- `src/` — the verified library. Each handler is a function from the stored
  state and the message to the new state and the token transfers to emit,
  with a contract stating exactly which refusal comes on which input and what
  the new state is. `math.rs` holds the fixed-point decimal arithmetic;
  `cosmwasm.rs` the few calls into `cosmwasm-std` that the arithmetic makes,
  each with the contract the library relies on. The `laws.rs` files state
  and prove properties that span several calls: a phase never releases more
  than its balance, nothing is pending right after a stake change, the total
  stake is the sum of the stakes, the per-phase entries stay aligned, pages of
  a registry follow one another. The `bounds.rs` files tell, for each
  message, whether the reward arithmetic a handler requires stays within 128
  bits, so that a host can test it before calling the handler.
- `tests/` — the scenarios of the contracts, run against the library.
- `app/` — the CosmWasm entry points: storage, message (de)serialisation,
  queries to other contracts, and building chain messages from the transfers
  the library returns.
