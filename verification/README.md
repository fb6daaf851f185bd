# prompt_market

Two Soroban smart contracts for selling prompts with a fungible token, and a
small private-access registry, with their rules stated as contracts and proved.

- **The token** (`src/token.rs`): a fungible token whose owner mints, whose
  holders transfer, approve, burn and sell (burn) tokens, which the owner can
  pause, and which one bound marketplace contract may mint and burn through.
  Ownership passes to a new owner in two steps (offer, then acceptance) or is
  renounced for good. The storage keeps the total supply equal to the sum of
  all balances.
- **The marketplace** (`src/marketplace.rs`): an administrator registers
  prompts by id, or privately by an opaque hash, each with a positive price.
  A buyer buys a prompt once; the price is burned from the buyer's balance
  through the token. The administrator re-mints tokens and may revoke a
  private access grant.
- **The private-access registry** (`src/private_access.rs`): grants keyed by
  a buyer and a prompt hash, each bought at most once.

## Layout

- `src/` is the verified library. Each contract is a type holding its
  storage, with a view onto a mathematical model (`TokenModel`,
  `MarketModel`); every entry point states in its contract which error it
  returns on which state and input, and the exact state after it succeeds.
  A refused operation leaves the storage unchanged. `src/keymap.rs` is the
  storage map the contracts share, `src/address.rs` the addresses and the
  authorization an invocation carries, and `src/laws.rs` the properties that
  relate several operations.
- `app/` holds the contracts as deployed on Soroban: the host's storage,
  authorization, events and cross-contract calls, around the library's
  rules.
- `tests/` exercises the library on concrete scenarios.
