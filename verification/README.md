# game_store

The logic of two Solana programs, verified with Verus: a game store that
sells licenses for games of a license program, and a factory that registers
new games.

- `src/address.rs`, `src/le.rs`: 32-byte addresses and little-endian
  integers.
- `src/derive.rs`: SHA-256 and program-derived addresses, computed by the
  `sha2` crate and the account framework.
- `src/store/`: the store's configuration, authorized programs, accepted
  payment tokens, per-game sale settings, purchases (`instructions/buy_game.rs`),
  and the price list and publisher ledger (`states.rs`, `listing.rs`).
- `src/factory/`: the factory's state and its instructions.
- `tests/`: tests of the library.
- `app/`: glue to the runtime: conversions, error codes, and carrying out the
  transfers and program calls that the instructions return.

Each instruction takes its accounts as plain values and returns what it
decided: new account state, events, and the transfers and calls for the
runtime to make.
