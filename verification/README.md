# soar

Verified account checks and helper computations of the SOAR on-chain game
program (games, achievements, leaderboards, players, merges and NFT rewards).

- `src/pubkey.rs`: 32-byte account addresses with byte-wise equality.
- `src/state.rs`: the account data that the checks read, and the accounts
  handed to an instruction (address, signature, writability; data; or, for
  accounts to create, whether they are already in use).
- `src/error.rs`: the errors of the checks, and `evaluate`, which runs a list
  of checks in order and reports the first that fails.
- `src/pda.rs`: the program's address and the addresses that account seeds
  derive under it (through `try_find_program_address`).
- `src/accounts.rs`: the accounts of each instruction, the checks declared on
  them (`checks`) and their verified evaluation (`validate`), with the laws
  that an accepted instruction's accounts satisfy.
- `src/program.rs`: the next achievement and leaderboard numbers, the
  top-entries check, and the key list of a player merge.
- `app/lib.rs`: conversions between Anchor's accounts and addresses and the
  library's.
