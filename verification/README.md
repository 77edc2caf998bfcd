# anchor_kit

Verified logic of a persistent FIFO todo list and of several token programs
for the Solana runtime, written in Verus.

- `src/queue.rs`, `src/todo.rs`, `src/parsing.rs`: the generic FIFO queue, the
  todo list with increasing ids, and the parsing of the tool's `add` command.
- `src/keys.rs`, `src/token.rs`: addresses, little-endian encodings, signer
  seeds, and the token instructions the programs decide to issue.
- `src/lock_escrow.rs`, `src/timed_escrow.rs`, `src/vault.rs`, `src/vrf.rs`,
  `src/oracle.rs`: the programs' checks, state updates and instruction plans.
- `app/`: the command-line tool (terminal and file I/O, Borsh storage) and the
  on-chain glue that issues the planned instructions.
- `tests/`: tests of the library on concrete values.
