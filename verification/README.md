# dark_dominion

Verified game logic of Dark Dominion, a two-player hidden-information war
game on Solana whose boards stay encrypted and whose attacks are resolved by
Arcium confidential computations.

- `src/board.rs` — the board: troop totals and the rolling board hash.
- `src/circuits.rs` — what the confidential circuits compute on plain values
  (commit, resolve an attack, reveal), with laws about attacks and reveals.
- `src/state.rs` — the game account, states, events and errors.
- `src/computation.rs` — the circuits, their definition offsets, the
  arguments of queued computations, and what the attack circuit delivers.
- `src/instructions.rs` — the program's instructions as account transitions.
- `src/lifecycle.rs` — laws that hold across instructions.
- `app/` — the Anchor/Arcium program around the library: account contexts,
  queueing, output verification, events. Its circuit account macros read the
  compiled circuit files that `arcium build` produces.
