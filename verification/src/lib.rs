//! Verified game logic of Dark Dominion, a two-player hidden-information war
//! game: each player secretly places troops on a five-by-five grid and the
//! players take turns attacking cells of the other's board.
//!
//! The crate holds the board arithmetic that the confidential circuits
//! compute (`circuits`), the on-chain game state machine (`instructions`,
//! over the account model in `state`), the description of the confidential
//! computations that the program queues and of what they deliver back
//! (`computation`), and the laws that hold across instructions (`lifecycle`).
pub mod board;
pub mod circuits;
pub mod state;
pub mod computation;
pub mod instructions;
pub mod lifecycle;
