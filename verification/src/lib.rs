//! Account checks and helper computations of the SOAR on-chain game program:
//! games with authority lists, achievements, leaderboards, players, score
//! entries, player merges and rewards.
pub mod accounts;
pub mod error;
pub mod pda;
pub mod program;
pub mod pubkey;
pub mod state;
