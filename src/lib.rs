//! Rules engine and record lifecycle of a two-player tic-tac-toe game whose
//! state lives in persistent records, with an entry fee, a starter grant and
//! a reward payout handled by a token service outside this library.

pub mod address;
pub mod errors;
pub mod identity;
pub mod instructions;
pub mod laws;
pub mod state;

pub use instructions::{claim_reward, create_game, create_player, init, join_game, play};
