pub mod game;
pub mod player;
pub mod program_state;
