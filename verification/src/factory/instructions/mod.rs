//! Instructions of the factory.
pub mod create_game;
pub mod initialize;
pub mod set_game_store;
pub mod set_governance;
pub mod set_registry;
pub mod views;
