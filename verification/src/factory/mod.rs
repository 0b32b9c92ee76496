//! The game factory: it registers a new game with the license program and
//! the registry, and lists it in the store.
pub mod errors;
pub mod events;
pub mod instructions;
pub mod state;
