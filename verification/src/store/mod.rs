//! The game store program: store configuration, authorized programs,
//! accepted payment tokens, per-game sale settings, and purchases.
pub mod constants;
pub mod errors;
pub mod events;
pub mod external;
pub mod state;
pub mod states;
pub mod instructions;
pub mod listing;
