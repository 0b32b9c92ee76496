//! The factory's state.
use vstd::prelude::*;
use crate::address::{zero_bytes, Address};

verus! {

/// Which registry, store and governance the factory works with.
#[derive(Clone, Copy, Debug)]
pub struct FactoryState {
    pub bump: u8,
    pub registry: Address,
    pub game_store: Address,
    pub governance: Address,
}

impl FactoryState {
    /// Account space: discriminator, bump and three addresses.
    pub const SPACE: usize = 105;

    /// None of the three addresses is the zero address.
    pub open spec fn valid(self) -> bool {
        &&& self.registry@ != zero_bytes()
        &&& self.game_store@ != zero_bytes()
        &&& self.governance@ != zero_bytes()
    }
}

} // verus!
