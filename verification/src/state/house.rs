use vstd::prelude::*;

use crate::pubkey::Pubkey;

verus! {

/// The protocol's own account: who runs it, its fee, and the bumps of its addresses.
#[derive(Clone, Copy, Debug)]
pub struct House {
    pub admin: Pubkey,
    pub protocl_fees: i16,
    pub bump: u8,
    pub treasury_bump: u8,
}

/// Bytes that the house account takes on chain, discriminator included: the
/// sum of its fields' encoded sizes.
pub const HOUSE_INIT_SPACE: usize = 8 + 32 + 2 + 1 + 1;

} // verus!
