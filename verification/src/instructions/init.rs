use vstd::prelude::*;

use crate::errors::Errors;
use crate::pubkey::Pubkey;
use crate::state::house::House;

verus! {

/// The accounts that set the protocol up.
pub struct Init {
    pub admin: Pubkey,
    pub house: House,
    pub treasury: Pubkey,
}

/// The bumps of the house and treasury addresses.
#[derive(Clone, Copy, Debug)]
pub struct InitBumps {
    pub house: u8,
    pub treasury: u8,
}

/// The house account that `init` writes.
pub open spec fn initial_house(admin: Pubkey, fees: i16, bumps: InitBumps) -> House {
    House { admin, protocl_fees: fees, bump: bumps.house, treasury_bump: bumps.treasury }
}

impl Init {
    /// Records the admin, the protocol fee and the bumps in the house account.
    pub fn init(&mut self, fees: i16, bumps: &InitBumps) -> (r: Result<(), Errors>)
        ensures
            r is Ok,
            final(self).house == initial_house(old(self).admin, fees, *bumps),
            final(self).house.admin == old(self).admin,
            final(self).house.protocl_fees == fees,
            final(self).house.bump == bumps.house,
            final(self).house.treasury_bump == bumps.treasury,
            final(self).admin == old(self).admin,
            final(self).treasury == old(self).treasury,
    {
        self.house = House {
            admin: self.admin,
            protocl_fees: fees,
            bump: bumps.house,
            treasury_bump: bumps.treasury,
        };
        Ok(())
    }
}

} // verus!
