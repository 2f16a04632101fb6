use vstd::prelude::*;

use crate::pubkey::Pubkey;
use crate::state::house::House;
use crate::transfer::{treasury_prefix, treasury_prefix_bytes, Transfer};

verus! {

/// The accounts of the admin emptying the treasury.
pub struct WithdrawTreasury {
    pub admin: Pubkey,
    pub house: House,
    /// The address of the house account, from which the treasury's address derives.
    pub house_key: Pubkey,
    pub treasury: Pubkey,
    /// The treasury's balance.
    pub treasury_lamports: u64,
}

impl WithdrawTreasury {
    /// The move of the treasury's whole balance to the admin, signed with the
    /// seeds `treasury`, the house's key and the treasury's bump.
    pub fn withdraw_treasury(&mut self) -> (t: Transfer)
        ensures
            t.is_signed(
                old(self).treasury,
                old(self).admin,
                old(self).treasury_lamports,
                treasury_prefix(),
                old(self).house_key,
                old(self).house.treasury_bump,
            ),
            t.from == old(self).treasury && t.to == old(self).admin && t.lamports == old(
                self,
            ).treasury_lamports,
            *final(self) == *old(self),
    {
        Transfer::signed(
            self.treasury,
            self.admin,
            self.treasury_lamports,
            treasury_prefix_bytes(),
            &self.house_key,
            self.house.treasury_bump,
        )
    }
}

} // verus!
