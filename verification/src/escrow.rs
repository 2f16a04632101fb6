use vstd::prelude::*;

use crate::pubkey::Pubkey;
use crate::transfer::Transfer;

verus! {

/// An escrow: the lamports it holds and the price at which it unlocks them.
#[derive(Clone, Copy, Debug, PartialEq, Eq, Structural)]
pub struct EscrowState {
    pub unlock_price: u64,
    pub escrow_amount: u64,
}

/// The accounts of a deposit into escrow: the depositing user and the escrow.
pub struct Deposit {
    pub user: Pubkey,
    pub escrow_account: EscrowState,
    /// The address of the escrow account.
    pub escrow_key: Pubkey,
}

/// Records the amount and the unlock price in the escrow, and asks for the
/// amount to move from the user into the escrow account.
pub fn deposit_handler(ctx: &mut Deposit, escrow_amt: u64, unlock_price: u64) -> (t: Transfer)
    ensures
        *final(ctx) == (Deposit {
            escrow_account: EscrowState { unlock_price, escrow_amount: escrow_amt },
            ..*old(ctx)
        }),
        t.is_plain(old(ctx).user, old(ctx).escrow_key, escrow_amt),
{
    ctx.escrow_account.unlock_price = unlock_price;
    ctx.escrow_account.escrow_amount = escrow_amt;
    Transfer::plain(ctx.user, ctx.escrow_key, ctx.escrow_account.escrow_amount)
}

} // verus!
