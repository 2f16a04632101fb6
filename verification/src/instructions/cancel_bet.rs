use vstd::prelude::*;

use crate::errors::Errors;
use crate::pubkey::Pubkey;
use crate::state::bet::Bet;
use crate::state::user::User;
use crate::transfer::{vault_prefix, vault_prefix_bytes, Transfer};

verus! {

/// The accounts of a maker withdrawing a bet nobody joined.
pub struct CancelBet {
    pub maker: Pubkey,
    pub bet: Bet,
    /// The address of the bet account, from which the vault's address derives.
    pub bet_key: Pubkey,
    pub vault_pool: Pubkey,
    /// The vault's balance.
    pub vault_lamports: u64,
    pub user_account: User,
}

/// A bet can be cancelled while nobody has joined it.
pub open spec fn can_cancel(bet: Bet) -> bool {
    bet.opponent is None
}

/// The maker's record once the cancelled bet is no longer counted.
pub open spec fn without_bet(u: User) -> User {
    User { total_bets: (u.total_bets - 1) as u64, ..u }
}

impl CancelBet {
    /// Cancels the bet: the maker's record counts one bet less and the whole
    /// vault goes back to the maker.
    pub fn cancel_bet(&mut self) -> (r: Result<Transfer, Errors>)
        requires
            can_cancel(old(self).bet) ==> old(self).user_account.total_bets > 0,
        ensures
            r is Ok <==> can_cancel(old(self).bet),
            r is Err ==> r == Err::<Transfer, Errors>(Errors::EventCantCancel) && *final(self)
                == *old(self),
            r matches Ok(t) ==> {
                &&& *final(self) == (CancelBet {
                    user_account: without_bet(old(self).user_account),
                    ..*old(self)
                })
                &&& final(self).user_account.total_bets + 1 == old(self).user_account.total_bets
                &&& t.from == old(self).vault_pool
                &&& t.to == old(self).maker
                &&& t.lamports == old(self).vault_lamports
                &&& t.is_signed(
                    old(self).vault_pool,
                    old(self).maker,
                    old(self).vault_lamports,
                    vault_prefix(),
                    old(self).bet_key,
                    old(self).bet.vault_pool_bump,
                )
            },
    {
        if !self.bet.opponent.is_none() {
            return Err(Errors::EventCantCancel);
        }
        self.user_account.decrease_bets();
        Ok(self.return_funds())
    }

    /// The move of the vault's whole balance back to the maker, signed by the
    /// vault's address.
    pub fn return_funds(&mut self) -> (t: Transfer)
        ensures
            t.is_signed(
                old(self).vault_pool,
                old(self).maker,
                old(self).vault_lamports,
                vault_prefix(),
                old(self).bet_key,
                old(self).bet.vault_pool_bump,
            ),
            *final(self) == *old(self),
    {
        Transfer::signed(
            self.vault_pool,
            self.maker,
            self.vault_lamports,
            vault_prefix_bytes(),
            &self.bet_key,
            self.bet.vault_pool_bump,
        )
    }
}

} // verus!
