use vstd::prelude::*;

use crate::errors::Errors;
use crate::instructions::create_bet::with_new_bet;
use crate::pubkey::Pubkey;
use crate::state::bet::Bet;
use crate::state::user::{claimed, User};
use crate::transfer::Transfer;

verus! {

/// The accounts of an opponent joining a bet.
pub struct AcceptBet {
    pub opponent: Pubkey,
    pub maker: Pubkey,
    pub bet: Bet,
    pub vault_pool: Pubkey,
    pub user_account: User,
}

/// The bump of the opponent's record address.
#[derive(Clone, Copy, Debug)]
pub struct AcceptBetBumps {
    pub user_account: u8,
}

/// A bet can be joined while nobody has joined it and its deadline has not come.
pub open spec fn can_join(bet: Bet, now: i64) -> bool {
    bet.opponent is None && now < bet.deadline_to_join
}

/// The bet once `opponent` has joined it.
pub open spec fn joined(bet: Bet, opponent: Pubkey) -> Bet {
    Bet { opponent: Some(opponent), ..bet }
}

impl AcceptBet {
    /// Joins the bet at time `now`: the opponent is recorded, the bet counted
    /// on their record, and their deposit asked to move into the vault.
    pub fn accept_bet(&mut self, bumps: &AcceptBetBumps, now: i64) -> (r: Result<Transfer, Errors>)
        requires
            can_join(old(self).bet, now) ==> old(self).user_account.total_bets < u64::MAX,
        ensures
            r is Ok <==> can_join(old(self).bet, now),
            r is Ok <==> (old(self).bet.opponent is None && now < old(self).bet.deadline_to_join),
            final(self).opponent == old(self).opponent,
            final(self).maker == old(self).maker,
            final(self).vault_pool == old(self).vault_pool,
            r is Err ==> {
                &&& r == Err::<Transfer, Errors>(Errors::EventAlreadyStarted)
                &&& final(self).bet == old(self).bet
                &&& final(self).user_account == claimed(
                    old(self).user_account,
                    bumps.user_account,
                )
            },
            r matches Ok(t) ==> {
                &&& final(self).bet == joined(old(self).bet, old(self).opponent)
                &&& final(self).bet == (Bet { opponent: Some(old(self).opponent), ..old(self).bet })
                &&& final(self).user_account.total_bets == old(self).user_account.total_bets + 1
                &&& t.from == old(self).opponent
                &&& t.to == old(self).vault_pool
                &&& t.lamports == old(self).bet.opponent_deposit
                &&& final(self).user_account == with_new_bet(
                    old(self).user_account,
                    bumps.user_account,
                )
                &&& t.is_plain(old(self).opponent, old(self).vault_pool, old(self).bet.opponent_deposit)
            },
    {
        self.user_account.claim(bumps.user_account);
        if !(self.bet.opponent.is_none() && now < self.bet.deadline_to_join) {
            return Err(Errors::EventAlreadyStarted);
        }
        self.bet.opponent = Some(self.opponent);
        self.user_account.increase_bets();
        Ok(self.transfer_money())
    }

    /// The move of the opponent's deposit into the vault.
    pub fn transfer_money(&mut self) -> (t: Transfer)
        ensures
            t.is_plain(old(self).opponent, old(self).vault_pool, old(self).bet.opponent_deposit),
            *final(self) == *old(self),
    {
        Transfer::plain(self.opponent, self.vault_pool, self.bet.opponent_deposit)
    }
}

} // verus!
