use vstd::prelude::*;

use crate::errors::Errors;
use crate::pubkey::Pubkey;
use crate::state::bet::{Bet, BetStatus, Odds};
use crate::state::user::{claimed, User};
use crate::transfer::Transfer;

verus! {

/// The accounts of a new bet: its maker, the bet, the vault that holds the
/// stakes, and the maker's record.
pub struct CreateBet {
    pub maker: Pubkey,
    pub bet: Bet,
    pub vault_pool: Pubkey,
    pub user_account: User,
}

/// The bumps of the addresses that `create_bet` derives.
#[derive(Clone, Copy, Debug)]
pub struct CreateBetBumps {
    pub bet: u8,
    pub vault_pool: u8,
    pub user_account: u8,
}

/// Odds are accepted when one of the two sides is 1.
pub open spec fn odds_are_valid(maker_odds: u64, opponent_odds: u64) -> bool {
    maker_odds == 1 || opponent_odds == 1
}

/// What the opponent has to put in against `maker_deposit` at `odds`.
pub open spec fn opponent_deposit_for(maker_deposit: u64, odds: Odds) -> int {
    if odds.maker_odds == 1 {
        maker_deposit * odds.opponent_odds
    } else {
        (maker_deposit / odds.maker_odds) as int
    }
}

/// The computation of the opponent's deposit neither overflows nor divides by zero.
pub open spec fn deposit_is_computable(maker_deposit: u64, odds: Odds) -> bool {
    &&& odds.maker_odds != 0
    &&& odds.maker_odds == 1 ==> maker_deposit * odds.opponent_odds <= u64::MAX
}

/// The bet that `create_bet` writes.
pub open spec fn created_bet(
    maker: Pubkey,
    token_mint: Pubkey,
    odds: Odds,
    price_prediction: i64,
    deadline_to_join: i64,
    start_time: i64,
    end_time: i64,
    amount: u64,
    seed: u64,
    bumps: CreateBetBumps,
    feed_injector: Pubkey,
    creator_estimate: bool,
) -> Bet {
    Bet {
        maker,
        opponent: None,
        token_mint,
        odds,
        status: BetStatus::FindingOpponent,
        price_prediction,
        deadline_to_join,
        start_time,
        end_time,
        maker_deposit: amount,
        amount_settled: false,
        seed,
        bump: bumps.bet,
        vault_pool_bump: bumps.vault_pool,
        opponent_deposit: opponent_deposit_for(amount, odds) as u64,
        winner: None,
        feed_injector,
        creator_estimate,
    }
}

/// The player's record once it holds one more bet.
pub open spec fn with_new_bet(u: User, bump: u8) -> User {
    User { total_bets: (claimed(u, bump).total_bets + 1) as u64, ..claimed(u, bump) }
}

impl CreateBet {
    /// Opens a bet: checks the odds, records the bet with the opponent's
    /// deposit that the odds fix, counts it on the maker's record, and asks for
    /// the maker's stake to move into the vault.
    pub fn create_bet(
        &mut self,
        token_mint: Pubkey,
        maker_odds: u64,
        opponent_odds: u64,
        price_prediction: i64,
        deadline_to_join: i64,
        start_time: i64,
        end_time: i64,
        amount: u64,
        seed: u64,
        feed_injector: Pubkey,
        creator_estimate: bool,
        bumps: &CreateBetBumps,
    ) -> (r: Result<Transfer, Errors>)
        requires
            odds_are_valid(maker_odds, opponent_odds) ==> {
                &&& deposit_is_computable(amount, Odds { maker_odds, opponent_odds })
                &&& old(self).user_account.total_bets < u64::MAX
            },
        ensures
            r is Ok <==> odds_are_valid(maker_odds, opponent_odds),
            r is Ok <==> (maker_odds == 1 || opponent_odds == 1),
            r is Err ==> r == Err::<Transfer, Errors>(Errors::InvalidOdds) && *final(self) == *old(
                self,
            ),
            r matches Ok(t) ==> {
                &&& final(self).bet == created_bet(
                    old(self).maker,
                    token_mint,
                    Odds { maker_odds, opponent_odds },
                    price_prediction,
                    deadline_to_join,
                    start_time,
                    end_time,
                    amount,
                    seed,
                    *bumps,
                    feed_injector,
                    creator_estimate,
                )
                &&& final(self).bet.maker == old(self).maker
                &&& final(self).bet.opponent is None
                &&& final(self).bet.token_mint == token_mint
                &&& final(self).bet.odds == (Odds { maker_odds, opponent_odds })
                &&& final(self).bet.status == BetStatus::FindingOpponent
                &&& final(self).bet.price_prediction == price_prediction
                &&& final(self).bet.deadline_to_join == deadline_to_join
                &&& final(self).bet.start_time == start_time
                &&& final(self).bet.end_time == end_time
                &&& final(self).bet.maker_deposit == amount
                &&& !final(self).bet.amount_settled
                &&& final(self).bet.seed == seed
                &&& final(self).bet.bump == bumps.bet
                &&& final(self).bet.vault_pool_bump == bumps.vault_pool
                &&& (maker_odds == 1 ==> final(self).bet.opponent_deposit == amount * opponent_odds)
                &&& (maker_odds != 1 ==> final(self).bet.opponent_deposit == amount / maker_odds)
                &&& final(self).bet.winner is None
                &&& final(self).bet.feed_injector == feed_injector
                &&& final(self).bet.creator_estimate == creator_estimate
                &&& final(self).user_account.total_bets == old(self).user_account.total_bets + 1
                &&& t.from == old(self).maker
                &&& t.to == old(self).vault_pool
                &&& t.lamports == amount
                &&& final(self).user_account == with_new_bet(
                    old(self).user_account,
                    bumps.user_account,
                )
                &&& final(self).maker == old(self).maker
                &&& final(self).vault_pool == old(self).vault_pool
                &&& t.is_plain(old(self).maker, old(self).vault_pool, amount)
            },
    {
        if !(maker_odds == 1 || opponent_odds == 1) {
            return Err(Errors::InvalidOdds);
        }
        let odds = Odds { maker_odds, opponent_odds };
        let opponent_deposit = self.calculate_opponent_deposit(amount, &odds);
        self.bet = Bet {
            maker: self.maker,
            opponent: None,
            token_mint,
            odds,
            status: BetStatus::FindingOpponent,
            price_prediction,
            deadline_to_join,
            start_time,
            end_time,
            maker_deposit: amount,
            amount_settled: false,
            seed,
            bump: bumps.bet,
            vault_pool_bump: bumps.vault_pool,
            opponent_deposit,
            winner: None,
            feed_injector,
            creator_estimate,
        };
        self.user_account.claim(bumps.user_account);
        self.user_account.increase_bets();
        Ok(self.send_money_to_vault(amount))
    }

    /// The opponent's deposit: the maker's deposit times the opponent's odds
    /// when the maker's odds are 1, else the maker's deposit divided by them.
    pub fn calculate_opponent_deposit(&mut self, maker_deposit: u64, odds: &Odds) -> (d: u64)
        requires
            deposit_is_computable(maker_deposit, *odds),
        ensures
            d == opponent_deposit_for(maker_deposit, *odds),
            odds.maker_odds == 1 ==> d == maker_deposit * odds.opponent_odds,
            odds.maker_odds != 1 ==> d == maker_deposit / odds.maker_odds,
            *final(self) == *old(self),
    {
        if odds.maker_odds == 1 {
            return maker_deposit * odds.opponent_odds;
        }
        maker_deposit / odds.maker_odds
    }

    /// The move of the maker's stake into the vault.
    pub fn send_money_to_vault(&mut self, amount: u64) -> (t: Transfer)
        ensures
            t.is_plain(old(self).maker, old(self).vault_pool, amount),
            *final(self) == *old(self),
    {
        Transfer::plain(self.maker, self.vault_pool, amount)
    }
}

} // verus!
