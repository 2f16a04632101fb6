use vstd::prelude::*;

use crate::errors::Errors;
use crate::pubkey::Pubkey;
use crate::state::bet::{Bet, BetStatus};
use crate::transfer::{vault_prefix, vault_prefix_bytes, Transfer};

verus! {

/// The accounts of a party collecting the stakes of a finished bet.
pub struct ClaimPrize {
    pub winner: Pubkey,
    pub maker: Pubkey,
    pub bet: Bet,
    pub vault_pool: Pubkey,
    /// The vault's balance.
    pub vault_lamports: u64,
}

/// `signer` is the bet's maker or its opponent.
pub open spec fn is_party(bet: Bet, signer: Pubkey) -> bool {
    signer@ == bet.maker@ || (bet.opponent matches Some(o) && signer@ == o@)
}

/// The checks that guard the end of a bet: it has ended at `now`, and
/// `signer` is one of its two parties.
pub open spec fn end_checks(bet: Bet, signer: Pubkey, now: i64) -> Result<(), Errors> {
    if now < bet.end_time {
        Err(Errors::BetNotEndedYet)
    } else if !is_party(bet, signer) {
        Err(Errors::UnauthorizedAccess)
    } else {
        Ok(())
    }
}

/// The checks of a claim: those of the bet's end, then that the bet is completed.
pub open spec fn claim_checks(bet: Bet, signer: Pubkey, now: i64) -> Result<(), Errors> {
    match end_checks(bet, signer, now) {
        Err(e) => Err(e),
        Ok(()) => if bet.status == BetStatus::Completed {
            Ok(())
        } else {
            Err(Errors::BetNotResolvedYet)
        },
    }
}

/// Whether `signer` is the maker or the opponent of `bet`.
pub fn signer_is_party(bet: &Bet, signer: &Pubkey) -> (r: bool)
    ensures
        r == is_party(*bet, *signer),
{
    if signer.same_as(&bet.maker) {
        return true;
    }
    match &bet.opponent {
        Some(o) => signer.same_as(o),
        None => false,
    }
}

impl ClaimPrize {
    /// Pays the vault out to the signer, once the bet has ended, the signer is
    /// one of its parties and the bet is completed. Either party may claim:
    /// nothing checks that the signer is the recorded winner.
    pub fn claim_prize(&mut self, now: i64) -> (r: Result<Transfer, Errors>)
        ensures
            *final(self) == *old(self),
            r is Ok <==> claim_checks(old(self).bet, old(self).winner, now) is Ok,
            r matches Err(e) ==> claim_checks(old(self).bet, old(self).winner, now) == Err::<
                (),
                Errors,
            >(e),
            r is Ok <==> (now >= old(self).bet.end_time && (old(self).winner@ == old(self).bet.maker@
                || (old(self).bet.opponent matches Some(o) && old(self).winner@ == o@))
                && old(self).bet.status == BetStatus::Completed),
            r matches Ok(t) ==> t.from == old(self).vault_pool && t.to == old(self).winner
                && t.lamports == old(self).vault_lamports,
            r matches Ok(t) ==> t.is_signed(
                old(self).vault_pool,
                old(self).winner,
                old(self).vault_lamports,
                vault_prefix(),
                old(self).maker,
                old(self).bet.vault_pool_bump,
            ),
    {
        if now < self.bet.end_time {
            return Err(Errors::BetNotEndedYet);
        }
        if !signer_is_party(&self.bet, &self.winner) {
            return Err(Errors::UnauthorizedAccess);
        }
        if self.bet.status != BetStatus::Completed {
            return Err(Errors::BetNotResolvedYet);
        }
        Ok(self.transfer_amount())
    }

    /// The move of the vault's whole balance to the signer, signed with the
    /// seeds `vault`, the maker's key and the vault's bump. The vault's
    /// address derives from `vault` and the bet's key, not the maker's, so
    /// the system program refuses this signature unless the two seeds give
    /// the same address; the claim transfer then fails on chain.
    pub fn transfer_amount(&mut self) -> (t: Transfer)
        ensures
            t.is_signed(
                old(self).vault_pool,
                old(self).winner,
                old(self).vault_lamports,
                vault_prefix(),
                old(self).maker,
                old(self).bet.vault_pool_bump,
            ),
            *final(self) == *old(self),
    {
        Transfer::signed(
            self.vault_pool,
            self.winner,
            self.vault_lamports,
            vault_prefix_bytes(),
            &self.maker,
            self.bet.vault_pool_bump,
        )
    }
}

} // verus!
