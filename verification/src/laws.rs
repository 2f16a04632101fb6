use vstd::prelude::*;

use crate::errors::Errors;
use crate::feed::DecimalValue;
use crate::instructions::accept_bet::{can_join, joined};
use crate::instructions::cancel_bet::{can_cancel, without_bet};
use crate::instructions::check_winner::{price_units, resolution_checks, settled, won_by, CheckWinner};
use crate::instructions::claim_prize::claim_checks;
use crate::instructions::create_bet::{created_bet, with_new_bet, CreateBetBumps};
use crate::pubkey::Pubkey;
use crate::state::bet::{Bet, BetStatus, Odds};
use crate::state::user::{claimed, User};

verus! {

/// Once an opponent has joined a bet, nobody can join it again, at any time.
pub proof fn lemma_bet_is_joined_once(bet: Bet, opponent: Pubkey, now: i64, later: i64)
    requires
        can_join(bet, now),
    ensures
        !can_join(joined(bet, opponent), later),
{
}

/// A bet that someone has joined can no longer be cancelled.
pub proof fn lemma_joined_bet_cannot_be_cancelled(bet: Bet, opponent: Pubkey)
    ensures
        !can_cancel(joined(bet, opponent)),
{
}

/// Cancelling a bet takes back the count that creating it added to the
/// maker's record: what is left is the record as the first use left it.
pub proof fn lemma_cancel_undoes_create_count(u: User, bump: u8)
    requires
        u.total_bets < u64::MAX,
    ensures
        without_bet(with_new_bet(u, bump)) == claimed(u, bump),
        without_bet(with_new_bet(u, bump)).total_bets == u.total_bets,
{
}

/// Decreasing the bet count undoes increasing it.
pub proof fn lemma_decrease_undoes_increase(u: User)
    requires
        u.total_bets < u64::MAX,
    ensures
        without_bet(User { total_bets: (u.total_bets + 1) as u64, ..u }) == u,
{
}

/// Once a winner is recorded, every later attempt to pick one is refused as
/// already resolved.
pub proof fn lemma_winner_is_picked_once(bet: Bet, winner: Pubkey)
    ensures
        resolution_checks(won_by(bet, winner)) == Err::<(), Errors>(Errors::BetAlreadyResolved),
{
}

/// Settling from the feed records as winner the bet's maker or its opponent,
/// and nobody else, and completes the bet; the rest stays as it was.
pub proof fn lemma_settled_winner_is_a_party(ctx: CheckWinner, price: DecimalValue)
    requires
        ctx.bet.opponent is Some,
        price_units(price) is Ok,
    ensures
        settled(ctx, price).bet.winner == Some(ctx.bet.maker) || settled(ctx, price).bet.winner
            == ctx.bet.opponent,
        settled(ctx, price).bet.status == BetStatus::Completed,
        settled(ctx, price).bet == won_by(ctx.bet, settled(ctx, price).bet.winner.unwrap()),
{
}

/// A bet is claimable only once a winner is recorded: a bet that was created,
/// or created and joined, is refused to every claim. Once a winner is
/// recorded, the claim checks pass exactly for its two parties after its end;
/// they do not single out the winner.
pub proof fn lemma_bet_is_claimable_once_settled(
    maker: Pubkey,
    token_mint: Pubkey,
    odds: Odds,
    price_prediction: i64,
    deadline_to_join: i64,
    start_time: i64,
    end_time: i64,
    amount: u64,
    seed: u64,
    bumps: CreateBetBumps,
    feed_injector: Pubkey,
    creator_estimate: bool,
    opponent: Pubkey,
    winner: Pubkey,
    signer: Pubkey,
    now: i64,
)
    ensures
        ({
            let b = created_bet(
                maker,
                token_mint,
                odds,
                price_prediction,
                deadline_to_join,
                start_time,
                end_time,
                amount,
                seed,
                bumps,
                feed_injector,
                creator_estimate,
            );
            let s = won_by(joined(b, opponent), winner);
            &&& claim_checks(b, signer, now) is Err
            &&& claim_checks(joined(b, opponent), signer, now) is Err
            &&& (claim_checks(s, signer, now) is Ok <==> (now >= end_time && (signer@ == maker@
                || signer@ == opponent@)))
        }),
{
}

} // verus!
