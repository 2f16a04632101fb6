use vstd::prelude::*;

use crate::pubkey::Pubkey;

verus! {

/// The payout ratio: one of the two sides is always 1.
#[derive(Clone, Copy, Debug, PartialEq, Eq, Structural)]
pub struct Odds {
    pub maker_odds: u64,
    pub opponent_odds: u64,
}

/// Where a bet stands in its life.
#[derive(Clone, Copy, Debug, PartialEq, Eq, Structural)]
pub enum BetStatus {
    FindingOpponent,
    WaitingToStart,
    Ongoing,
    Completed,
}

/// A price bet between its maker and, once someone accepts it, an opponent.
#[derive(Clone, Copy, Debug)]
pub struct Bet {
    pub maker: Pubkey,
    pub opponent: Option<Pubkey>,
    /// The token whose price the bet is on.
    pub token_mint: Pubkey,
    pub odds: Odds,
    pub status: BetStatus,
    /// The maker's price prediction for the token.
    pub price_prediction: i64,
    /// An opponent can join before this time.
    pub deadline_to_join: i64,
    pub start_time: i64,
    pub end_time: i64,
    /// What the maker puts in, in lamports.
    pub maker_deposit: u64,
    pub amount_settled: bool,
    pub seed: u64,
    pub bump: u8,
    pub vault_pool_bump: u8,
    /// What the opponent puts in, in lamports.
    pub opponent_deposit: u64,
    pub winner: Option<Pubkey>,
    /// The price feed that settles the bet.
    pub feed_injector: Pubkey,
    /// The side of the prediction the maker takes: `true` for a price at or
    /// above it, `false` for one below.
    pub creator_estimate: bool,
}

/// Bytes that a bet account takes on chain at most, discriminator included:
/// the sum of its fields' encoded sizes, with the opponent and the winner set.
pub const BET_INIT_SPACE: usize = 8 + 32 + (1 + 32) + 32 + (8 + 8) + 1 + (8 * 4) + 8 + 1 + 8 + 1
    + 1 + 8 + (1 + 32) + 32 + 1;

} // verus!
