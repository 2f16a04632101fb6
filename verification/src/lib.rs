pub mod errors;
pub mod escrow;
pub mod feed;
pub mod instructions;
pub mod laws;
pub mod laws_ops;
pub mod pubkey;
pub mod state;
pub mod transfer;

pub use errors::Errors;
pub use feed::DecimalValue;
pub use escrow::{deposit_handler, Deposit, EscrowState};
pub use instructions::{
    AcceptBet, AcceptBetBumps, CancelBet, CheckWinner, ClaimPrize, CreateBet, CreateBetBumps, Init, InitBumps,
    WithdrawTreasury,
};
pub use pubkey::Pubkey;
pub use state::{Bet, BetStatus, House, Odds, User};
pub use transfer::Transfer;
