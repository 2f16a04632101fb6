pub mod accept_bet;
pub mod cancel_bet;
pub mod check_winner;
pub mod claim_prize;
pub mod create_bet;
pub mod init;
pub mod withdraw_treasury;

pub use accept_bet::{AcceptBet, AcceptBetBumps};
pub use cancel_bet::CancelBet;
pub use check_winner::CheckWinner;
pub use claim_prize::ClaimPrize;
pub use create_bet::{CreateBet, CreateBetBumps};
pub use init::{Init, InitBumps};
pub use withdraw_treasury::WithdrawTreasury;
