pub mod bet;
pub mod house;
pub mod user;

pub use bet::{Bet, BetStatus, Odds, BET_INIT_SPACE};
pub use house::{House, HOUSE_INIT_SPACE};
pub use user::{User, USER_INIT_SPACE};
