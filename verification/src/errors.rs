use vstd::prelude::*;

verus! {

/// Why an instruction of the betting program refuses to go on.
#[derive(Clone, Copy, Debug, PartialEq, Eq, Structural)]
pub enum Errors {
    AmountNotSufficient,
    InvalidOdds,
    EventAlreadyStarted,
    EventCantCancel,
    UnauthorizedAccess,
    BetNotEndedYet,
    BetNotResolvedYet,
    InvalidFeePercentage,
    InsufficientFunds,
    TransferFailed,
    InvalidBetStatus,
    PriceFeedError,
    InvalidStartTime,
    InvalidEndTime,
    InvalidDeadline,
    BetAlreadyResolved,
    BetNotAccepted,
    MismatchFeed,
    NoValueFound,
    NoFeedData,
    PriceConversionOverflow,
}

} // verus!
