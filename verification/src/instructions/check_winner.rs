use vstd::prelude::*;

use crate::errors::Errors;
use crate::feed::{
    decimal_as_u64, decimal_from_i64, decimal_mul, decimal_product, decimal_to_u64,
    feed_discriminator, feed_submission_list, feed_submissions, fits_decimal, fresh_values,
    leading_submissions, max_mantissa, median_of, pow10, read_feed_price, read_median,
    read_underflows, DecimalValue, FeedFailure,
};
use crate::instructions::claim_prize::{end_checks, signer_is_party};
use crate::pubkey::Pubkey;
use crate::state::bet::{Bet, BetStatus};

verus! {

/// The accounts that settle a bet: the signer, the two parties, the bet and
/// the price feed account.
pub struct CheckWinner {
    pub signer: Pubkey,
    pub maker: Pubkey,
    pub opponent: Pubkey,
    pub bet: Bet,
    pub feed_injector: Pubkey,
}

/// How many slots old a feed's submissions may be.
pub const MAX_STALE_SLOTS: u64 = 300;

/// How many submissions a feed value needs.
pub const MIN_SAMPLES: u32 = 1;

/// The factor by which a feed price is scaled, as the decimal is multiplied.
pub const PRICE_FACTOR_I64: i64 = 10_000_000_000;

/// The factor by which the integer price is scaled again.
pub const PRICE_FACTOR_U64: u64 = 10_000_000_000;

/// The checks before a winner is picked: none is picked yet, and someone
/// has joined the bet.
pub open spec fn resolution_checks(bet: Bet) -> Result<(), Errors> {
    if bet.winner is Some {
        Err(Errors::BetAlreadyResolved)
    } else if bet.opponent is None {
        Err(Errors::BetNotAccepted)
    } else {
        Ok(())
    }
}

/// The stand-in price of the test resolution: the timestamp's remainder by
/// 1000, with the sign of the timestamp, as Rust's `%` computes it.
pub open spec fn timestamp_price(now: i64) -> int {
    if now >= 0 {
        (now as int) % 1000
    } else {
        -((-(now as int)) % 1000)
    }
}

/// The bet once `winner` is recorded as its winner: it is then completed.
pub open spec fn won_by(bet: Bet, winner: Pubkey) -> Bet {
    Bet { winner: Some(winner), status: BetStatus::Completed, ..bet }
}

/// The feed price times `10^10`, as `Decimal::checked_mul` computes it.
pub open spec fn scaled_price(price: DecimalValue) -> Option<DecimalValue> {
    decimal_product(price, DecimalValue { mantissa: PRICE_FACTOR_I64 as i128, scale: 0 })
}

/// The price in the units the bet compares: the integer part of the scaled
/// price, times `10^10` again; or the error that the conversion gives.
pub open spec fn price_units(price: DecimalValue) -> Result<int, Errors> {
    match scaled_price(price) {
        None => Err(Errors::NoValueFound),
        Some(scaled) => match decimal_as_u64(scaled) {
            None => Err(Errors::NoValueFound),
            Some(p) => if p * PRICE_FACTOR_U64 > u64::MAX {
                Err(Errors::PriceConversionOverflow)
            } else {
                Ok(p * PRICE_FACTOR_U64)
            },
        },
    }
}

/// The maker wins when the price lies on the side of the prediction that
/// the maker took.
pub open spec fn maker_wins(creator_estimate: bool, price: int, prediction: int) -> bool {
    if creator_estimate {
        price >= prediction
    } else {
        price < prediction
    }
}

/// Settling at `price` goes through without a panic: the scaled decimal
/// exists, and a prediction that is compared with the price is not negative.
pub open spec fn settles_at(bet: Bet, price: DecimalValue) -> bool {
    &&& scaled_price(price) is Some
    &&& price_units(price) is Ok ==> bet.price_prediction >= 0
}

/// The accounts after settling at `price`, when the conversion succeeds.
pub open spec fn settled(ctx: CheckWinner, price: DecimalValue) -> CheckWinner {
    match price_units(price) {
        Ok(p) => CheckWinner {
            bet: won_by(
                ctx.bet,
                if maker_wins(ctx.bet.creator_estimate, p, ctx.bet.price_prediction as int) {
                    ctx.bet.maker
                } else {
                    ctx.bet.opponent.unwrap()
                },
            ),
            ..ctx
        },
        Err(_) => ctx,
    }
}

/// The checks before the feed is read: those of a resolution, then that the
/// feed account is the one the bet names.
pub open spec fn feed_checks(ctx: CheckWinner) -> Result<(), Errors> {
    match resolution_checks(ctx.bet) {
        Err(e) => Err(e),
        Ok(()) => if ctx.feed_injector@ == ctx.bet.feed_injector@ {
            Ok(())
        } else {
            Err(Errors::MismatchFeed)
        },
    }
}

/// The price that the feed in `data` reports at `clock_slot`, read with at
/// most `MAX_STALE_SLOTS` slots of staleness, `MIN_SAMPLES` samples and
/// positive values only: the median at the feed's precision.
pub open spec fn reported_price(data: Seq<u8>, clock_slot: u64) -> Option<DecimalValue> {
    match read_median(feed_submissions(data), clock_slot, MAX_STALE_SLOTS, MIN_SAMPLES, true) {
        Some(m) => Some(DecimalValue { mantissa: m, scale: 18 }),
        None => None,
    }
}

/// The outcome of settling from feed data that decodes. `None` stands for the
/// cases in which the read or the settlement panics: the read underflows on
/// the slot, the median it converts lies beyond a decimal's range, or a
/// negative prediction is compared with the price. A refused read gives
/// `NoValueFound`; otherwise the conversion decides.
pub open spec fn decoded_outcome(bet: Bet, data: Seq<u8>, clock_slot: u64) -> Option<Result<(), Errors>> {
    let subs = feed_submissions(data);
    if read_underflows(subs, clock_slot, MAX_STALE_SLOTS) {
        None
    } else {
        match read_median(subs, clock_slot, MAX_STALE_SLOTS, MIN_SAMPLES, true) {
            None => Some(Err(Errors::NoValueFound)),
            Some(m) => if !fits_decimal(m as int) {
                None
            } else {
                match price_units(DecimalValue { mantissa: m, scale: 18 }) {
                    Err(e) => Some(Err(e)),
                    Ok(_) => if bet.price_prediction < 0 {
                        None
                    } else {
                        Some(Ok(()))
                    },
                }
            },
        }
    }
}

/// The leading submissions are the first `k`, when the first `k` are not
/// empty and the next one is, or there is none.
proof fn lemma_leading_prefix(subs: Seq<(u64, i128)>, k: int)
    requires
        0 <= k <= subs.len(),
        forall|j: int| 0 <= j < k ==> (#[trigger] subs[j]).0 != 0,
        k == subs.len() || subs[k].0 == 0,
    ensures
        leading_submissions(subs) == subs.take(k),
    decreases k,
{
    if k == 0 {
        assert(subs.take(0) =~= Seq::<(u64, i128)>::empty());
    } else {
        let rest = subs.drop_first();
        assert forall|j: int| 0 <= j < k - 1 implies (#[trigger] rest[j]).0 != 0 by {
            assert(rest[j] == subs[j + 1]);
        }
        lemma_leading_prefix(rest, k - 1);
        assert(subs.take(k) =~= seq![subs[0]] + rest.take(k - 1));
    }
}

/// A feed price, times `10^10`, always exists as a decimal.
proof fn lemma_feed_price_scales(price: DecimalValue)
    requires
        price.wf(),
        price.scale == 18,
        price.mantissa > 0,
    ensures
        10 * (price.mantissa * PRICE_FACTOR_I64) <= max_mantissa() * pow10(18),
        price.mantissa * PRICE_FACTOR_I64 > 0,
{
    reveal_with_fuel(pow10, 19);
    assert(pow10(18) == 1_000_000_000_000_000_000);
    let m = price.mantissa as int;
    assert(10 * (m * 10_000_000_000) <= 0xFFFF_FFFF_FFFF_FFFF_FFFF_FFFFint * 1_000_000_000_000_000_000)
        by (nonlinear_arith)
        requires
            0 < m <= 0xFFFF_FFFF_FFFF_FFFF_FFFF_FFFFint,
    ;
    assert(m * 10_000_000_000 > 0) by (nonlinear_arith)
        requires
            0 < m,
    ;
}

impl CheckWinner {
    /// Checks that the bet has ended at `now` and that the signer is one of
    /// its parties.
    pub fn check_winner(&mut self, now: i64) -> (r: Result<(), Errors>)
        ensures
            r == end_checks(old(self).bet, old(self).signer, now),
            *final(self) == *old(self),
    {
        if now < self.bet.end_time {
            return Err(Errors::BetNotEndedYet);
        }
        if !signer_is_party(&self.bet, &self.signer) {
            return Err(Errors::UnauthorizedAccess);
        }
        Ok(())
    }

    /// Picks a winner from the timestamp `now`, for trying the flow out: the
    /// maker wins when the timestamp's remainder by 1000 reaches the
    /// prediction, else the bet's opponent does; the bet is then completed.
    pub fn check_winner_bet_dummy(&mut self, now: i64) -> (r: Result<(), Errors>)
        ensures
            r == resolution_checks(old(self).bet),
            r is Err ==> *final(self) == *old(self),
            r is Ok ==> final(self).bet.winner == Some(
                if (if now >= 0 {
                    (now as int) % 1000
                } else {
                    -((-(now as int)) % 1000)
                }) >= old(self).bet.price_prediction {
                    old(self).bet.maker
                } else {
                    old(self).bet.opponent.unwrap()
                },
            ),
            r is Ok ==> final(self).bet.status == BetStatus::Completed,
            r is Ok <==> (old(self).bet.winner is None && old(self).bet.opponent is Some),
            r is Ok ==> *final(self) == (CheckWinner {
                bet: won_by(
                    old(self).bet,
                    if timestamp_price(now) >= old(self).bet.price_prediction {
                        old(self).bet.maker
                    } else {
                        old(self).bet.opponent.unwrap()
                    },
                ),
                ..*old(self)
            }),
    {
        if self.bet.winner.is_some() {
            return Err(Errors::BetAlreadyResolved);
        }
        let opponent = match self.bet.opponent {
            Some(o) => o,
            None => return Err(Errors::BetNotAccepted),
        };
        let random_price = now % 1000;
        let creator_wins = random_price >= self.bet.price_prediction;
        self.bet.winner = Some(
            if creator_wins {
                self.bet.maker
            } else {
                opponent
            },
        );
        self.bet.status = BetStatus::Completed;
        Ok(())
    }

    /// Settles the bet at the feed price `price`: the price is scaled by
    /// `10^10` as a decimal, turned into an integer and scaled by `10^10`
    /// again, and compared with the prediction on the maker's side; the
    /// winner is recorded and the bet completed.
    pub fn settle_with_price(&mut self, price: DecimalValue) -> (r: Result<(), Errors>)
        requires
            price.wf(),
            old(self).bet.opponent is Some,
            settles_at(old(self).bet, price),
        ensures
            *final(self) == settled(*old(self), price),
            r == match price_units(price) {
                Ok(_) => Ok::<(), Errors>(()),
                Err(e) => Err(e),
            },
    {
        let factor = decimal_from_i64(PRICE_FACTOR_I64).unwrap();
        let multiplied_price = decimal_mul(price, factor).unwrap();
        let whole = match decimal_to_u64(multiplied_price) {
            Some(w) => w,
            None => return Err(Errors::NoValueFound),
        };
        let price_u64 = match whole.checked_mul(PRICE_FACTOR_U64) {
            Some(p) => p,
            None => return Err(Errors::PriceConversionOverflow),
        };
        let prediction = self.bet.price_prediction as u64;
        let initiator_wins = if self.bet.creator_estimate {
            price_u64 >= prediction
        } else {
            price_u64 < prediction
        };
        let opponent = self.bet.opponent.unwrap();
        self.bet.winner = Some(
            if initiator_wins {
                self.bet.maker
            } else {
                opponent
            },
        );
        self.bet.status = BetStatus::Completed;
        Ok(())
    }

    /// Settles the bet from the Switchboard feed whose account data is
    /// `feed_data`, at slot `clock_slot`. After the checks, a feed that does
    /// not decode gives `NoFeedData`; one that decodes gives
    /// `decoded_outcome`, where `None` stands for the cases in which the read
    /// or the settlement would panic, and nothing is changed then.
    pub fn check_winner_bet_switchboard(&mut self, feed_data: &mut [u8], clock_slot: u64) -> (r:
        Option<Result<(), Errors>>)
        ensures
            final(feed_data)@ == old(feed_data)@,
            feed_checks(*old(self)) matches Err(e) ==> r == Some(Err::<(), Errors>(e)),
            feed_checks(*old(self)) is Ok ==> r == Some(Err::<(), Errors>(Errors::NoFeedData))
                || r == decoded_outcome(old(self).bet, old(feed_data)@, clock_slot),
            feed_checks(*old(self)) is Ok && !(old(feed_data)@.len() >= 8 && old(feed_data)@.subrange(
                0,
                8,
            ) == feed_discriminator()) ==> r == Some(Err::<(), Errors>(Errors::NoFeedData)),
            !(r matches Some(Ok(()))) ==> *final(self) == *old(self),
            r matches Some(Ok(())) ==> reported_price(old(feed_data)@, clock_slot) matches Some(v)
                && *final(self) == settled(*old(self), v),
    {
        if self.bet.winner.is_some() {
            return Some(Err(Errors::BetAlreadyResolved));
        }
        if self.bet.opponent.is_none() {
            return Some(Err(Errors::BetNotAccepted));
        }
        if !self.feed_injector.same_as(&self.bet.feed_injector) {
            return Some(Err(Errors::MismatchFeed));
        }
        let subs = match feed_submission_list(feed_data) {
            Ok(v) => v,
            Err(_) => return Some(Err(Errors::NoFeedData)),
        };
        let ghost subs_view = feed_submissions(old(feed_data)@);
        let mut k: usize = 0;
        while k < subs.len() && subs[k].0 != 0
            invariant
                subs@ == subs_view,
                0 <= k <= subs@.len(),
                forall|j: int| 0 <= j < k ==> (#[trigger] subs@[j]).0 != 0,
            decreases subs@.len() - k,
        {
            k = k + 1;
        }
        proof {
            lemma_leading_prefix(subs@, k as int);
        }
        if k > 0 && clock_slot < MAX_STALE_SLOTS {
            return None;
        }
        let ghost oldest: int = clock_slot - MAX_STALE_SLOTS;
        let mut sampled: Vec<i128> = Vec::new();
        let mut i: usize = 0;
        while i < k
            invariant
                subs@ == subs_view,
                0 <= i <= k <= subs@.len(),
                k > 0 ==> clock_slot >= MAX_STALE_SLOTS,
                oldest == clock_slot - MAX_STALE_SLOTS,
                sampled@ == fresh_values(subs@.take(i as int), oldest),
            decreases k - i,
        {
            let (slot, value) = subs[i];
            proof {
                assert(subs@.take(i + 1).drop_last() =~= subs@.take(i as int));
                assert(subs@.take(i + 1).last() == subs@[i as int]);
            }
            if slot >= clock_slot - MAX_STALE_SLOTS {
                sampled.push(value);
            }
            i = i + 1;
        }
        assert(sampled@ == fresh_values(leading_submissions(subs_view), oldest));
        if sampled.len() < 1 {
            return Some(Err(Errors::NoValueFound));
        }
        let m = match median_of(sampled) {
            Some(m) => m,
            None => return Some(Err(Errors::NoValueFound)),
        };
        if m <= 0 {
            return Some(Err(Errors::NoValueFound));
        }
        if m > 0xFFFF_FFFF_FFFF_FFFF_FFFF_FFFFi128 {
            return None;
        }
        let price = match read_feed_price(feed_data, clock_slot, MAX_STALE_SLOTS, MIN_SAMPLES, true) {
            Ok(p) => p,
            Err(FeedFailure::Decode(_)) => return Some(Err(Errors::NoFeedData)),
            Err(FeedFailure::Read(_)) => return Some(Err(Errors::NoValueFound)),
        };
        let factor = decimal_from_i64(PRICE_FACTOR_I64).unwrap();
        proof {
            lemma_feed_price_scales(price);
        }
        let probe = decimal_mul(price, factor);
        assert(probe is Some);
        if self.bet.price_prediction < 0 {
            let units_ok = match decimal_to_u64(probe.unwrap()) {
                Some(w) => w.checked_mul(PRICE_FACTOR_U64).is_some(),
                None => false,
            };
            if units_ok {
                return None;
            }
        }
        assert(reported_price(old(feed_data)@, clock_slot) == Some(price));
        assert(scaled_price(price) == probe);
        Some(self.settle_with_price(price))
    }
}

} // verus!
