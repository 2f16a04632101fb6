use vstd::prelude::*;

use crate::errors::Errors;
use crate::feed::{
    decimal_as_u64, decimal_product, feed_discriminator, feed_submissions, fits_decimal,
    fresh_values, leading_submissions, lower_median, max_mantissa, pow10, read_median,
    read_underflows, sampled_values, DecimalValue,
};
use crate::instructions::accept_bet::{can_join, joined};
use crate::instructions::cancel_bet::{can_cancel, without_bet};
use crate::instructions::check_winner::{
    decoded_outcome, feed_checks, maker_wins, price_units, reported_price, resolution_checks,
    scaled_price, settled, timestamp_price, won_by, CheckWinner, MAX_STALE_SLOTS, MIN_SAMPLES,
    PRICE_FACTOR_I64, PRICE_FACTOR_U64,
};
use crate::instructions::claim_prize::{claim_checks, end_checks};
use crate::instructions::create_bet::{created_bet, with_new_bet, CreateBetBumps};
use crate::instructions::init::{initial_house, InitBumps};
use crate::pubkey::Pubkey;
use crate::state::bet::{Bet, BetStatus, Odds};
use crate::state::user::{claimed, User};
use crate::transfer::{treasury_prefix, vault_prefix, Transfer};

verus! {

/// A created bet holds each argument of `create_bet` as it was given: the
/// maker, the token, the odds, the prediction, the times, the stake, the
/// seed, the bumps, the feed and the maker's side; it has no opponent and no
/// winner yet, is looking for an opponent, and is not settled. The opponent's
/// deposit is the stake times the opponent's odds when the maker's odds are
/// 1, and otherwise the stake divided by the maker's odds, rounded down.
pub proof fn lemma_created_bet_holds_its_arguments(
    maker: Pubkey,
    token_mint: Pubkey,
    odds: Odds,
    price_prediction: i64,
    deadline_to_join: i64,
    start_time: i64,
    end_time: i64,
    amount: u64,
    seed: u64,
    bumps: CreateBetBumps,
    feed_injector: Pubkey,
    creator_estimate: bool,
)
    requires
        odds.maker_odds != 0,
        odds.maker_odds == 1 ==> amount * odds.opponent_odds <= u64::MAX,
    ensures
        ({
            let b = created_bet(
                maker,
                token_mint,
                odds,
                price_prediction,
                deadline_to_join,
                start_time,
                end_time,
                amount,
                seed,
                bumps,
                feed_injector,
                creator_estimate,
            );
            &&& b.maker == maker
            &&& b.opponent is None
            &&& b.token_mint == token_mint
            &&& b.odds == odds
            &&& b.status == BetStatus::FindingOpponent
            &&& b.price_prediction == price_prediction
            &&& b.deadline_to_join == deadline_to_join
            &&& b.start_time == start_time
            &&& b.end_time == end_time
            &&& b.maker_deposit == amount
            &&& !b.amount_settled
            &&& b.seed == seed
            &&& b.bump == bumps.bet
            &&& b.vault_pool_bump == bumps.vault_pool
            &&& b.winner is None
            &&& b.feed_injector == feed_injector
            &&& b.creator_estimate == creator_estimate
            &&& odds.maker_odds == 1 ==> b.opponent_deposit == amount * odds.opponent_odds
            &&& odds.maker_odds != 1 ==> b.opponent_deposit * odds.maker_odds <= amount < (
            b.opponent_deposit + 1) * odds.maker_odds
        }),
{
    let q = (amount / odds.maker_odds) as int;
    assert(q * odds.maker_odds <= amount < (q + 1) * odds.maker_odds) by (nonlinear_arith)
        requires
            odds.maker_odds > 0,
            q == amount as int / odds.maker_odds as int,
    ;
}

/// Counting a new bet on a record adds exactly one bet and keeps the wins,
/// losses and draws; a record whose counters are all zero takes the new bump,
/// any other keeps its own.
pub proof fn lemma_new_bet_counts_once(u: User, bump: u8)
    requires
        u.total_bets < u64::MAX,
    ensures
        with_new_bet(u, bump).total_bets == u.total_bets + 1,
        with_new_bet(u, bump).total_winnings == u.total_winnings,
        with_new_bet(u, bump).total_losses == u.total_losses,
        with_new_bet(u, bump).total_draws == u.total_draws,
        with_new_bet(u, bump).bump == if u.total_bets == 0 && u.total_winnings == 0
            && u.total_losses == 0 && u.total_draws == 0 {
            bump
        } else {
            u.bump
        },
        claimed(u, bump).total_bets == u.total_bets,
        claimed(u, bump).total_winnings == u.total_winnings,
        claimed(u, bump).total_losses == u.total_losses,
        claimed(u, bump).total_draws == u.total_draws,
        claimed(u, bump).bump == with_new_bet(u, bump).bump,
{
}

/// Removing a cancelled bet takes exactly one bet off the record and keeps
/// everything else.
pub proof fn lemma_cancel_takes_one_bet_off(u: User)
    requires
        u.total_bets > 0,
    ensures
        without_bet(u).total_bets + 1 == u.total_bets,
        (User { total_bets: u.total_bets, ..without_bet(u) }) == u,
{
}

/// A bet can be joined exactly while it has no opponent and its deadline has
/// not come, whatever its odds and deposits; joining records the opponent and
/// changes nothing else. A bet can be cancelled exactly while it has no
/// opponent.
pub proof fn lemma_join_and_cancel_conditions(bet: Bet, now: i64, opponent: Pubkey)
    ensures
        can_join(bet, now) <==> (bet.opponent is None && now < bet.deadline_to_join),
        joined(bet, opponent).opponent == Some(opponent),
        (Bet { opponent: bet.opponent, ..joined(bet, opponent) }) == bet,
        can_cancel(bet) <==> bet.opponent is None,
{
}

/// The test resolution's price is the timestamp's remainder by 1000 with the
/// timestamp's sign: it lies in `0..1000` for a timestamp that is not
/// negative and in `-999..=0` for a negative one, and differs from the
/// timestamp by a multiple of 1000.
pub proof fn lemma_timestamp_price_is_remainder_by_1000(now: i64)
    ensures
        now >= 0 ==> 0 <= timestamp_price(now) < 1000,
        now < 0 ==> -1000 < timestamp_price(now) <= 0,
        (now - timestamp_price(now)) % 1000 == 0,
{
    let n = now as int;
    if n >= 0 {
        assert((n - n % 1000) % 1000 == 0) by (nonlinear_arith)
            requires
                n >= 0,
        ;
    } else {
        let a = -n;
        assert((a - a % 1000) % 1000 == 0) by (nonlinear_arith)
            requires
                a > 0,
        ;
        assert(n - timestamp_price(now) == -(a - a % 1000));
        assert((-(a - a % 1000)) % 1000 == 0) by (nonlinear_arith)
            requires
                (a - a % 1000) % 1000 == 0,
        ;
    }
}

/// `init` records the admin, the fee and both bumps as given.
pub proof fn lemma_initial_house_holds_its_arguments(admin: Pubkey, fees: i16, bumps: InitBumps)
    ensures
        initial_house(admin, fees, bumps).admin == admin,
        initial_house(admin, fees, bumps).protocl_fees == fees,
        initial_house(admin, fees, bumps).bump == bumps.house,
        initial_house(admin, fees, bumps).treasury_bump == bumps.treasury,
{
}

/// The end of a bet is open to its maker and its opponent once its end time
/// has come: earlier, every signer is told the bet has not ended; later, a
/// stranger is refused. A claim also needs the bet completed.
pub proof fn lemma_end_and_claim_conditions(bet: Bet, signer: Pubkey, now: i64)
    ensures
        end_checks(bet, signer, now) is Ok <==> (now >= bet.end_time && (signer@ == bet.maker@ || (
        bet.opponent matches Some(o) && signer@ == o@))),
        now < bet.end_time ==> end_checks(bet, signer, now) == Err::<(), Errors>(
            Errors::BetNotEndedYet,
        ),
        now >= bet.end_time && end_checks(bet, signer, now) is Err ==> end_checks(bet, signer, now)
            == Err::<(), Errors>(Errors::UnauthorizedAccess),
        claim_checks(bet, signer, now) is Ok <==> (end_checks(bet, signer, now) is Ok && bet.status
            == BetStatus::Completed),
        end_checks(bet, signer, now) is Err ==> claim_checks(bet, signer, now) == end_checks(
            bet,
            signer,
            now,
        ),
        end_checks(bet, signer, now) is Ok && bet.status != BetStatus::Completed ==> claim_checks(
            bet,
            signer,
            now,
        ) == Err::<(), Errors>(Errors::BetNotResolvedYet),
{
}

/// A winner can be picked exactly when none is and someone has joined;
/// recording one sets the winner, completes the bet and changes nothing else.
pub proof fn lemma_resolution_and_winner(bet: Bet, winner: Pubkey)
    ensures
        resolution_checks(bet) is Ok <==> (bet.winner is None && bet.opponent is Some),
        bet.winner is Some ==> resolution_checks(bet) == Err::<(), Errors>(
            Errors::BetAlreadyResolved,
        ),
        bet.winner is None && bet.opponent is None ==> resolution_checks(bet) == Err::<(), Errors>(
            Errors::BetNotAccepted,
        ),
        won_by(bet, winner).winner == Some(winner),
        won_by(bet, winner).status == BetStatus::Completed,
        (Bet { winner: bet.winner, status: bet.status, ..won_by(bet, winner) }) == bet,
{
}

/// The maker wins at a price at or above the prediction when the maker took
/// that side, and at a price below it otherwise.
pub proof fn lemma_maker_wins_on_their_side(creator_estimate: bool, price: int, prediction: int)
    ensures
        creator_estimate ==> (maker_wins(creator_estimate, price, prediction) <==> price
            >= prediction),
        !creator_estimate ==> (maker_wins(creator_estimate, price, prediction) <==> price
            < prediction),
{
}

/// The settlement's fixed quantities: prices scale by `10^10` twice, the feed
/// is read with at most 300 stale slots and at least one sample.
pub proof fn lemma_settlement_constants()
    ensures
        PRICE_FACTOR_I64 == 10_000_000_000,
        PRICE_FACTOR_U64 == 10_000_000_000,
        MAX_STALE_SLOTS == 300,
        MIN_SAMPLES == 1,
{
}

/// The price the bet compares is the integer part of the feed price times
/// `10^10`, times `10^10` again: a whole number of `10^10` units that fits in
/// a `u64`. A negative scaled price, or an integer part beyond a `u64`, gives
/// `NoValueFound`; a result beyond a `u64` gives `PriceConversionOverflow`.
pub proof fn lemma_price_units_scale_twice(price: DecimalValue)
    requires
        scaled_price(price) is Some,
    ensures
        scaled_price(price) == decimal_product(
            price,
            DecimalValue { mantissa: 10_000_000_000, scale: 0 },
        ),
        ({
            let s = scaled_price(price).unwrap();
            let whole = (s.mantissa as int) / pow10(s.scale as nat);
            &&& s.mantissa < 0 ==> price_units(price) == Err::<int, Errors>(Errors::NoValueFound)
            &&& s.mantissa >= 0 && whole > u64::MAX ==> price_units(price) == Err::<int, Errors>(
                Errors::NoValueFound,
            )
            &&& s.mantissa >= 0 && whole <= u64::MAX && whole * 10_000_000_000 > u64::MAX
                ==> price_units(price) == Err::<int, Errors>(Errors::PriceConversionOverflow)
            &&& s.mantissa >= 0 && whole * 10_000_000_000 <= u64::MAX ==> price_units(price)
                == Ok::<int, Errors>(whole * 10_000_000_000)
        }),
{
    let s = scaled_price(price).unwrap();
    lemma_pow10_positive(s.scale as nat);
    let d = pow10(s.scale as nat);
    let whole = (s.mantissa as int) / d;
    if s.mantissa >= 0 {
        let m = s.mantissa as int;
        assert(whole >= 0) by (nonlinear_arith)
            requires
                m >= 0,
                d >= 1,
                whole == m / d,
        ;
    }
}

/// Settling at a price records the maker as winner exactly when the price
/// lies on the maker's side of the prediction, and the bet's opponent
/// otherwise, completes the bet and changes nothing else; a price that does
/// not convert changes nothing.
pub proof fn lemma_settled_picks_by_side(ctx: CheckWinner, price: DecimalValue)
    requires
        ctx.bet.opponent is Some,
    ensures
        price_units(price) matches Ok(p) ==> {
            &&& settled(ctx, price).bet.winner == Some(
                if (if ctx.bet.creator_estimate {
                    p >= ctx.bet.price_prediction
                } else {
                    p < ctx.bet.price_prediction
                }) {
                    ctx.bet.maker
                } else {
                    ctx.bet.opponent.unwrap()
                },
            )
            &&& settled(ctx, price).bet.status == BetStatus::Completed
            &&& (Bet {
                winner: ctx.bet.winner,
                status: ctx.bet.status,
                ..settled(ctx, price).bet
            }) == ctx.bet
            &&& (CheckWinner { bet: ctx.bet, ..settled(ctx, price) }) == ctx
        },
        price_units(price) is Err ==> settled(ctx, price) == ctx,
{
}

/// A transfer that its payer signs names the payer, the payee and the amount
/// and carries no seeds; one that the program signs carries the three seeds:
/// the prefix, the key and the bump.
pub proof fn lemma_transfer_shapes(
    t: Transfer,
    from: Pubkey,
    to: Pubkey,
    lamports: u64,
    prefix: Seq<u8>,
    key: Pubkey,
    bump: u8,
)
    ensures
        t.is_plain(from, to, lamports) ==> t.from == from && t.to == to && t.lamports == lamports
            && t.signer_seeds@.len() == 0,
        t.is_signed(from, to, lamports, prefix, key, bump) ==> {
            &&& t.from == from
            &&& t.to == to
            &&& t.lamports == lamports
            &&& t.signer_seeds@.len() == 3
            &&& t.signer_seeds@[0]@ == prefix
            &&& t.signer_seeds@[1]@ == key@
            &&& t.signer_seeds@[2]@ == seq![bump]
        },
{
    if t.is_plain(from, to, lamports) {
        assert(t.seeds().len() == t.signer_seeds@.len());
    }
    if t.is_signed(from, to, lamports, prefix, key, bump) {
        assert(t.seeds().len() == t.signer_seeds@.len());
        assert(t.seeds()[0] == t.signer_seeds@[0]@);
        assert(t.seeds()[1] == t.signer_seeds@[1]@);
        assert(t.seeds()[2] == t.signer_seeds@[2]@);
    }
}

/// Every power of ten is positive.
proof fn lemma_pow10_positive(n: nat)
    ensures
        pow10(n) >= 1,
    decreases n,
{
    if n > 0 {
        lemma_pow10_positive((n - 1) as nat);
    }
}

/// The seed prefixes are the ASCII bytes of `vault` and `treasury`.
pub proof fn lemma_seed_prefixes()
    ensures
        vault_prefix().len() == 5,
        vault_prefix()[0] == 118 && vault_prefix()[1] == 97 && vault_prefix()[2] == 117
            && vault_prefix()[3] == 108 && vault_prefix()[4] == 116,
        treasury_prefix().len() == 8,
        treasury_prefix()[0] == 116 && treasury_prefix()[1] == 114 && treasury_prefix()[2] == 101
            && treasury_prefix()[3] == 97 && treasury_prefix()[4] == 115 && treasury_prefix()[5]
            == 117 && treasury_prefix()[6] == 114 && treasury_prefix()[7] == 121,
{
}

/// The leading submissions are the longest prefix of non-empty ones: each is
/// the submission at its place with a slot that is not 0, and the next one,
/// if any, is empty.
pub proof fn lemma_leading_submissions_are_the_non_empty_prefix(subs: Seq<(u64, i128)>)
    ensures
        leading_submissions(subs).len() <= subs.len(),
        forall|i: int|
            0 <= i < leading_submissions(subs).len() ==> #[trigger] leading_submissions(subs)[i]
                == subs[i] && subs[i].0 != 0,
        leading_submissions(subs).len() < subs.len() ==> subs[leading_submissions(subs).len() as int].0
            == 0,
    decreases subs.len(),
{
    if subs.len() > 0 && subs[0].0 != 0 {
        let rest = subs.drop_first();
        lemma_leading_submissions_are_the_non_empty_prefix(rest);
        let l = leading_submissions(subs);
        assert(l == seq![subs[0]] + leading_submissions(rest));
        assert forall|i: int| 0 <= i < l.len() implies #[trigger] l[i] == subs[i] && subs[i].0 != 0 by {
            if i > 0 {
                assert(l[i] == leading_submissions(rest)[i - 1]);
                assert(rest[i - 1] == subs[i]);
            }
        }
        if l.len() < subs.len() {
            assert(rest[leading_submissions(rest).len() as int] == subs[l.len() as int]);
        }
    }
}

/// The fresh values are the values of the submissions whose slot is at least
/// `oldest`, in order.
pub proof fn lemma_fresh_values_filter(subs: Seq<(u64, i128)>, oldest: int)
    ensures
        fresh_values(subs, oldest) == subs.filter(|s: (u64, i128)| s.0 >= oldest).map_values(
            |s: (u64, i128)| s.1,
        ),
    decreases subs.len(),
{
    reveal_with_fuel(Seq::filter, 1);
    if subs.len() > 0 {
        lemma_fresh_values_filter(subs.drop_last(), oldest);
        let pred = |s: (u64, i128)| s.0 >= oldest;
        let f = |s: (u64, i128)| s.1;
        let rest = subs.drop_last().filter(pred);
        if pred(subs.last()) {
            assert(rest.push(subs.last()).map_values(f) =~= rest.map_values(f).push(subs.last().1));
        }
    }
}

/// The values that the feed's median is taken of are the values of the
/// leading non-empty submissions whose slot is at most `max_staleness` older
/// than `clock_slot`; the read underflows only with such a submission at a
/// slot earlier than `max_staleness`.
pub proof fn lemma_sampled_values(subs: Seq<(u64, i128)>, clock_slot: u64, max_staleness: u64)
    ensures
        sampled_values(subs, clock_slot, max_staleness) == fresh_values(
            leading_submissions(subs),
            clock_slot - max_staleness,
        ),
        read_underflows(subs, clock_slot, max_staleness) <==> (clock_slot < max_staleness
            && leading_submissions(subs).len() > 0),
{
}

/// The read gives the lower median of the sampled values when there are
/// enough of them and, when only positive values are asked for, it is
/// positive; otherwise it refuses.
pub proof fn lemma_read_median(
    subs: Seq<(u64, i128)>,
    clock_slot: u64,
    max_staleness: u64,
    min_samples: u32,
    only_positive: bool,
)
    ensures
        ({
            let sampled = sampled_values(subs, clock_slot, max_staleness);
            let r = read_median(subs, clock_slot, max_staleness, min_samples, only_positive);
            &&& sampled.len() < min_samples ==> r is None
            &&& r matches Some(m) ==> lower_median(sampled) == Some(m) && (only_positive ==> m > 0)
            &&& lower_median(sampled) matches Some(m) ==> (sampled.len() >= min_samples && (
            !only_positive || m > 0) ==> r == Some(m))
        }),
{
}

/// The bet reads the feed with at most 300 stale slots, one sample and
/// positive values only, and takes the median at a scale of 18.
pub proof fn lemma_reported_price(data: Seq<u8>, clock_slot: u64)
    ensures
        reported_price(data, clock_slot) == match read_median(
            feed_submissions(data),
            clock_slot,
            300,
            1,
            true,
        ) {
            Some(m) => Some(DecimalValue { mantissa: m, scale: 18 }),
            None => None,
        },
{
}

/// Settling from decoded feed data: an underflowing read and a median beyond
/// a decimal stand for a panic (`None`); a refused read gives `NoValueFound`;
/// a fitting median settles, or gives the conversion's error, or stands for
/// a panic when a negative prediction is compared with it.
pub proof fn lemma_decoded_outcome(bet: Bet, data: Seq<u8>, clock_slot: u64)
    ensures
        ({
            let subs = feed_submissions(data);
            let r = read_median(subs, clock_slot, 300, 1, true);
            &&& read_underflows(subs, clock_slot, 300) ==> decoded_outcome(bet, data, clock_slot)
                is None
            &&& !read_underflows(subs, clock_slot, 300) && r is None ==> decoded_outcome(
                bet,
                data,
                clock_slot,
            ) == Some(Err::<(), Errors>(Errors::NoValueFound))
            &&& r matches Some(m) ==> !read_underflows(subs, clock_slot, 300) ==> {
                &&& !fits_decimal(m as int) ==> decoded_outcome(bet, data, clock_slot) is None
                &&& price_units(DecimalValue { mantissa: m, scale: 18 }) matches Err(e) ==> (
                fits_decimal(m as int) ==> decoded_outcome(bet, data, clock_slot) == Some(
                    Err::<(), Errors>(e),
                ))
                &&& fits_decimal(m as int) && price_units(DecimalValue { mantissa: m, scale: 18 })
                    is Ok ==> decoded_outcome(bet, data, clock_slot) == if bet.price_prediction < 0 {
                    None
                } else {
                    Some(Ok::<(), Errors>(()))
                }
            }
        }),
{
}

/// The feed is read only for a bet that can be resolved and whose recorded
/// feed is the feed account given; another feed account gives
/// `MismatchFeed`.
pub proof fn lemma_feed_checks(ctx: CheckWinner)
    ensures
        feed_checks(ctx) is Ok <==> (resolution_checks(ctx.bet) is Ok && ctx.feed_injector@
            == ctx.bet.feed_injector@),
        resolution_checks(ctx.bet) matches Err(e) ==> feed_checks(ctx) == Err::<(), Errors>(e),
        resolution_checks(ctx.bet) is Ok && ctx.feed_injector@ != ctx.bet.feed_injector@
            ==> feed_checks(ctx) == Err::<(), Errors>(Errors::MismatchFeed),
{
}

/// A decimal's integer part: for a value that is not negative and whose
/// integer part fits, the `u64` `w` with `w * 10^scale <= mantissa <
/// (w + 1) * 10^scale`; nothing for a negative value.
pub proof fn lemma_decimal_as_u64(v: DecimalValue)
    ensures
        v.mantissa < 0 ==> decimal_as_u64(v) is None,
        decimal_as_u64(v) matches Some(w) ==> v.mantissa >= 0 && w * pow10(v.scale as nat)
            <= v.mantissa < (w + 1) * pow10(v.scale as nat),
{
    lemma_pow10_positive(v.scale as nat);
    if v.mantissa >= 0 {
        let m = v.mantissa as int;
        let d = pow10(v.scale as nat);
        let w = m / d;
        assert(w * d <= m < (w + 1) * d) by (nonlinear_arith)
            requires
                d >= 1,
                m >= 0,
                w == m / d,
        ;
    }
}

/// The decimal bounds and the feed's discriminator: a mantissa holds 96
/// bits, powers of ten grow tenfold, and a pull feed opens with the bytes
/// 196, 27, 108, 196, 10, 215, 219, 40.
pub proof fn lemma_decimal_and_feed_constants(n: nat, m: int)
    ensures
        max_mantissa() == 79228162514264337593543950335,
        fits_decimal(m) <==> -79228162514264337593543950335 <= m <= 79228162514264337593543950335,
        pow10(0) == 1,
        pow10(n + 1) == 10 * pow10(n),
        feed_discriminator() =~= seq![196u8, 27u8, 108u8, 196u8, 10u8, 215u8, 219u8, 40u8],
{
    assert(pow10(n + 1) == 10 * pow10(((n + 1) - 1) as nat));
}

} // verus!
