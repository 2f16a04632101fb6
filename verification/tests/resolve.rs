use switchboard_on_demand::on_demand::accounts::pull_feed::PullFeedAccountData;
use synora::instructions::check_winner::CheckWinner;
use synora::{Bet, BetStatus, DecimalValue, Errors, Odds, Pubkey};

fn key(b: u8) -> Pubkey {
    Pubkey::new_from_array([b; 32])
}

const MAKER: u8 = 1;
const OPPONENT: u8 = 2;
const FEED: u8 = 5;

fn joined_bet(prediction: i64, creator_estimate: bool) -> Bet {
    Bet {
        maker: key(MAKER),
        opponent: Some(key(OPPONENT)),
        token_mint: key(4),
        odds: Odds { maker_odds: 1, opponent_odds: 1 },
        status: BetStatus::FindingOpponent,
        price_prediction: prediction,
        deadline_to_join: 10,
        start_time: 20,
        end_time: 30,
        maker_deposit: 100,
        amount_settled: false,
        seed: 1,
        bump: 2,
        vault_pool_bump: 3,
        opponent_deposit: 100,
        winner: None,
        feed_injector: key(FEED),
        creator_estimate,
    }
}

fn ctx(signer: u8, bet: Bet) -> CheckWinner {
    CheckWinner { signer: key(signer), maker: key(MAKER), opponent: key(OPPONENT), bet, feed_injector: key(FEED) }
}

#[test]
fn check_winner_accepts_a_party_after_the_end() {
    assert_eq!(ctx(MAKER, joined_bet(0, true)).check_winner(30), Ok(()));
    assert_eq!(ctx(OPPONENT, joined_bet(0, true)).check_winner(31), Ok(()));
}

#[test]
fn check_winner_refuses_before_the_end_and_strangers() {
    assert_eq!(ctx(MAKER, joined_bet(0, true)).check_winner(29), Err(Errors::BetNotEndedYet));
    assert_eq!(ctx(9, joined_bet(0, true)).check_winner(30), Err(Errors::UnauthorizedAccess));
    let lone = Bet { opponent: None, ..joined_bet(0, true) };
    assert_eq!(ctx(OPPONENT, lone).check_winner(30), Err(Errors::UnauthorizedAccess));
}

#[test]
fn dummy_resolution_uses_the_timestamp_remainder() {
    let mut c = ctx(MAKER, joined_bet(500, true));
    assert_eq!(c.check_winner_bet_dummy(12_345_678), Ok(()));
    assert_eq!(c.bet.winner, Some(key(MAKER)));
    let mut c = ctx(MAKER, joined_bet(700, true));
    assert_eq!(c.check_winner_bet_dummy(12_345_678), Ok(()));
    assert_eq!(c.bet.winner, Some(key(OPPONENT)));
    let mut c = ctx(MAKER, joined_bet(-678, true));
    assert_eq!(c.check_winner_bet_dummy(-12_345_678), Ok(()));
    assert_eq!(c.bet.winner, Some(key(MAKER)));
    let mut c = ctx(MAKER, joined_bet(-677, true));
    assert_eq!(c.check_winner_bet_dummy(-12_345_678), Ok(()));
    assert_eq!(c.bet.winner, Some(key(OPPONENT)));
}

#[test]
fn dummy_resolution_refuses_resolved_or_unjoined_bets() {
    let mut c = ctx(MAKER, joined_bet(0, true));
    c.check_winner_bet_dummy(5).unwrap();
    assert_eq!(c.check_winner_bet_dummy(5), Err(Errors::BetAlreadyResolved));
    let mut c = ctx(MAKER, Bet { opponent: None, ..joined_bet(0, true) });
    assert_eq!(c.check_winner_bet_dummy(5), Err(Errors::BetNotAccepted));
    assert_eq!(c.bet.winner, None);
}

fn price(mantissa: i128) -> DecimalValue {
    DecimalValue { mantissa, scale: 18 }
}

#[test]
fn settle_scales_the_price_twice_and_compares() {
    // 0.000001 becomes 10^4 after the decimal scaling, then 10^14.
    let mut c = ctx(MAKER, joined_bet(100_000_000_000_000, true));
    assert_eq!(c.settle_with_price(price(1_000_000_000_000)), Ok(()));
    assert_eq!(c.bet.winner, Some(key(MAKER)));
    let mut c = ctx(MAKER, joined_bet(100_000_000_000_001, true));
    assert_eq!(c.settle_with_price(price(1_000_000_000_000)), Ok(()));
    assert_eq!(c.bet.winner, Some(key(OPPONENT)));
    let mut c = ctx(MAKER, joined_bet(100_000_000_000_001, false));
    assert_eq!(c.settle_with_price(price(1_000_000_000_000)), Ok(()));
    assert_eq!(c.bet.winner, Some(key(MAKER)));
}

#[test]
fn settle_truncates_the_fraction_after_scaling() {
    // 0.00000123456 scaled by 10^10 is 12345.6, truncated to 12345.
    let mut c = ctx(MAKER, joined_bet(123_450_000_000_000, true));
    assert_eq!(c.settle_with_price(price(1_234_560_000_000)), Ok(()));
    assert_eq!(c.bet.winner, Some(key(MAKER)));
    let mut c = ctx(MAKER, joined_bet(123_450_000_000_001, true));
    assert_eq!(c.settle_with_price(price(1_234_560_000_000)), Ok(()));
    assert_eq!(c.bet.winner, Some(key(OPPONENT)));
}

#[test]
fn settle_reports_an_overflowing_price() {
    // 1.0 becomes 10^10, and 10^10 * 10^10 does not fit in a u64.
    let mut c = ctx(MAKER, joined_bet(0, true));
    assert_eq!(c.settle_with_price(price(1_000_000_000_000_000_000)), Err(Errors::PriceConversionOverflow));
    assert_eq!(c.bet.winner, None);
}

#[test]
fn settle_reports_a_negative_price() {
    let mut c = ctx(MAKER, joined_bet(0, true));
    assert_eq!(c.settle_with_price(price(-5)), Err(Errors::NoValueFound));
    assert_eq!(c.bet.winner, None);
}

#[test]
fn switchboard_resolution_checks_come_first() {
    let mut data = vec![0u8; 16];
    let mut c = ctx(MAKER, Bet { winner: Some(key(MAKER)), ..joined_bet(0, true) });
    assert_eq!(c.check_winner_bet_switchboard(&mut data, 1_000), Some(Err(Errors::BetAlreadyResolved)));
    let mut c = ctx(MAKER, Bet { opponent: None, ..joined_bet(0, true) });
    assert_eq!(c.check_winner_bet_switchboard(&mut data, 1_000), Some(Err(Errors::BetNotAccepted)));
    let mut c = CheckWinner { feed_injector: key(6), ..ctx(MAKER, joined_bet(0, true)) };
    assert_eq!(c.check_winner_bet_switchboard(&mut data, 1_000), Some(Err(Errors::MismatchFeed)));
}

#[test]
fn switchboard_resolution_refuses_data_that_is_no_feed() {
    let mut data = vec![0u8; 16];
    let mut c = ctx(MAKER, joined_bet(0, true));
    assert_eq!(c.check_winner_bet_switchboard(&mut data, 1_000), Some(Err(Errors::NoFeedData)));
    assert_eq!(c.bet.winner, None);
}

const DISCRIMINATOR: [u8; 8] = [196, 27, 108, 196, 10, 215, 219, 40];

/// A feed account image whose only submission is `value` at `slot`,
/// placed `offset` bytes into the buffer.
fn feed_image(offset: usize, slot: u64, value: i128) -> Vec<u8> {
    feed_image_of(offset, &[(slot, value)])
}

/// A feed account image whose submission slots start with `subs`.
fn feed_image_of(offset: usize, subs: &[(u64, i128)]) -> Vec<u8> {
    let size = std::mem::size_of::<PullFeedAccountData>();
    let mut buf = vec![0u8; offset + 8 + size];
    buf[offset..offset + 8].copy_from_slice(&DISCRIMINATOR);
    for (n, (slot, value)) in subs.iter().enumerate() {
        let sub = offset + 8 + 64 * n;
        buf[sub..sub + 32].copy_from_slice(&[9u8; 32]);
        buf[sub + 32..sub + 40].copy_from_slice(&slot.to_le_bytes());
        buf[sub + 40..sub + 48].copy_from_slice(&slot.to_le_bytes());
        buf[sub + 48..sub + 64].copy_from_slice(&value.to_le_bytes());
    }
    buf
}

/// Runs the feed resolution on a multi-submission image at every offset of
/// a 16-byte window and keeps the outcomes of the offsets that decode.
fn decoded_outcomes(bet: Bet, subs: &[(u64, i128)], clock_slot: u64) -> Vec<(Option<Result<(), Errors>>, Option<Pubkey>)> {
    let mut out = Vec::new();
    for offset in 0..16 {
        let mut buf = feed_image_of(offset, subs);
        let mut c = ctx(MAKER, bet);
        let r = c.check_winner_bet_switchboard(&mut buf[offset..], clock_slot);
        if r != Some(Err(Errors::NoFeedData)) {
            out.push((r, c.bet.winner));
        }
    }
    assert!(!out.is_empty());
    out
}

/// Runs the feed resolution on the image at every offset of a 16-byte
/// window; the offsets at which the feed is aligned decode it.
fn resolve_at_all_offsets(bet: Bet, slot: u64, value: i128, clock_slot: u64) -> Vec<(Option<Result<(), Errors>>, Option<Pubkey>)> {
    let mut out = Vec::new();
    for offset in 0..16 {
        let mut buf = feed_image(offset, slot, value);
        let before = buf.clone();
        let mut c = ctx(MAKER, bet);
        let r = c.check_winner_bet_switchboard(&mut buf[offset..], clock_slot);
        assert_eq!(buf, before);
        out.push((r, c.bet.winner));
    }
    out
}

#[test]
fn switchboard_resolution_settles_from_the_feed_median() {
    let results = resolve_at_all_offsets(joined_bet(100_000_000_000_000, true), 5_000, 1_000_000_000_000, 5_100);
    let decoded: Vec<_> = results.iter().filter(|(r, _)| *r != Some(Err(Errors::NoFeedData))).collect();
    assert!(!decoded.is_empty());
    for (r, winner) in decoded {
        assert_eq!(*r, Some(Ok(())));
        assert_eq!(*winner, Some(key(MAKER)));
    }
    let results = resolve_at_all_offsets(joined_bet(100_000_000_000_001, true), 5_000, 1_000_000_000_000, 5_100);
    let decoded: Vec<_> = results.iter().filter(|(r, _)| *r != Some(Err(Errors::NoFeedData))).collect();
    assert!(!decoded.is_empty());
    for (r, winner) in decoded {
        assert_eq!(*r, Some(Ok(())));
        assert_eq!(*winner, Some(key(OPPONENT)));
    }
}

#[test]
fn switchboard_resolution_ignores_stale_submissions() {
    let results = resolve_at_all_offsets(joined_bet(0, true), 5_000, 1_000_000_000_000, 5_301);
    let decoded: Vec<_> = results.iter().filter(|(r, _)| *r != Some(Err(Errors::NoFeedData))).collect();
    assert!(!decoded.is_empty());
    for (r, winner) in decoded {
        assert_eq!(*r, Some(Err(Errors::NoValueFound)));
        assert_eq!(*winner, None);
    }
}

#[test]
fn switchboard_resolution_refuses_a_non_positive_median() {
    let results = resolve_at_all_offsets(joined_bet(0, true), 5_000, -1_000_000_000_000, 5_100);
    for (r, winner) in results {
        assert!(r == Some(Err(Errors::NoValueFound)) || r == Some(Err(Errors::NoFeedData)));
        assert_eq!(winner, None);
    }
}

#[test]
fn switchboard_resolution_gives_none_where_a_negative_prediction_is_compared() {
    let results = resolve_at_all_offsets(joined_bet(-1, true), 5_000, 1_000_000_000_000, 5_100);
    let decoded: Vec<_> = results.iter().filter(|(r, _)| *r != Some(Err(Errors::NoFeedData))).collect();
    assert!(!decoded.is_empty());
    for (r, winner) in decoded {
        assert_eq!(*r, None);
        assert_eq!(*winner, None);
    }
}

#[test]
fn dummy_resolution_records_the_bets_opponent_and_completes_it() {
    let mut c = CheckWinner { opponent: key(77), maker: key(78), ..ctx(MAKER, joined_bet(700, true)) };
    assert_eq!(c.check_winner_bet_dummy(12_345_678), Ok(()));
    assert_eq!(c.bet.winner, Some(key(OPPONENT)));
    assert_eq!(c.bet.status, BetStatus::Completed);
    let mut c = CheckWinner { opponent: key(77), maker: key(78), ..ctx(MAKER, joined_bet(500, true)) };
    assert_eq!(c.check_winner_bet_dummy(12_345_678), Ok(()));
    assert_eq!(c.bet.winner, Some(key(MAKER)));
}

#[test]
fn settle_completes_the_bet() {
    let mut c = ctx(MAKER, joined_bet(0, true));
    assert_eq!(c.settle_with_price(price(1_000_000_000_000)), Ok(()));
    assert_eq!(c.bet.status, BetStatus::Completed);
}

#[test]
fn switchboard_resolution_gives_none_below_the_staleness_window() {
    let results = resolve_at_all_offsets(joined_bet(0, true), 100, 1_000_000_000_000, 299);
    let decoded: Vec<_> = results.iter().filter(|(r, _)| *r != Some(Err(Errors::NoFeedData))).collect();
    assert!(!decoded.is_empty());
    for (r, winner) in decoded {
        assert_eq!(*r, None);
        assert_eq!(*winner, None);
    }
}

#[test]
fn switchboard_resolution_refuses_undecodable_data_at_any_slot() {
    let mut data = vec![0u8; 16];
    let mut c = ctx(MAKER, joined_bet(0, true));
    assert_eq!(c.check_winner_bet_switchboard(&mut data, 5), Some(Err(Errors::NoFeedData)));
}

#[test]
fn switchboard_resolution_gives_none_for_a_value_beyond_a_decimal() {
    let results = resolve_at_all_offsets(joined_bet(0, true), 5_000, 1i128 << 100, 5_100);
    let decoded: Vec<_> = results.iter().filter(|(r, _)| *r != Some(Err(Errors::NoFeedData))).collect();
    assert!(!decoded.is_empty());
    for (r, winner) in decoded {
        assert_eq!(*r, None);
        assert_eq!(*winner, None);
    }
}

#[test]
fn switchboard_resolution_completes_the_bet() {
    let results = resolve_at_all_offsets(joined_bet(0, false), 5_000, 1_000_000_000_000, 5_100);
    let decoded: Vec<_> = results.iter().filter(|(r, _)| *r != Some(Err(Errors::NoFeedData))).collect();
    assert!(!decoded.is_empty());
    for (r, winner) in decoded {
        assert_eq!(*r, Some(Ok(())));
        assert_eq!(*winner, Some(key(OPPONENT)));
    }
}

#[test]
fn switchboard_resolution_ignores_an_oversized_stale_value() {
    let subs = [(4_000u64, 1i128 << 100), (5_000, 1_000_000_000_000)];
    for (r, winner) in decoded_outcomes(joined_bet(100_000_000_000_000, true), &subs, 5_100) {
        assert_eq!(r, Some(Ok(())));
        assert_eq!(winner, Some(key(MAKER)));
    }
}

#[test]
fn switchboard_resolution_ignores_an_oversized_value_after_an_empty_slot() {
    let subs = [(5_000u64, 1_000_000_000_000), (0, 0), (5_000, 1i128 << 100)];
    for (r, winner) in decoded_outcomes(joined_bet(100_000_000_000_001, true), &subs, 5_100) {
        assert_eq!(r, Some(Ok(())));
        assert_eq!(winner, Some(key(OPPONENT)));
    }
}

#[test]
fn switchboard_resolution_refuses_a_non_positive_median_beside_an_oversized_value() {
    let subs = [(5_000u64, -5), (5_000, -7), (5_000, 1i128 << 100)];
    for (r, winner) in decoded_outcomes(joined_bet(0, true), &subs, 5_100) {
        assert_eq!(r, Some(Err(Errors::NoValueFound)));
        assert_eq!(winner, None);
    }
}

#[test]
fn switchboard_resolution_takes_the_lower_median() {
    // The sorted values are 10^12, 2 * 10^12, 3 * 10^12, 4 * 10^12; the median taken is the third.
    let subs = [(5_000u64, 4_000_000_000_000), (5_000, 1_000_000_000_000), (5_000, 3_000_000_000_000), (5_000, 2_000_000_000_000)];
    for (r, winner) in decoded_outcomes(joined_bet(300_000_000_000_000, true), &subs, 5_100) {
        assert_eq!(r, Some(Ok(())));
        assert_eq!(winner, Some(key(MAKER)));
    }
    for (r, winner) in decoded_outcomes(joined_bet(300_000_000_000_001, true), &subs, 5_100) {
        assert_eq!(r, Some(Ok(())));
        assert_eq!(winner, Some(key(OPPONENT)));
    }
}

#[test]
fn switchboard_resolution_without_submissions_refuses_at_an_early_slot() {
    for (r, winner) in decoded_outcomes(joined_bet(0, true), &[], 5) {
        assert_eq!(r, Some(Err(Errors::NoValueFound)));
        assert_eq!(winner, None);
    }
}
