use vstd::prelude::*;

use switchboard_on_demand::on_demand::accounts::pull_feed::{lower_bound_median, PullFeedAccountData};
use switchboard_on_demand::on_demand::OnDemandError;
use switchboard_on_demand::prelude::rust_decimal::prelude::{FromPrimitive, ToPrimitive};
use switchboard_on_demand::prelude::rust_decimal::Decimal;

verus! {

/// An error of the Switchboard on-demand crate.
#[verifier::external_type_specification]
#[verifier::external_body]
pub struct ExOnDemandError(OnDemandError);

/// A decimal number `mantissa / 10^scale`, in the range a `rust_decimal::Decimal` holds.
#[derive(Clone, Copy, Debug, PartialEq, Eq, Structural)]
pub struct DecimalValue {
    pub mantissa: i128,
    pub scale: u32,
}

/// The largest mantissa a decimal holds: 96 bits.
pub open spec fn max_mantissa() -> int {
    0xFFFF_FFFF_FFFF_FFFF_FFFF_FFFFint
}

/// The largest scale a decimal holds.
pub open spec fn max_scale() -> int {
    28
}

pub open spec fn abs(x: int) -> int {
    if x < 0 {
        -x
    } else {
        x
    }
}

pub open spec fn pow10(n: nat) -> int
    decreases n,
{
    if n == 0 {
        1
    } else {
        10 * pow10((n - 1) as nat)
    }
}

impl DecimalValue {
    pub open spec fn wf(&self) -> bool {
        &&& -max_mantissa() <= self.mantissa <= max_mantissa()
        &&& self.scale <= max_scale()
    }
}

/// The scale of every value that a pull feed reports.
pub const FEED_PRECISION: u32 = 18;

/// The eight bytes that open a pull feed account.
pub open spec fn feed_discriminator() -> Seq<u8> {
    seq![196u8, 27u8, 108u8, 196u8, 10u8, 215u8, 219u8, 40u8]
}

/// What `Decimal::checked_mul` returns for `a_mantissa / 10^a_scale` times
/// `b_mantissa / 10^b_scale`, as a mantissa and a scale.
pub uninterp spec fn decimal_checked_mul(a_mantissa: i128, a_scale: u32, b_mantissa: i128, b_scale: u32) -> Option<(i128, u32)>;

/// The product that `decimal_checked_mul` names, as a `DecimalValue`.
pub open spec fn decimal_product(a: DecimalValue, b: DecimalValue) -> Option<DecimalValue> {
    match decimal_checked_mul(a.mantissa, a.scale, b.mantissa, b.scale) {
        Some(p) => Some(DecimalValue { mantissa: p.0, scale: p.1 }),
        None => None,
    }
}

/// What `ToPrimitive::to_u64` gives for a decimal: its integer part when the
/// decimal is not negative and that part fits in a `u64`.
pub open spec fn decimal_as_u64(v: DecimalValue) -> Option<u64> {
    if v.mantissa < 0 {
        None
    } else if (v.mantissa as int) / pow10(v.scale as nat) <= u64::MAX {
        Some(((v.mantissa as int) / pow10(v.scale as nat)) as u64)
    } else {
        None
    }
}

/// The 32 submission slots of the pull feed that `data` decodes to, in slot
/// order, each as its slot number and its value.
pub uninterp spec fn feed_submissions(data: Seq<u8>) -> Seq<(u64, i128)>;

/// What `lower_bound_median` returns for `values`: after sorting, the element
/// at half the length, rounded down; `None` for no values.
pub uninterp spec fn lower_median(values: Seq<i128>) -> Option<i128>;

/// The submissions before the first empty one; a submission is empty when its
/// slot is 0.
pub open spec fn leading_submissions(subs: Seq<(u64, i128)>) -> Seq<(u64, i128)>
    decreases subs.len(),
{
    if subs.len() == 0 || subs[0].0 == 0 {
        Seq::<(u64, i128)>::empty()
    } else {
        seq![subs[0]] + leading_submissions(subs.drop_first())
    }
}

/// The values of the submissions whose slot is at least `oldest`, in order.
pub open spec fn fresh_values(subs: Seq<(u64, i128)>, oldest: int) -> Seq<i128>
    decreases subs.len(),
{
    if subs.len() == 0 {
        Seq::<i128>::empty()
    } else if subs.last().0 >= oldest {
        fresh_values(subs.drop_last(), oldest).push(subs.last().1)
    } else {
        fresh_values(subs.drop_last(), oldest)
    }
}

/// The values that `get_value(clock_slot, max_staleness, ..)` takes the
/// median of: the leading submissions no older than `max_staleness` slots.
pub open spec fn sampled_values(subs: Seq<(u64, i128)>, clock_slot: u64, max_staleness: u64) -> Seq<
    i128,
> {
    fresh_values(leading_submissions(subs), clock_slot - max_staleness)
}

/// The median mantissa that `get_value(clock_slot, max_staleness,
/// min_samples, only_positive)` turns into its price; `None` where it refuses
/// first: too few samples, no median, or a median that is not positive when
/// `only_positive` asks for it.
pub open spec fn read_median(
    subs: Seq<(u64, i128)>,
    clock_slot: u64,
    max_staleness: u64,
    min_samples: u32,
    only_positive: bool,
) -> Option<i128> {
    let sampled = sampled_values(subs, clock_slot, max_staleness);
    if sampled.len() < min_samples {
        None
    } else {
        match lower_median(sampled) {
            None => None,
            Some(m) => if only_positive && m <= 0 {
                None
            } else {
                Some(m)
            },
        }
    }
}

/// `get_value` computes `clock_slot - max_staleness` for each leading
/// submission, which underflows when there is one and the slot is too early.
pub open spec fn read_underflows(subs: Seq<(u64, i128)>, clock_slot: u64, max_staleness: u64) -> bool {
    clock_slot < max_staleness && leading_submissions(subs).len() > 0
}

/// The mantissa lies in the range of a decimal.
pub open spec fn fits_decimal(m: int) -> bool {
    -max_mantissa() <= m <= max_mantissa()
}

/// Why reading a price from feed data failed.
pub enum FeedFailure {
    /// `PullFeedAccountData::parse` refused the data.
    Decode(OnDemandError),
    /// `get_value` refused the decoded feed.
    Read(OnDemandError),
}

/// Decodes a pull feed with `PullFeedAccountData::parse` and lists its
/// submission slots, each as its slot number and value, named by
/// `feed_submissions`. The data is left as it was, and a decoded feed starts
/// with the feed discriminator. Whether the decoding succeeds also depends on
/// the alignment of `data` in memory, so no more is stated of when it fails.
#[verifier::external_body]
pub(crate) fn feed_submission_list(data: &mut [u8]) -> (r: Result<Vec<(u64, i128)>, OnDemandError>)
    ensures
        final(data)@ == old(data)@,
        r is Ok ==> old(data)@.len() >= 8 && old(data)@.subrange(0, 8) == feed_discriminator(),
        r matches Ok(v) ==> v@ == feed_submissions(old(data)@) && v@.len() == 32,
{
    let cell = std::cell::RefCell::new(data);
    let parsed = match PullFeedAccountData::parse(cell.borrow()) {
        Ok(feed) => Ok(feed.submissions.iter().map(|s| (s.slot, s.value)).collect()),
        Err(e) => Err(e),
    };
    parsed
}

/// `lower_bound_median`: sorts the values and takes the one at half the
/// length, rounded down; `None` exactly for no values.
#[verifier::external_body]
pub(crate) fn median_of(values: Vec<i128>) -> (r: Option<i128>)
    ensures
        r == lower_median(values@),
        r is None <==> values@.len() == 0,
{
    let mut values = values;
    lower_bound_median(&mut values)
}

/// Decodes a pull feed with `PullFeedAccountData::parse` and reads its price
/// with `PullFeedAccountData::get_value`. `get_value` takes the leading
/// non-empty submissions no older than `max_staleness` slots, refuses when
/// they are fewer than `min_samples`, when there is no median, or when the
/// median is not positive and `only_positive` asks for it; otherwise it gives
/// the median at the feed's precision (`read_median`). It underflows on
/// `clock_slot - max_staleness` (`read_underflows`), and its
/// `Decimal::from_i128_with_scale` panics for a median beyond 96 bits; the
/// `requires` leaves both out. Whether the decoding succeeds also depends on
/// the alignment of `data` in memory, so no more is stated of a `Decode`
/// failure.
#[verifier::external_body]
pub(crate) fn read_feed_price(
    data: &mut [u8],
    clock_slot: u64,
    max_staleness: u64,
    min_samples: u32,
    only_positive: bool,
) -> (r: Result<DecimalValue, FeedFailure>)
    requires
        !read_underflows(feed_submissions(old(data)@), clock_slot, max_staleness),
        read_median(feed_submissions(old(data)@), clock_slot, max_staleness, min_samples, only_positive)
            matches Some(m) ==> fits_decimal(m as int),
    ensures
        final(data)@ == old(data)@,
        r matches Ok(v) ==> read_median(
            feed_submissions(old(data)@),
            clock_slot,
            max_staleness,
            min_samples,
            only_positive,
        ) == Some(v.mantissa) && v.scale == FEED_PRECISION,
        r matches Err(FeedFailure::Read(_)) ==> read_median(
            feed_submissions(old(data)@),
            clock_slot,
            max_staleness,
            min_samples,
            only_positive,
        ) is None,
{
    let cell = std::cell::RefCell::new(data);
    let parsed = match PullFeedAccountData::parse(cell.borrow()) {
        Ok(feed) => match feed.get_value(clock_slot, max_staleness, min_samples, only_positive) {
            Ok(d) => Ok(DecimalValue { mantissa: d.mantissa(), scale: d.scale() }),
            Err(e) => Err(FeedFailure::Read(e)),
        },
        Err(e) => Err(FeedFailure::Decode(e)),
    };
    parsed
}

/// `Decimal::from_i64`: the integer `n` as a decimal of scale 0.
#[verifier::external_body]
pub(crate) fn decimal_from_i64(n: i64) -> (r: Option<DecimalValue>)
    ensures
        r == Some(DecimalValue { mantissa: n as i128, scale: 0 }),
{
    match Decimal::from_i64(n) {
        Some(d) => Some(DecimalValue { mantissa: d.mantissa(), scale: d.scale() }),
        None => None,
    }
}

/// `Decimal::checked_mul`. Its result is named by `decimal_checked_mul`; in
/// addition, a zero factor gives zero of scale 0, a product that fits in 96
/// bits at a scale of at most 28 comes out exact, and a product at a scale of
/// at most 28 whose value is at most a tenth of the largest mantissa exists
/// (the rescaling in `Buf24::rescale` then neither runs out of scale nor
/// rounds past 96 bits).
#[verifier::external_body]
pub(crate) fn decimal_mul(a: DecimalValue, b: DecimalValue) -> (r: Option<DecimalValue>)
    requires
        a.wf(),
        b.wf(),
    ensures
        r == match decimal_checked_mul(a.mantissa, a.scale, b.mantissa, b.scale) {
            Some(p) => Some(DecimalValue { mantissa: p.0, scale: p.1 }),
            None => None,
        },
        (a.mantissa == 0 || b.mantissa == 0) ==> r == Some(DecimalValue { mantissa: 0, scale: 0 }),
        (a.mantissa != 0 && b.mantissa != 0 && a.scale + b.scale <= max_scale() && -max_mantissa()
            <= a.mantissa * b.mantissa <= max_mantissa()) ==> r == Some(
            DecimalValue {
                mantissa: (a.mantissa * b.mantissa) as i128,
                scale: (a.scale + b.scale) as u32,
            },
        ),
        (a.mantissa != 0 && b.mantissa != 0 && a.scale + b.scale <= max_scale() && 10 * abs(
            a.mantissa * b.mantissa,
        ) <= max_mantissa() * pow10((a.scale + b.scale) as nat)) ==> r is Some,
        r matches Some(v) ==> v.wf(),
{
    let x = Decimal::from_i128_with_scale(a.mantissa, a.scale);
    let y = Decimal::from_i128_with_scale(b.mantissa, b.scale);
    match Decimal::checked_mul(x, y) {
        Some(d) => Some(DecimalValue { mantissa: d.mantissa(), scale: d.scale() }),
        None => None,
    }
}

/// `ToPrimitive::to_u64` on a decimal: the integer part, when the decimal is
/// not negative and the part fits.
#[verifier::external_body]
pub(crate) fn decimal_to_u64(v: DecimalValue) -> (r: Option<u64>)
    requires
        v.wf(),
    ensures
        r == decimal_as_u64(v),
{
    Decimal::from_i128_with_scale(v.mantissa, v.scale).to_u64()
}

} // verus!
