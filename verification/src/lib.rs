//! Balance-driven routing policy for the channels of a Lightning node.
//!
//! Each tick the balancer looks at every channel and derives two numbers from
//! how the channel's capacity is split: a fee rate, which grows as the local
//! side drains, and a ceiling on the size of a single forwarded HTLC.

use vstd::prelude::*;

use std::sync::Arc;

pub mod channel;
pub mod config;
pub mod dispatch;
pub mod error;
pub mod handle;
pub mod laws;
pub mod reconcile;

pub use channel::ChannelSnapshot;
pub use error::BalancerError;
pub use handle::ConfigHandle;

verus! {

/// The tunables of the fee policy.
#[derive(Debug, Copy, Clone, PartialEq, Eq, Structural)]
pub struct Config {
    pub dynamic_fees: bool,
    pub dynamic_fee_min: i64,
    pub dynamic_fee_max: i64,
    pub dynamic_fee_intervals: i8,
    pub dynamic_fee_update_frequency: i64,
}

impl Config {
    /// The invariant of a usable policy: the fee range is not inverted, there
    /// is at least one interval, and ticks are a positive time apart.
    pub open spec fn is_valid(&self) -> bool {
        &&& self.dynamic_fee_min <= self.dynamic_fee_max
        &&& self.dynamic_fee_intervals >= 1
        &&& self.dynamic_fee_update_frequency >= 1
    }

    /// Executable form of [`Config::is_valid`].
    pub fn check(&self) -> (ok: bool)
        ensures
            ok == self.is_valid(),
    {
        self.dynamic_fee_min <= self.dynamic_fee_max && self.dynamic_fee_intervals >= 1
            && self.dynamic_fee_update_frequency >= 1
    }

    /// The policy in force until another is installed: fees enabled, from 100
    /// to 1000 parts per million in 5 intervals, a tick every 100 seconds.
    pub open spec fn default_spec() -> Config {
        Config {
            dynamic_fees: true,
            dynamic_fee_min: 100,
            dynamic_fee_max: 1000,
            dynamic_fee_intervals: 5,
            dynamic_fee_update_frequency: 100,
        }
    }

    /// The policy in force until another is installed.
    pub fn default() -> (cfg: Config)
        ensures
            cfg == Config::default_spec(),
            cfg.is_valid(),
    {
        Config {
            dynamic_fees: true,
            dynamic_fee_min: 100,
            dynamic_fee_max: 1000,
            dynamic_fee_intervals: 5,
            dynamic_fee_update_frequency: 100,
        }
    }

    /// A snapshot of the policy in force.
    pub fn current(handle: &ConfigHandle<Config>) -> (snapshot: Arc<Config>)
        ensures
            *snapshot == handle@,
    {
        handle.current()
    }

    /// Puts this policy in force.
    pub fn make_current(self, handle: &mut ConfigHandle<Config>)
        ensures
            final(handle)@ == self,
    {
        handle.make_current(self)
    }
}

/// The smallest ceiling ever advertised.
pub const HTLC_FLOOR: u64 = 1_000;

/// Number of rungs on the threshold ladder.
pub const LADDER_LEN: usize = 18;

/// The ascending ladder of balance thresholds.
pub open spec fn ladder() -> Seq<i64> {
    seq![
        1_000i64,
        100_000i64,
        250_000i64,
        1_000_000i64,
        10_000_000i64,
        50_000_000i64,
        100_000_000i64,
        250_000_000i64,
        500_000_000i64,
        1_000_000_000i64,
        2_000_000_000i64,
        3_000_000_000i64,
        4_000_000_000i64,
        5_000_000_000i64,
        7_500_000_000i64,
        10_000_000_000i64,
        15_000_000_000i64,
        20_000_000_000i64,
    ]
}

/// The highest of the first `n` rungs that `balance` reaches, or `balance`
/// itself when it reaches none of them.
pub open spec fn highest_rung_within(balance: i64, n: nat) -> i64
    decreases n,
{
    if n == 0 || n > ladder().len() {
        balance
    } else if ladder()[n - 1] <= balance {
        ladder()[n - 1]
    } else {
        highest_rung_within(balance, (n - 1) as nat)
    }
}

/// The threshold a balance is measured by: the largest rung of the ladder
/// that is not above it, or the balance itself below the first rung.
pub open spec fn chosen_threshold(balance: i64) -> i64 {
    highest_rung_within(balance, ladder().len())
}

/// Nine tenths of `t`, rounded to the nearest integer, halves upwards.
pub open spec fn nine_tenths(t: int) -> int {
    (9 * t + 5) / 10
}

/// The HTLC ceiling of a channel with the given local balance.
pub open spec fn htlc_ceiling(balance: i64) -> int {
    if nine_tenths(chosen_threshold(balance) as int) < HTLC_FLOOR {
        HTLC_FLOOR as int
    } else {
        nine_tenths(chosen_threshold(balance) as int)
    }
}

/// Finds the threshold for a balance by walking the ladder from the top.
fn pick_threshold(balance: i64) -> (t: i64)
    ensures
        t == chosen_threshold(balance),
        t <= balance,
        t <= 20_000_000_000,
{
    let rungs: [i64; 18] = [
        1_000,
        100_000,
        250_000,
        1_000_000,
        10_000_000,
        50_000_000,
        100_000_000,
        250_000_000,
        500_000_000,
        1_000_000_000,
        2_000_000_000,
        3_000_000_000,
        4_000_000_000,
        5_000_000_000,
        7_500_000_000,
        10_000_000_000,
        15_000_000_000,
        20_000_000_000,
    ];
    assert(rungs@ =~= ladder());
    let mut i: usize = LADDER_LEN;
    while i > 0
        invariant
            i <= LADDER_LEN,
            rungs@ == ladder(),
            chosen_threshold(balance) == highest_rung_within(balance, i as nat),
        decreases i,
    {
        let rung: i64 = rungs[i - 1];
        if rung <= balance {
            return rung;
        }
        i = i - 1;
    }
    balance
}

/// Computes the largest amount a single HTLC may forward through the channel.
///
/// The channel's local balance is measured by the highest rung of the ladder
/// that it reaches (by itself below the first rung); the ceiling is nine
/// tenths of that, and never less than [`HTLC_FLOOR`]. The policy plays no
/// part in it, and there is no balance for which the computation fails: one
/// below zero is below the first rung like any other.
pub fn calculate_htlc_max(channel: &ChannelSnapshot, config: &Config) -> (r: Result<
    u64,
    BalancerError,
>)
    ensures
        r == Ok::<u64, BalancerError>(htlc_ceiling(channel.local_balance) as u64),
        htlc_ceiling(channel.local_balance) <= 18_000_000_000,
{
    let t: i64 = pick_threshold(channel.local_balance);
    if t < 1_000 {
        // Below the first rung nine tenths of the threshold cannot reach the
        // floor, whatever the balance is, a negative one included.
        return Ok(HTLC_FLOOR);
    }
    let capped: u64 = (9 * (t as u64) + 5) / 10;
    if capped < HTLC_FLOOR {
        Ok(HTLC_FLOOR)
    } else {
        Ok(capped)
    }
}

/// A fee rate as an exact fraction: `numerator / denominator`.
///
/// A rate of one corresponds to a fee of a million parts per million.
#[derive(Debug, Copy, Clone, PartialEq, Eq, Structural)]
pub struct FeeRate {
    pub numerator: i128,
    pub denominator: u64,
}

/// Parts per million in one.
pub const PPM: u64 = 1_000_000;

/// The integer nearest to `x / c`, halves upwards, for `x >= 0` and `c > 0`.
pub open spec fn round_div(x: int, c: int) -> int {
    (2 * x + c) / (2 * c)
}

/// The bucket a channel falls into: the share of the capacity that is not on
/// our side, in units of one interval, rounded to the nearest whole.
pub open spec fn fee_bucket(local_balance: int, capacity: int, intervals: int) -> int {
    round_div((capacity - local_balance) * intervals, capacity)
}

/// A channel that a fee can be computed for: it has some capacity, and
/// between none and all of it on our side.
pub open spec fn fee_defined(local_balance: int, capacity: int) -> bool {
    capacity > 0 && 0 <= local_balance <= capacity
}

/// Numerator of the fee rate over [`fee_rate_denominator`].
///
/// The fee in parts per million is
/// `min + (max - min) / intervals * bucket`; this is that fee multiplied by
/// the number of intervals, which keeps it a whole number.
pub open spec fn fee_rate_numerator(local_balance: int, capacity: int, config: Config) -> int {
    config.dynamic_fee_min * config.dynamic_fee_intervals + (config.dynamic_fee_max
        - config.dynamic_fee_min) * fee_bucket(
        local_balance,
        capacity,
        config.dynamic_fee_intervals as int,
    )
}

/// Denominator of every fee rate computed under `config`.
pub open spec fn fee_rate_denominator(config: Config) -> int {
    config.dynamic_fee_intervals * PPM
}

/// `round_div` is the nearest integer: the quotient lies within half a unit
/// of it, the upper half excluded.
pub proof fn lemma_round_div_nearest(x: int, c: int)
    requires
        x >= 0,
        c > 0,
    ensures
        2 * round_div(x, c) * c - c <= 2 * x < 2 * round_div(x, c) * c + c,
        round_div(x, c) >= 0,
{
    let r = round_div(x, c);
    vstd::arithmetic::div_mod::lemma_fundamental_div_mod(2 * x + c, 2 * c);
    vstd::arithmetic::div_mod::lemma_mod_bound(2 * x + c, 2 * c);
    vstd::arithmetic::div_mod::lemma_div_pos_is_pos(2 * x + c, 2 * c);
    assert((2 * c) * r == 2 * r * c) by (nonlinear_arith);
}

/// A larger dividend never rounds to a smaller quotient.
pub proof fn lemma_round_div_monotone(x: int, y: int, c: int)
    requires
        0 <= x <= y,
        c > 0,
    ensures
        round_div(x, c) <= round_div(y, c),
{
    vstd::arithmetic::div_mod::lemma_div_is_ordered(2 * x + c, 2 * y + c, 2 * c);
}

/// An exact multiple rounds to its quotient.
pub proof fn lemma_round_div_exact(k: int, c: int)
    requires
        k >= 0,
        c > 0,
    ensures
        round_div(k * c, c) == k,
{
    lemma_round_div_nearest(k * c, c);
    let r = round_div(k * c, c);
    assert(2 * r * c - c <= 2 * (k * c) < 2 * r * c + c);
    assert(r == k) by (nonlinear_arith)
        requires
            2 * r * c - c <= 2 * (k * c) < 2 * r * c + c,
            c > 0,
    ;
}

/// The bucket of a channel lies between zero and the number of intervals.
pub proof fn lemma_fee_bucket_range(local_balance: int, capacity: int, intervals: int)
    requires
        fee_defined(local_balance, capacity),
        intervals >= 1,
    ensures
        0 <= fee_bucket(local_balance, capacity, intervals) <= intervals,
{
    let x = (capacity - local_balance) * intervals;
    assert(0 <= x <= intervals * capacity) by (nonlinear_arith)
        requires
            x == (capacity - local_balance) * intervals,
            0 <= local_balance <= capacity,
            intervals >= 1,
    ;
    lemma_round_div_nearest(x, capacity);
    lemma_round_div_monotone(x, intervals * capacity, capacity);
    lemma_round_div_exact(intervals, capacity);
}

/// Computes the fee rate that a channel should charge under `config`.
///
/// The more of the capacity has drained to the remote side, the higher the
/// bucket and with it the fee, from the configured minimum for a channel that
/// is wholly ours to the maximum for one that is wholly theirs. A channel
/// without capacity, or with a balance that is not a part of its capacity,
/// has no fee. The rate comes as an exact fraction, so that nothing is lost
/// to rounding but at the bucket. The `dynamic_fees` switch is not consulted.
pub fn calculate_fee_target(channel: &ChannelSnapshot, config: &Config) -> (r: Result<
    FeeRate,
    BalancerError,
>)
    requires
        config.is_valid(),
    ensures
        fee_defined(channel.local_balance as int, channel.capacity as int) ==> r == Ok::<
            FeeRate,
            BalancerError,
        >(
            FeeRate {
                numerator: fee_rate_numerator(
                    channel.local_balance as int,
                    channel.capacity as int,
                    *config,
                ) as i128,
                denominator: fee_rate_denominator(*config) as u64,
            },
        ),
        fee_defined(channel.local_balance as int, channel.capacity as int) ==> i128::MIN
            <= fee_rate_numerator(channel.local_balance as int, channel.capacity as int, *config)
            <= i128::MAX,
        !fee_defined(channel.local_balance as int, channel.capacity as int) ==> r == Err::<
            FeeRate,
            BalancerError,
        >(BalancerError::InvalidChannelState),
{
    if channel.capacity <= 0 || channel.local_balance < 0 || channel.local_balance
        > channel.capacity {
        return Err(BalancerError::InvalidChannelState);
    }
    let capacity: u128 = channel.capacity as u128;
    let remote: u128 = (channel.capacity - channel.local_balance) as u128;
    let intervals: u128 = config.dynamic_fee_intervals as u128;
    proof {
        lemma_fee_bucket_range(
            channel.local_balance as int,
            channel.capacity as int,
            config.dynamic_fee_intervals as int,
        );
        assert(remote * intervals <= 0x7fff_ffff_ffff_ffff * 127) by (nonlinear_arith)
            requires
                remote <= 0x7fff_ffff_ffff_ffff,
                intervals <= 127,
        ;
    }
    let bucket: u128 = (2 * (remote * intervals) + capacity) / (2 * capacity);
    let min: i128 = config.dynamic_fee_min as i128;
    let span: i128 = config.dynamic_fee_max as i128 - min;
    proof {
        assert(-0x8000_0000_0000_0000 * 127 <= min * (intervals as i128) <= 0x8000_0000_0000_0000
            * 127) by (nonlinear_arith)
            requires
                -0x8000_0000_0000_0000 <= min <= 0x8000_0000_0000_0000,
                1 <= intervals <= 127,
        ;
        assert(0 <= span * (bucket as i128) <= 0x1_0000_0000_0000_0000 * 127) by (nonlinear_arith)
            requires
                0 <= span <= 0x1_0000_0000_0000_0000,
                0 <= bucket <= 127,
        ;
    }
    let numerator: i128 = min * (intervals as i128) + span * (bucket as i128);
    let denominator: u64 = (config.dynamic_fee_intervals as u64) * PPM;
    Ok(FeeRate { numerator, denominator })
}

} // verus!
