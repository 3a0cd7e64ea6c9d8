//! What holds of the two calculators on every input.

use vstd::prelude::*;
use crate::{
    chosen_threshold, fee_bucket, fee_defined, fee_rate_denominator, fee_rate_numerator,
    highest_rung_within, htlc_ceiling, ladder, lemma_fee_bucket_range, lemma_round_div_monotone,
    nine_tenths, Config, HTLC_FLOOR, PPM,
};

verus! {

/// The rungs of the ladder ascend strictly.
pub proof fn lemma_ladder_ascends()
    ensures
        ladder().len() == 18,
        forall|i: int, j: int| 0 <= i < j < 18 ==> ladder()[i] < ladder()[j],
        ladder()[0] == 1_000,
        ladder()[1] == 100_000,
        ladder()[17] == 20_000_000_000,
{
    let l = ladder();
    assert(l[0] < l[1] < l[2] < l[3] < l[4] < l[5] < l[6] < l[7] < l[8] < l[9]);
    assert(l[9] < l[10] < l[11] < l[12] < l[13] < l[14] < l[15] < l[16] < l[17]);
}

/// Among the first `n` rungs, the highest one within reach of `balance` is
/// not above the balance, and no rung among them that the balance reaches is
/// above it. Where the balance reaches none of them, it stands for itself.
pub proof fn lemma_highest_rung_within(balance: i64, n: nat)
    requires
        n <= ladder().len(),
    ensures
        highest_rung_within(balance, n) <= balance,
        forall|i: int| 0 <= i < n && ladder()[i] <= balance ==> ladder()[i] <= highest_rung_within(balance, n),
        (exists|i: int| 0 <= i < n && ladder()[i] == highest_rung_within(balance, n)) || (
        highest_rung_within(balance, n) == balance && forall|i: int|
            0 <= i < n ==> ladder()[i] > balance),
    decreases n,
{
    lemma_ladder_ascends();
    if n > 0 {
        lemma_highest_rung_within(balance, (n - 1) as nat);
        if ladder()[n - 1] <= balance {
            assert(ladder()[n - 1] == highest_rung_within(balance, n));
        } else {
            let below = highest_rung_within(balance, (n - 1) as nat);
            assert(below == highest_rung_within(balance, n));
            if exists|i: int| 0 <= i < n - 1 && ladder()[i] == below {
                let i = choose|i: int| 0 <= i < n - 1 && ladder()[i] == below;
                assert(0 <= i < n && ladder()[i] == highest_rung_within(balance, n));
            }
        }
    }
}

/// The chosen threshold is the largest rung that is not above the balance,
/// and the balance itself where every rung is above it.
pub proof fn lemma_chosen_threshold_is_largest_rung(balance: i64)
    ensures
        chosen_threshold(balance) <= balance,
        balance < 1_000 ==> chosen_threshold(balance) == balance,
        balance >= 1_000 ==> exists|i: int|
            0 <= i < ladder().len() && ladder()[i] == chosen_threshold(balance),
        forall|i: int|
            0 <= i < ladder().len() && ladder()[i] <= balance ==> ladder()[i] <= chosen_threshold(
                balance,
            ),
{
    lemma_ladder_ascends();
    lemma_highest_rung_within(balance, ladder().len());
    if balance >= 1_000 {
        assert(ladder()[0] <= balance);
    } else {
        assert forall|i: int| 0 <= i < ladder().len() implies ladder()[i] > balance by {
            if i > 0 {
                assert(ladder()[0] < ladder()[i]);
            }
        }
    }
}

/// A larger balance is never measured by a smaller threshold.
pub proof fn lemma_chosen_threshold_monotone(lower: i64, higher: i64)
    requires
        lower <= higher,
    ensures
        chosen_threshold(lower) <= chosen_threshold(higher),
{
    lemma_chosen_threshold_is_largest_rung(lower);
    lemma_chosen_threshold_is_largest_rung(higher);
    if lower >= 1_000 {
        let i = choose|i: int| 0 <= i < ladder().len() && ladder()[i] == chosen_threshold(lower);
        assert(ladder()[i] <= higher);
    } else if higher >= 1_000 {
        assert(ladder()[0] <= higher);
        lemma_ladder_ascends();
    }
}

/// The HTLC ceiling never falls below the floor.
pub proof fn lemma_htlc_ceiling_at_least_floor(balance: i64)
    ensures
        htlc_ceiling(balance) >= HTLC_FLOOR,
        htlc_ceiling(balance) >= 1_000,
{
}

/// A larger local balance never yields a smaller HTLC ceiling.
pub proof fn lemma_htlc_ceiling_monotone(lower: i64, higher: i64)
    requires
        lower <= higher,
    ensures
        htlc_ceiling(lower) <= htlc_ceiling(higher),
{
    lemma_chosen_threshold_monotone(lower, higher);
}

/// From the second rung on, the floor no longer lifts the ceiling: it is
/// nine tenths of the chosen threshold exactly, and so at most nine tenths of
/// the balance. Below the second rung the floor of 1000 is above nine tenths
/// of every threshold there is.
pub proof fn lemma_htlc_ceiling_within_nine_tenths(balance: i64)
    ensures
        balance >= 100_000 ==> htlc_ceiling(balance) == nine_tenths(
            chosen_threshold(balance) as int,
        ),
        balance >= 100_000 ==> 10 * htlc_ceiling(balance) == 9 * chosen_threshold(balance),
        balance >= 100_000 ==> 10 * htlc_ceiling(balance) <= 9 * balance,
        balance < 100_000 ==> htlc_ceiling(balance) == HTLC_FLOOR,
{
    lemma_ladder_ascends();
    lemma_chosen_threshold_is_largest_rung(balance);
    let t = chosen_threshold(balance);
    if balance >= 100_000 {
        assert(ladder()[1] <= t);
        let i = choose|i: int| 0 <= i < ladder().len() && ladder()[i] == t;
        lemma_rungs_are_multiples_of_ten(i);
    } else if balance >= 1_000 {
        let i = choose|i: int| 0 <= i < ladder().len() && ladder()[i] == t;
        if i > 0 {
            assert(ladder()[1] <= ladder()[i]) by {
                if i > 1 {
                    assert(ladder()[1] < ladder()[i]);
                }
            }
        }
        assert(t == 1_000);
    }
}

/// Every rung is a multiple of ten, so nine tenths of it is a whole number.
proof fn lemma_rungs_are_multiples_of_ten(i: int)
    requires
        0 <= i < ladder().len(),
    ensures
        ladder()[i] % 10 == 0,
{
    let l = ladder();
    assert(l[0] % 10 == 0 && l[1] % 10 == 0 && l[2] % 10 == 0 && l[3] % 10 == 0 && l[4] % 10 == 0
        && l[5] % 10 == 0);
    assert(l[6] % 10 == 0 && l[7] % 10 == 0 && l[8] % 10 == 0 && l[9] % 10 == 0 && l[10] % 10 == 0
        && l[11] % 10 == 0);
    assert(l[12] % 10 == 0 && l[13] % 10 == 0 && l[14] % 10 == 0 && l[15] % 10 == 0 && l[16] % 10
        == 0 && l[17] % 10 == 0);
}

/// The fee rate never falls as the local balance drains: of two balances
/// within one capacity, the lower one pays at least the rate of the higher.
/// Both rates have the same denominator, so their numerators compare them.
pub proof fn lemma_fee_rises_as_balance_drains(
    lower: int,
    higher: int,
    capacity: int,
    config: Config,
)
    requires
        config.is_valid(),
        capacity > 0,
        0 <= lower <= higher <= capacity,
    ensures
        fee_rate_numerator(lower, capacity, config) >= fee_rate_numerator(
            higher,
            capacity,
            config,
        ),
{
    let n = config.dynamic_fee_intervals as int;
    let span = config.dynamic_fee_max - config.dynamic_fee_min;
    let x = (capacity - higher) * n;
    let y = (capacity - lower) * n;
    assert(0 <= x <= y) by (nonlinear_arith)
        requires
            x == (capacity - higher) * n,
            y == (capacity - lower) * n,
            0 <= lower <= higher <= capacity,
            n >= 1,
    ;
    lemma_round_div_monotone(x, y, capacity);
    let low_bucket = fee_bucket(higher, capacity, n);
    let high_bucket = fee_bucket(lower, capacity, n);
    assert(span * low_bucket <= span * high_bucket) by (nonlinear_arith)
        requires
            span >= 0,
            low_bucket <= high_bucket,
    ;
}

/// The fee rate lies between the configured minimum and maximum, both taken
/// as parts per million: `min / PPM <= numerator / denominator <= max / PPM`,
/// written without division.
pub proof fn lemma_fee_within_configured_range(local_balance: int, capacity: int, config: Config)
    requires
        config.is_valid(),
        fee_defined(local_balance, capacity),
    ensures
        fee_rate_denominator(config) > 0,
        config.dynamic_fee_min * fee_rate_denominator(config) <= fee_rate_numerator(
            local_balance,
            capacity,
            config,
        ) * PPM,
        fee_rate_numerator(local_balance, capacity, config) * PPM <= config.dynamic_fee_max
            * fee_rate_denominator(config),
{
    let n = config.dynamic_fee_intervals as int;
    let min = config.dynamic_fee_min as int;
    let max = config.dynamic_fee_max as int;
    let bucket = fee_bucket(local_balance, capacity, n);
    lemma_fee_bucket_range(local_balance, capacity, n);
    let num = fee_rate_numerator(local_balance, capacity, config);
    assert(num == min * n + (max - min) * bucket);
    assert(min * n <= num <= max * n) by (nonlinear_arith)
        requires
            num == min * n + (max - min) * bucket,
            0 <= bucket <= n,
            min <= max,
    ;
    assert(min * (n * 1_000_000) <= num * 1_000_000 && num * 1_000_000 <= max * (n * 1_000_000))
        by (nonlinear_arith)
        requires
            min * n <= num <= max * n,
    ;
}

/// The fee rate is a function of what it reads and of nothing else: one
/// balance and capacity get the same rate under two policies with the same fee
/// range and intervals, whatever else differs between them. The ceiling reads
/// the balance alone.
pub proof fn lemma_results_repeat(
    local_balance: i64,
    capacity: i64,
    first: Config,
    second: Config,
)
    requires
        first.dynamic_fee_min == second.dynamic_fee_min,
        first.dynamic_fee_max == second.dynamic_fee_max,
        first.dynamic_fee_intervals == second.dynamic_fee_intervals,
    ensures
        fee_rate_numerator(local_balance as int, capacity as int, first) == fee_rate_numerator(
            local_balance as int,
            capacity as int,
            second,
        ),
        fee_rate_denominator(first) == fee_rate_denominator(second),
{
}

} // verus!
