//! From a channel and a policy to the update that is sent for it.

use vstd::prelude::*;
use crate::channel::{
    has_one_colon, index_part, is_channel_point, output_index_value, parse_channel_point,
    txid_part, ChannelPoint, ChannelSnapshot,
};
use crate::error::BalancerError;
use crate::{
    calculate_fee_target, calculate_htlc_max, fee_defined, fee_rate_denominator,
    fee_rate_numerator, htlc_ceiling, Config, FeeRate,
};

verus! {

/// The base fee of every update, in millisatoshi.
pub const BASE_FEE_MSAT: i64 = 1_000;

/// The time lock delta of every update, in blocks.
pub const TIME_LOCK_DELTA: u32 = 144;

/// The routing policy to set on one channel.
#[derive(Debug, Clone)]
pub struct PolicyUpdate {
    pub channel_point: ChannelPoint,
    pub base_fee_msat: i64,
    pub fee_rate: FeeRate,
    pub time_lock_delta: u32,
    pub max_htlc_msat: u64,
}

/// Why no update can be made for a channel, if none can: its point is
/// examined first, its balance and capacity after that.
pub open spec fn refusal(channel: ChannelSnapshot) -> Option<BalancerError> {
    if !is_channel_point(channel.channel_point@) {
        Some(BalancerError::MalformedChannelPoint)
    } else if !fee_defined(channel.local_balance as int, channel.capacity as int) {
        Some(BalancerError::InvalidChannelState)
    } else {
        None
    }
}

/// `update` is the update that `config` asks for on `channel`.
pub open spec fn describes(update: PolicyUpdate, channel: ChannelSnapshot, config: Config) -> bool {
    &&& update.channel_point.funding_txid@ == txid_part(channel.channel_point@)
    &&& update.channel_point.output_index == output_index_value(index_part(channel.channel_point@))
    &&& update.base_fee_msat == BASE_FEE_MSAT
    &&& update.fee_rate.numerator == fee_rate_numerator(
        channel.local_balance as int,
        channel.capacity as int,
        config,
    )
    &&& update.fee_rate.denominator == fee_rate_denominator(config)
    &&& update.time_lock_delta == TIME_LOCK_DELTA
    &&& update.max_htlc_msat == htlc_ceiling(channel.local_balance)
}

/// `plan` is what a tick under `config` decides for `channel`: the update
/// where one can be made, and the reason where none can.
pub open spec fn is_plan_for(
    plan: Result<PolicyUpdate, BalancerError>,
    channel: ChannelSnapshot,
    config: Config,
) -> bool {
    match plan {
        Ok(update) => refusal(channel) is None && describes(update, channel, config),
        Err(reason) => refusal(channel) == Some(reason),
    }
}

/// Decides what to do about one channel.
pub fn plan_update(channel: &ChannelSnapshot, config: &Config) -> (plan: Result<
    PolicyUpdate,
    BalancerError,
>)
    requires
        config.is_valid(),
    ensures
        is_plan_for(plan, *channel, *config),
{
    let channel_point: ChannelPoint = match parse_channel_point(channel.channel_point.as_str()) {
        Ok(point) => point,
        Err(reason) => {
            return Err(reason);
        },
    };
    let fee_rate: FeeRate = match calculate_fee_target(channel, config) {
        Ok(rate) => rate,
        Err(reason) => {
            return Err(reason);
        },
    };
    let max_htlc_msat: u64 = match calculate_htlc_max(channel, config) {
        Ok(ceiling) => ceiling,
        Err(reason) => {
            return Err(reason);
        },
    };
    Ok(
        PolicyUpdate {
            channel_point,
            base_fee_msat: BASE_FEE_MSAT,
            fee_rate,
            time_lock_delta: TIME_LOCK_DELTA,
            max_htlc_msat,
        },
    )
}

/// Decides what to do about every channel of a tick, all under the one
/// policy handed in. Each channel gets its own plan at its own place: a
/// channel for which no update can be made takes nothing from the others.
pub fn plan_tick(channels: &Vec<ChannelSnapshot>, config: &Config) -> (plans: Vec<
    Result<PolicyUpdate, BalancerError>,
>)
    requires
        config.is_valid(),
    ensures
        plans@.len() == channels@.len(),
        forall|i: int|
            0 <= i < channels@.len() ==> is_plan_for(#[trigger] plans@[i], channels@[i], *config),
{
    let mut plans: Vec<Result<PolicyUpdate, BalancerError>> = Vec::new();
    let mut i: usize = 0;
    while i < channels.len()
        invariant
            i <= channels@.len(),
            config.is_valid(),
            plans@.len() == i,
            forall|j: int| 0 <= j < i ==> is_plan_for(#[trigger] plans@[j], channels@[j], *config),
        decreases channels@.len() - i,
    {
        let plan: Result<PolicyUpdate, BalancerError> = plan_update(&channels[i], config);
        plans.push(plan);
        i = i + 1;
    }
    plans
}

/// Tells what became of a planned update once the node has answered: a
/// channel that was skipped keeps its reason, an update that the node refused
/// is reported as rejected, and only an accepted update counts as done.
pub fn settle(plan: &Result<PolicyUpdate, BalancerError>, accepted: bool) -> (outcome: Result<
    (),
    BalancerError,
>)
    ensures
        outcome is Ok <==> plan is Ok && accepted,
        plan is Err ==> outcome == Err::<(), BalancerError>(plan->Err_0),
        plan is Ok && !accepted ==> outcome == Err::<(), BalancerError>(
            BalancerError::PolicyUpdateRejected,
        ),
{
    match plan {
        Err(reason) => Err(*reason),
        Ok(_) => if accepted {
            Ok(())
        } else {
            Err(BalancerError::PolicyUpdateRejected)
        },
    }
}

/// A channel point that does not hold exactly one colon gets no update,
/// whatever the channel's balance and capacity are.
pub proof fn lemma_point_without_single_colon_is_refused(channel: ChannelSnapshot)
    requires
        !has_one_colon(channel.channel_point@),
    ensures
        refusal(channel) == Some(BalancerError::MalformedChannelPoint),
        forall|plan: Result<PolicyUpdate, BalancerError>, config: Config|
            is_plan_for(plan, channel, config) ==> plan == Err::<PolicyUpdate, BalancerError>(
                BalancerError::MalformedChannelPoint,
            ),
{
}

/// The plan for a channel reads nothing but that channel and the policy: in
/// two ticks under one policy, a channel that both hold gets the same plan,
/// whatever else either tick holds.
pub proof fn lemma_plans_are_independent(
    first: Seq<ChannelSnapshot>,
    second: Seq<ChannelSnapshot>,
    i: int,
    j: int,
    plan: Result<PolicyUpdate, BalancerError>,
    config: Config,
)
    requires
        0 <= i < first.len(),
        0 <= j < second.len(),
        first[i] == second[j],
    ensures
        is_plan_for(plan, first[i], config) == is_plan_for(plan, second[j], config),
{
}

} // verus!
