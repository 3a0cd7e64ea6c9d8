//! The reconciliation loop as a state machine.
//!
//! The loop sleeps, fetches the channel list, reconciles every channel and
//! sleeps again. What is decided here is which step follows which; the
//! waiting and the talking to the node are the caller's.

use vstd::prelude::*;
use crate::channel::ChannelSnapshot;
use crate::dispatch::{is_plan_for, plan_tick, PolicyUpdate};
use crate::error::BalancerError;
use crate::handle::ConfigHandle;
use crate::Config;

verus! {

/// Where the loop stands.
#[derive(Debug, Clone, Copy, PartialEq, Eq, Structural)]
pub enum LoopState {
    /// Between two ticks.
    Idle,
    /// Waiting for the node's channel list.
    Fetching,
    /// Waiting for the updates of this tick to be answered, all of them.
    Reconciling,
}

/// What the caller reports back.
#[derive(Debug, Clone)]
pub enum LoopEvent {
    /// The time between two ticks has passed.
    TimerFired,
    /// The node could not be reached.
    ConnectionFailed,
    /// The node did not hand out its channels.
    FetchFailed,
    /// The node's channels, as they are now.
    ChannelsFetched(Vec<ChannelSnapshot>),
    /// Every update of the tick has been answered.
    UpdatesSettled,
}

/// What the caller is asked to do next.
#[derive(Debug, Clone)]
pub enum LoopAction {
    /// Wait this many seconds, then report `TimerFired`.
    Sleep(u64),
    /// Connect and ask the node for its channels.
    FetchChannels,
    /// Send the updates among these plans, and report once all are answered.
    Dispatch(Vec<Result<PolicyUpdate, BalancerError>>),
    /// The event came out of turn: carry on with what is under way.
    Proceed,
}

/// The state that follows `state` on `event`.
///
/// A tick that cannot get its channels is given up, and the loop waits for
/// the next one. An event that the state does not wait for changes nothing:
/// in particular no timer starts a tick while another is under way.
pub open spec fn next_state(state: LoopState, event: LoopEvent) -> LoopState {
    match state {
        LoopState::Idle => match event {
            LoopEvent::TimerFired => LoopState::Fetching,
            _ => state,
        },
        LoopState::Fetching => match event {
            LoopEvent::ChannelsFetched(_) => LoopState::Reconciling,
            LoopEvent::ConnectionFailed => LoopState::Idle,
            LoopEvent::FetchFailed => LoopState::Idle,
            _ => state,
        },
        LoopState::Reconciling => match event {
            LoopEvent::UpdatesSettled => LoopState::Idle,
            _ => state,
        },
    }
}

/// `action` is what `event` in `state` asks for under `config`.
pub open spec fn is_action_for(
    action: LoopAction,
    state: LoopState,
    event: LoopEvent,
    config: Config,
) -> bool {
    match action {
        LoopAction::Sleep(seconds) => {
            &&& state != LoopState::Idle
            &&& next_state(state, event) == LoopState::Idle
            &&& seconds == config.dynamic_fee_update_frequency
        },
        LoopAction::FetchChannels => {
            &&& state == LoopState::Idle
            &&& event is TimerFired
        },
        LoopAction::Dispatch(plans) => {
            &&& state == LoopState::Fetching
            &&& event is ChannelsFetched
            &&& plans@.len() == event->ChannelsFetched_0@.len()
            &&& forall|i: int|
                0 <= i < plans@.len() ==> is_plan_for(
                    #[trigger] plans@[i],
                    event->ChannelsFetched_0@[i],
                    config,
                )
        },
        LoopAction::Proceed => next_state(state, event) == state,
    }
}

/// Takes the loop one step on.
///
/// The policy is read from the handle once, and a tick's plans are all made
/// under what was read: a policy installed after this call reaches the next
/// tick, not this one.
pub fn step(state: LoopState, event: LoopEvent, handle: &ConfigHandle<Config>) -> (next: (
    LoopState,
    LoopAction,
))
    requires
        handle@.is_valid(),
    ensures
        next.0 == next_state(state, event),
        is_action_for(next.1, state, event, handle@),
{
    let policy = handle.current();
    let pause: u64 = policy.dynamic_fee_update_frequency as u64;
    match state {
        LoopState::Idle => match event {
            LoopEvent::TimerFired => (LoopState::Fetching, LoopAction::FetchChannels),
            _ => (state, LoopAction::Proceed),
        },
        LoopState::Fetching => match event {
            LoopEvent::ChannelsFetched(channels) => {
                let plans: Vec<Result<PolicyUpdate, BalancerError>> = plan_tick(&channels, &policy);
                (LoopState::Reconciling, LoopAction::Dispatch(plans))
            },
            LoopEvent::ConnectionFailed => (LoopState::Idle, LoopAction::Sleep(pause)),
            LoopEvent::FetchFailed => (LoopState::Idle, LoopAction::Sleep(pause)),
            _ => (state, LoopAction::Proceed),
        },
        LoopState::Reconciling => match event {
            LoopEvent::UpdatesSettled => (LoopState::Idle, LoopAction::Sleep(pause)),
            _ => (state, LoopAction::Proceed),
        },
    }
}

/// The error that ends a tick on `event`, if it ends one.
pub fn tick_failure(event: &LoopEvent) -> (failure: Option<BalancerError>)
    ensures
        event is ConnectionFailed ==> failure == Some(BalancerError::ConnectionError),
        event is FetchFailed ==> failure == Some(BalancerError::ChannelFetchError),
        !(event is ConnectionFailed) && !(event is FetchFailed) ==> failure is None,
        failure is Some ==> failure->0.is_per_tick(),
{
    match event {
        LoopEvent::ConnectionFailed => Some(BalancerError::ConnectionError),
        LoopEvent::FetchFailed => Some(BalancerError::ChannelFetchError),
        _ => None,
    }
}

/// A tick never starts while another is under way: channels are fetched from
/// the idle state only, and the idle state is reached again only once the
/// running tick has been given up or has been answered in full.
pub proof fn lemma_ticks_do_not_overlap(state: LoopState, event: LoopEvent)
    ensures
        next_state(state, event) == LoopState::Fetching && state != LoopState::Fetching ==> state
            == LoopState::Idle && event is TimerFired,
        state == LoopState::Reconciling && next_state(state, event) != LoopState::Reconciling
            ==> event is UpdatesSettled && next_state(state, event) == LoopState::Idle,
        state == LoopState::Fetching && next_state(state, event) == LoopState::Idle ==> event is ConnectionFailed
            || event is FetchFailed,
{
}

} // verus!
