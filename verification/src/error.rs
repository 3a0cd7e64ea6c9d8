use vstd::prelude::*;

verus! {

/// Everything that can go wrong while the balancer runs.
///
/// Only `ConfigLoadError` stops the process. The connection and fetch errors
/// end the tick in which they occur; the remaining ones concern a single
/// channel and leave its siblings untouched.
#[derive(Debug, Clone, Copy, PartialEq, Eq, Structural)]
pub enum BalancerError {
    /// The configuration is malformed or breaks one of its invariants.
    ConfigLoadError,
    /// The node could not be reached.
    ConnectionError,
    /// The node was reached but did not hand out its channel list.
    ChannelFetchError,
    /// A channel point is not of the form `<txid>:<index>`.
    MalformedChannelPoint,
    /// A channel reports a balance and capacity that no fee can be derived from.
    InvalidChannelState,
    /// The node refused a policy update.
    PolicyUpdateRejected,
}

impl BalancerError {
    /// True of the errors that concern one channel only.
    pub open spec fn is_per_channel(self) -> bool {
        self == BalancerError::MalformedChannelPoint || self == BalancerError::InvalidChannelState
            || self == BalancerError::PolicyUpdateRejected
    }

    /// True of the errors that end the running tick without ending the process.
    pub open spec fn is_per_tick(self) -> bool {
        self == BalancerError::ConnectionError || self == BalancerError::ChannelFetchError
    }

    /// Tells whether the process has to stop on this error.
    pub fn is_fatal(&self) -> (fatal: bool)
        ensures
            fatal == (*self == BalancerError::ConfigLoadError),
            fatal == (!self.is_per_channel() && !self.is_per_tick()),
    {
        match self {
            BalancerError::ConfigLoadError => true,
            _ => false,
        }
    }
}

} // verus!
