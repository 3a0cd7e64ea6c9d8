//! The configuration of the whole application, as the operator writes it.

use std::sync::Arc;
use vstd::prelude::*;
use crate::error::BalancerError;
use crate::handle::ConfigHandle;

verus! {

/// How to reach and authenticate with one node.
#[derive(Debug, Clone)]
pub struct Source {
    pub endpoint: String,
    pub macaroon: String,
    pub cert: String,
}

/// Everything the operator can set.
#[derive(Debug, Clone)]
pub struct Config {
    pub application_port: u16,
    pub sources: Vec<Source>,
    pub dynamic_fees: bool,
    pub dynamic_fee_update_frequency: u64,
    pub dynamic_fee_intervals: u64,
    pub dynamic_fee_min: u64,
    pub dynamic_fee_max: u64,
}

impl Default for Config {
    /// What is in force when the operator has written nothing. Its policy
    /// part is the policy's own default.
    fn default() -> (cfg: Self)
        ensures
            cfg.application_port == 8080,
            cfg.sources@.len() == 0,
            cfg.dynamic_fees,
            cfg.dynamic_fee_update_frequency == 100,
            cfg.dynamic_fee_intervals == 5,
            cfg.dynamic_fee_min == 100,
            cfg.dynamic_fee_max == 1000,
            cfg.is_valid(),
            cfg.policy_spec() == crate::Config::default_spec(),
    {
        Config {
            application_port: 8080,
            sources: Vec::new(),
            dynamic_fees: true,
            dynamic_fee_update_frequency: 100,
            dynamic_fee_intervals: 5,
            dynamic_fee_min: 100,
            dynamic_fee_max: 1000,
        }
    }
}

impl Config {
    /// The policy part can be put in force: there is at least one interval
    /// and no more than the policy can count, the fee range is not inverted
    /// and fits, and ticks are a positive, representable time apart.
    pub open spec fn is_valid(&self) -> bool {
        &&& 1 <= self.dynamic_fee_intervals <= i8::MAX
        &&& self.dynamic_fee_min <= self.dynamic_fee_max <= i64::MAX
        &&& 1 <= self.dynamic_fee_update_frequency <= i64::MAX
    }

    /// The policy that this configuration asks for.
    pub open spec fn policy_spec(&self) -> crate::Config {
        crate::Config {
            dynamic_fees: self.dynamic_fees,
            dynamic_fee_min: self.dynamic_fee_min as i64,
            dynamic_fee_max: self.dynamic_fee_max as i64,
            dynamic_fee_intervals: self.dynamic_fee_intervals as i8,
            dynamic_fee_update_frequency: self.dynamic_fee_update_frequency as i64,
        }
    }

    /// Validates the policy part and hands it out in the form the
    /// calculators take. A configuration that is not valid is refused here,
    /// before any fee is computed from it.
    pub fn policy(&self) -> (r: Result<crate::Config, BalancerError>)
        ensures
            self.is_valid() ==> r == Ok::<crate::Config, BalancerError>(self.policy_spec()),
            self.is_valid() ==> self.policy_spec().is_valid(),
            !self.is_valid() ==> r == Err::<crate::Config, BalancerError>(
                BalancerError::ConfigLoadError,
            ),
    {
        if self.dynamic_fee_intervals < 1 || self.dynamic_fee_intervals > 127 {
            return Err(BalancerError::ConfigLoadError);
        }
        if self.dynamic_fee_min > self.dynamic_fee_max || self.dynamic_fee_max
            > 0x7fff_ffff_ffff_ffff {
            return Err(BalancerError::ConfigLoadError);
        }
        if self.dynamic_fee_update_frequency < 1 || self.dynamic_fee_update_frequency
            > 0x7fff_ffff_ffff_ffff {
            return Err(BalancerError::ConfigLoadError);
        }
        Ok(
            crate::Config {
                dynamic_fees: self.dynamic_fees,
                dynamic_fee_min: self.dynamic_fee_min as i64,
                dynamic_fee_max: self.dynamic_fee_max as i64,
                dynamic_fee_intervals: self.dynamic_fee_intervals as i8,
                dynamic_fee_update_frequency: self.dynamic_fee_update_frequency as i64,
            },
        )
    }

    /// The node to talk to: the first of the sources, the only one in use.
    pub fn first_source(&self) -> (source: Option<&Source>)
        ensures
            source is None <==> self.sources@.len() == 0,
            source is Some ==> *source->0 == self.sources@[0],
    {
        if self.sources.len() == 0 {
            None
        } else {
            Some(&self.sources[0])
        }
    }

    /// A snapshot of the configuration in force.
    pub fn current(handle: &ConfigHandle<Config>) -> (snapshot: Arc<Config>)
        ensures
            *snapshot == handle@,
    {
        handle.current()
    }

    /// Puts this configuration in force.
    pub fn make_current(self, handle: &mut ConfigHandle<Config>)
        ensures
            final(handle)@ == self,
    {
        handle.make_current(self)
    }
}

} // verus!
