//! The shared, swappable snapshot of the active configuration.

use std::sync::Arc;
use vstd::prelude::*;

verus! {

/// Holds the configuration that is in force.
///
/// A reader takes a snapshot and keeps it for as long as it likes; installing
/// another configuration replaces what later readers get and leaves every
/// snapshot already taken as it was.
pub struct ConfigHandle<T> {
    active: Arc<T>,
}

/// Another pointer to the same value, by `Arc::clone`: the value behind the
/// result is the value behind `shared`.
#[verifier::external_body]
fn share<T>(shared: &Arc<T>) -> (again: Arc<T>)
    ensures
        *again == **shared,
{
    Arc::clone(shared)
}

impl<T> ConfigHandle<T> {
    /// The configuration in force.
    pub closed spec fn view(&self) -> T {
        *self.active
    }

    /// A handle with `initial` in force.
    pub fn new(initial: T) -> (handle: Self)
        ensures
            handle@ == initial,
    {
        ConfigHandle { active: Arc::new(initial) }
    }

    /// A snapshot of the configuration in force.
    pub fn current(&self) -> (snapshot: Arc<T>)
        ensures
            *snapshot == self@,
    {
        share(&self.active)
    }

    /// Puts `cfg` in force in place of what was.
    pub fn make_current(&mut self, cfg: T)
        ensures
            final(self)@ == cfg,
    {
        self.active = Arc::new(cfg);
    }
}

} // verus!
