//! The hot-reload handoff slot: the configuration watcher overwrites a
//! single mutually-exclusive slot from its own context, and the engine
//! takes-and-clears it once per loop iteration.

use vstd::prelude::*;

use crate::config::Config;

verus! {

#[verifier::external_type_specification]
#[verifier::external_body]
pub struct ExRawMutex(parking_lot::RawMutex);

#[verifier::external_type_specification]
#[verifier::external_body]
#[verifier::reject_recursive_types(R)]
#[verifier::reject_recursive_types(T)]
pub struct ExMutex<R, T: ?Sized>(lock_api::Mutex<R, T>);

/// Relies on `parking_lot::Mutex::lock` (blocks until the slot's lock is
/// acquired, then releases it when the guard drops) and `Option::take`
/// (removes and returns the slot's value, leaving `None`). The returned
/// configuration, if any, was put there by the watcher context, so
/// nothing is assumed about its contents.
#[verifier::external_body]
pub(crate) fn take_pending_config(slot: &parking_lot::Mutex<Option<Config>>) -> Option<Config> {
    slot.lock().take()
}

} // verus!
