//! The shutdown coordinator: a shared flag that is raised once and never
//! lowered, provided by `async_shutdown`.
//!
//! Every holder of a clone sees the same flag, so nothing can be promised
//! here about what a reading returns: whoever reads it must be right for
//! both answers. The coordinator carries a reason with it, which is not
//! used here and is always `true`.

use async_shutdown::ShutdownManager;
use vstd::prelude::*;

verus! {

/// Declares the coordinator of `async_shutdown` so that it can be carried
/// in fields and signatures. Nothing is known about a value of it.
#[verifier::external_type_specification]
#[verifier::external_body]
#[verifier::reject_recursive_types(T)]
pub struct ExShutdownManager<T: Clone>(ShutdownManager<T>);

/// `ShutdownManager::new` of `async_shutdown`: a coordinator of its own,
/// shared with nobody yet.
#[verifier::external_body]
pub(crate) fn fresh() -> ShutdownManager<bool> {
    ShutdownManager::new()
}

/// `ShutdownManager::trigger_shutdown` of `async_shutdown`: raises the flag
/// and wakes everyone who waits for it. Returns whether this call was the
/// one that raised it.
#[verifier::external_body]
pub(crate) fn raise(shutdown: &ShutdownManager<bool>) -> bool {
    shutdown.trigger_shutdown(true).is_ok()
}

/// `ShutdownManager::is_shutdown_triggered` of `async_shutdown`: whether
/// the flag is raised at this moment.
#[verifier::external_body]
pub(crate) fn is_raised(shutdown: &ShutdownManager<bool>) -> bool {
    shutdown.is_shutdown_triggered()
}

} // verus!
