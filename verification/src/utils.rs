//! What a reconciliation asks of the scheduler that runs it.

use std::sync::Arc;
use vstd::prelude::*;

verus! {

/// The number of seconds after which a failed reconciliation is run again.
pub const RETRY_AFTER_SECONDS: u64 = 5;

/// When the scheduler is to run a reconciliation again.
#[derive(Debug, Clone, Copy, PartialEq, Eq, Structural)]
pub enum Action {
    /// When the object changes, and not before.
    AwaitChange,
    /// After this many seconds.
    Requeue(u64),
}

/// The answer to every failure: run again after a fixed delay.
pub fn default_error_policy<E, D>(_error: &E, _ctx: Arc<D>) -> (r: Action)
    ensures
        r == Action::Requeue(RETRY_AFTER_SECONDS),
{
    Action::Requeue(RETRY_AFTER_SECONDS)
}

/// The answer of the template controller to a failure: the same fixed
/// delay.  Callers that want the failure on record write it down themselves.
pub fn error_policy<E, D>(_error: &E, _ctx: Arc<D>) -> (r: Action)
    ensures
        r == Action::Requeue(RETRY_AFTER_SECONDS),
{
    Action::Requeue(RETRY_AFTER_SECONDS)
}

} // verus!
