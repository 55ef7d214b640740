//! The tokio task handle, as far as the registry uses it.

use tokio::task::JoinError;
use tokio::task::JoinHandle;
use vstd::prelude::*;

verus! {

/// `tokio::task::JoinHandle`, carried through the registry as an opaque value.
#[verifier::external_type_specification]
#[verifier::external_body]
#[verifier::reject_recursive_types(T)]
pub struct ExJoinHandle<T>(JoinHandle<T>);

/// `tokio::task::JoinError`, what awaiting a handle yields when its task was
/// stopped or panicked. The registry never looks at one.
#[verifier::external_type_specification]
#[verifier::external_body]
pub struct ExJoinError(JoinError);

/// `JoinHandle::is_finished`: whether the task has run to its end. The answer
/// depends on the scheduler and the clock, so nothing is claimed of it.
pub assume_specification<T>[ JoinHandle::<T>::is_finished ](handle: &JoinHandle<T>) -> (finished:
    bool)
;

/// `JoinHandle::abort`: asks the runtime to stop the task at its next
/// suspension point. It never panics and changes nothing the registry models.
pub assume_specification<T>[ JoinHandle::<T>::abort ](handle: &JoinHandle<T>)
;

} // verus!
