use vstd::prelude::*;
use vstd::future::FutureAdditionalSpecFns;
use std::future::Future;
use futures_util::future::Remote;
use futures_util::future::RemoteHandle;
use futures_util::task::SpawnError;
use crate::error::ExecutorError;
use crate::join_handle::Endpoint;
use crate::join_handle::JoinHandle;

verus! {

/// The driver of a unit of work: a future without output that runs the work and
/// sends what it produced to the paired receive endpoint.
#[verifier::external_type_specification]
#[verifier::external_body]
#[verifier::reject_recursive_types(Fut)]
pub struct ExRemote<Fut: Future>(Remote<Fut>);

/// The error with which an executor of the futures ecosystem refuses a task.
#[verifier::external_type_specification]
#[verifier::external_body]
pub struct ExSpawnError(SpawnError);

/// Calls `futures_util::future::FutureExt::remote_handle`, which pairs `future` with
/// a one-shot channel. Trusted: the returned endpoint resolves to the value that
/// `future` itself resolves to.
#[verifier::external_body]
pub(crate) fn split<Fut, Out>(future: Fut) -> (pair: (Remote<Fut>, RemoteHandle<Out>))
    where Fut: Future<Output = Out> + 'static, Out: 'static
    ensures
        pair.1@ == future@,
{
    futures_util::future::FutureExt::remote_handle(future)
}

/// Turns the backend's answer to a driver into the answer of the spawn operation:
/// a carrier in the emulated representation around the paired endpoint when the
/// driver was admitted, and `AdmissionRejected` when it was not.
pub fn carrier_for<Out>(admission: Result<(), SpawnError>, handle: RemoteHandle<Out>) -> (r: Result<
    JoinHandle<Out>,
    ExecutorError,
>)
    ensures
        admission is Ok ==> (r matches Ok(carrier) && carrier.endpoint() == Endpoint::Emulated(handle)),
        admission is Err ==> r == Err::<JoinHandle<Out>, ExecutorError>(
            ExecutorError::AdmissionRejected,
        ),
{
    match admission {
        Ok(()) => Ok(JoinHandle::from_remote(handle)),
        Err(_) => Err(ExecutorError::AdmissionRejected),
    }
}

} // verus!
