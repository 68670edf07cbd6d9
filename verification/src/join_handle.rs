use vstd::prelude::*;
use futures_util::future::RemoteHandle;
use futures_util::task::LocalFutureObj;
use crate::error::ExecutorError;

verus! {

/// The handle to a driver's one-shot channel. Awaiting it gives what the driven unit
/// of work produced; dropping it makes the driver stop at its next poll.
#[verifier::external_type_specification]
#[verifier::external_body]
#[verifier::reject_recursive_types(T)]
pub struct ExRemoteHandle<T>(RemoteHandle<T>);

/// A boxed future stripped of its concrete type; only its output type is left.
#[verifier::external_type_specification]
#[verifier::external_body]
#[verifier::reject_recursive_types(T)]
pub struct ExLocalFutureObj<'a, T>(LocalFutureObj<'a, T>);

/// What a carrier holds, in one of its two representations.
#[verifier::reject_recursive_types(Out)]
pub enum Endpoint<Out> {
    /// The join primitive that the backend itself returned, boxed. Dropping it
    /// leaves the work to the backend, which as a rule lets it run on.
    Native(LocalFutureObj<'static, Out>),
    /// The receive endpoint of a one-shot channel that a separately spawned driver
    /// feeds. Dropping it cancels the driver.
    Emulated(RemoteHandle<Out>),
}

/// The eventual output of a spawned unit of work.
///
/// A carrier comes out of a spawn operation and is given up by value to whoever
/// awaits it. It is not `Clone`, so its output is taken at most once.
#[verifier::reject_recursive_types(Out)]
pub struct JoinHandle<Out> {
    inner: Endpoint<Out>,
}

impl<Out> JoinHandle<Out> {
    /// The endpoint that this carrier holds.
    pub closed spec fn endpoint(&self) -> Endpoint<Out> {
        self.inner
    }

    /// A carrier in the emulated representation, around the receive endpoint of an
    /// admitted driver.
    pub fn from_remote(handle: RemoteHandle<Out>) -> (carrier: Self)
        ensures
            carrier.endpoint() == Endpoint::Emulated(handle),
    {
        JoinHandle { inner: Endpoint::Emulated(handle) }
    }

    /// A carrier in the native representation, around the join primitive that a
    /// backend returned for admitted work.
    pub fn from_native(handle: LocalFutureObj<'static, Out>) -> (carrier: Self)
        ensures
            carrier.endpoint() == Endpoint::Native(handle),
    {
        JoinHandle { inner: Endpoint::Native(handle) }
    }

    /// Gives up the carrier for the endpoint to await.
    pub fn into_endpoint(self) -> (endpoint: Endpoint<Out>)
        ensures
            endpoint == self.endpoint(),
    {
        self.inner
    }

    /// What awaiting a carrier reports, given whether an output arrived.
    pub fn join_result(arrived: Option<Out>) -> (r: Result<Out, ExecutorError>)
        ensures
            r == (match arrived {
                Some(output) => Ok::<Out, ExecutorError>(output),
                None => Err::<Out, ExecutorError>(ExecutorError::ResultUnavailable),
            }),
    {
        match arrived {
            Some(output) => Ok(output),
            None => Err(ExecutorError::ResultUnavailable),
        }
    }
}

} // verus!
