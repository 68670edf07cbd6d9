use vstd::prelude::*;
use vstd::future::FutureAdditionalSpecFns;
use std::future::Future;
use std::rc::Rc;
use std::sync::Arc;
use futures_executor::LocalSpawner;
use futures_util::future::Remote;
use futures_util::task::SpawnError;
use crate::emulation::carrier_for;
use crate::emulation::split;
use crate::error::ExecutorError;
use crate::join_handle::Endpoint;
use crate::join_handle::JoinHandle;

verus! {

/// The spawning end of a `futures_executor::LocalPool`.
#[verifier::external_type_specification]
#[verifier::external_body]
pub struct ExLocalSpawner(LocalSpawner);

/// Lets you spawn a unit of work that need not be `Send` and get a [`JoinHandle`] for
/// its output.
///
/// The operation is generic per call, so the capability cannot be stored as a trait
/// object; `LocalSpawnHandleOs` is the storable variant.
pub trait LocalSpawnHandle {
    /// Hands `future` over to the executor.
    ///
    /// On admission the carrier's endpoint, in either representation, resolves to
    /// exactly what `future` resolves to. A refusal is reported at once as
    /// `AdmissionRejected`; no other error comes from spawning.
    fn spawn_handle_local<Fut, Out>(&self, future: Fut) -> (r: Result<JoinHandle<Out>, ExecutorError>)
        where Fut: Future<Output = Out> + 'static, Out: 'static
        ensures
            r matches Ok(carrier) ==> (match carrier.endpoint() {
                Endpoint::Native(handle) => handle@ == future@,
                Endpoint::Emulated(handle) => handle@ == future@,
            }),
            r matches Err(e) ==> e == ExecutorError::AdmissionRejected,
    ;
}

/// Spawns `future` directly on `holder`. The forwarding impls below go through this
/// function, so that each can say whose outcome it hands back.
pub fn spawn_on<H, Fut, Out>(holder: &H, future: Fut) -> (r: Result<JoinHandle<Out>, ExecutorError>)
    where H: LocalSpawnHandle, Fut: Future<Output = Out> + 'static, Out: 'static
    ensures
        r matches Ok(carrier) ==> (match carrier.endpoint() {
            Endpoint::Native(handle) => handle@ == future@,
            Endpoint::Emulated(handle) => handle@ == future@,
        }),
        r matches Err(e) ==> e == ExecutorError::AdmissionRejected,
{
    holder.spawn_handle_local(future)
}

/// Calls `futures_util::task::LocalSpawnExt::spawn_local` on a `LocalSpawner`, which
/// queues `driver` on the pool if the pool still exists. Nothing is claimed of the
/// answer: it depends on whether the pool has been dropped.
#[verifier::external_body]
fn enqueue<Fut>(spawner: &LocalSpawner, driver: Remote<Fut>) -> (admission: Result<(), SpawnError>)
    where Fut: Future + 'static
{
    futures_util::task::LocalSpawnExt::spawn_local(spawner, driver)
}

impl LocalSpawnHandle for LocalSpawner {
    /// The pool has no join primitive of its own, so the work is paired with a
    /// one-shot channel and its driver is queued in its place: every carrier of this
    /// backend is in the emulated representation.
    fn spawn_handle_local<Fut, Out>(&self, future: Fut) -> (r: Result<JoinHandle<Out>, ExecutorError>)
        where Fut: Future<Output = Out> + 'static, Out: 'static
        ensures
            r matches Ok(carrier) ==> carrier.endpoint() is Emulated,
    {
        let (driver, handle) = split(future);
        let admission = enqueue(self, driver);
        carrier_for(admission, handle)
    }
}

impl<T: LocalSpawnHandle> LocalSpawnHandle for Box<T> {
    /// Whatever comes back is an outcome of spawning `future` on the boxed holder.
    fn spawn_handle_local<Fut, Out>(&self, future: Fut) -> (r: Result<JoinHandle<Out>, ExecutorError>)
        where Fut: Future<Output = Out> + 'static, Out: 'static
        ensures
            call_ensures(spawn_on::<T, Fut, Out>, (&**self, future), r),
    {
        spawn_on(&**self, future)
    }
}

impl<T: LocalSpawnHandle> LocalSpawnHandle for Arc<T> {
    /// Whatever comes back is an outcome of spawning `future` on the shared holder.
    fn spawn_handle_local<Fut, Out>(&self, future: Fut) -> (r: Result<JoinHandle<Out>, ExecutorError>)
        where Fut: Future<Output = Out> + 'static, Out: 'static
        ensures
            call_ensures(spawn_on::<T, Fut, Out>, (&**self, future), r),
    {
        spawn_on(&**self, future)
    }
}

impl<T: LocalSpawnHandle> LocalSpawnHandle for Rc<T> {
    /// Whatever comes back is an outcome of spawning `future` on the shared holder.
    fn spawn_handle_local<Fut, Out>(&self, future: Fut) -> (r: Result<JoinHandle<Out>, ExecutorError>)
        where Fut: Future<Output = Out> + 'static, Out: 'static
        ensures
            call_ensures(spawn_on::<T, Fut, Out>, (&**self, future), r),
    {
        spawn_on(&**self, future)
    }
}

impl<T: LocalSpawnHandle> LocalSpawnHandle for &T {
    /// Whatever comes back is an outcome of spawning `future` on the borrowed holder.
    fn spawn_handle_local<Fut, Out>(&self, future: Fut) -> (r: Result<JoinHandle<Out>, ExecutorError>)
        where Fut: Future<Output = Out> + 'static, Out: 'static
        ensures
            call_ensures(spawn_on::<T, Fut, Out>, (&**self, future), r),
    {
        spawn_on(&**self, future)
    }
}

impl<T: LocalSpawnHandle> LocalSpawnHandle for &mut T {
    /// Whatever comes back is an outcome of spawning `future` on the borrowed holder.
    fn spawn_handle_local<Fut, Out>(&self, future: Fut) -> (r: Result<JoinHandle<Out>, ExecutorError>)
        where Fut: Future<Output = Out> + 'static, Out: 'static
        ensures
            call_ensures(spawn_on::<T, Fut, Out>, (&*old(*self), future), r),
    {
        spawn_on(&**self, future)
    }
}

} // verus!
