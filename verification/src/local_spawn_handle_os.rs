use vstd::prelude::*;
use vstd::future::FutureAdditionalSpecFns;
use std::rc::Rc;
use std::sync::Arc;
use futures_executor::LocalSpawner;
use futures_util::task::LocalFutureObj;
use crate::error::ExecutorError;
use crate::join_handle::Endpoint;
use crate::join_handle::JoinHandle;
use crate::local_spawn_handle::LocalSpawnHandle;

verus! {

/// Object-safe version of `LocalSpawnHandle`: the output type is fixed by the trait
/// and the work arrives already boxed, so the capability can be taken as a parameter
/// and stored. The work is boxed once here and usually once more by the executor.
pub trait LocalSpawnHandleOs<Out: 'static> {
    /// Hands the boxed `future` over to the executor, with the same outcomes as the
    /// generic operation.
    fn spawn_handle_local_os(&self, future: LocalFutureObj<'static, Out>) -> (r: Result<
        JoinHandle<Out>,
        ExecutorError,
    >)
        ensures
            r matches Ok(carrier) ==> (match carrier.endpoint() {
                Endpoint::Native(handle) => handle@ == future@,
                Endpoint::Emulated(handle) => handle@ == future@,
            }),
            r matches Err(e) ==> e == ExecutorError::AdmissionRejected,
    ;
}

impl<Out: 'static> LocalSpawnHandleOs<Out> for LocalSpawner {
    /// Boxed work is still work: it goes through the generic operation of this
    /// spawner, so the carrier is in the emulated representation here too.
    fn spawn_handle_local_os(&self, future: LocalFutureObj<'static, Out>) -> (r: Result<
        JoinHandle<Out>,
        ExecutorError,
    >)
        ensures
            r matches Ok(carrier) ==> carrier.endpoint() is Emulated,
    {
        self.spawn_handle_local(future)
    }
}

impl<T, Out> LocalSpawnHandleOs<Out> for Box<T> where T: LocalSpawnHandleOs<Out>, Out: 'static {
    /// Whatever comes back is an outcome of spawning `future` on the boxed holder.
    fn spawn_handle_local_os(&self, future: LocalFutureObj<'static, Out>) -> (r: Result<
        JoinHandle<Out>,
        ExecutorError,
    >)
        ensures
            call_ensures(T::spawn_handle_local_os, (&**self, future), r),
    {
        (**self).spawn_handle_local_os(future)
    }
}

impl<T, Out> LocalSpawnHandleOs<Out> for Arc<T> where T: LocalSpawnHandleOs<Out>, Out: 'static {
    /// Whatever comes back is an outcome of spawning `future` on the shared holder.
    fn spawn_handle_local_os(&self, future: LocalFutureObj<'static, Out>) -> (r: Result<
        JoinHandle<Out>,
        ExecutorError,
    >)
        ensures
            call_ensures(T::spawn_handle_local_os, (&**self, future), r),
    {
        (**self).spawn_handle_local_os(future)
    }
}

impl<T, Out> LocalSpawnHandleOs<Out> for Rc<T> where T: LocalSpawnHandleOs<Out>, Out: 'static {
    /// Whatever comes back is an outcome of spawning `future` on the shared holder.
    fn spawn_handle_local_os(&self, future: LocalFutureObj<'static, Out>) -> (r: Result<
        JoinHandle<Out>,
        ExecutorError,
    >)
        ensures
            call_ensures(T::spawn_handle_local_os, (&**self, future), r),
    {
        (**self).spawn_handle_local_os(future)
    }
}

impl<T, Out> LocalSpawnHandleOs<Out> for &T where T: LocalSpawnHandleOs<Out>, Out: 'static {
    /// Whatever comes back is an outcome of spawning `future` on the borrowed holder.
    fn spawn_handle_local_os(&self, future: LocalFutureObj<'static, Out>) -> (r: Result<
        JoinHandle<Out>,
        ExecutorError,
    >)
        ensures
            call_ensures(T::spawn_handle_local_os, (&**self, future), r),
    {
        (**self).spawn_handle_local_os(future)
    }
}

impl<T, Out> LocalSpawnHandleOs<Out> for &mut T where T: LocalSpawnHandleOs<Out>, Out: 'static {
    /// Whatever comes back is an outcome of spawning `future` on the borrowed holder.
    fn spawn_handle_local_os(&self, future: LocalFutureObj<'static, Out>) -> (r: Result<
        JoinHandle<Out>,
        ExecutorError,
    >)
        ensures
            call_ensures(T::spawn_handle_local_os, (&*old(*self), future), r),
    {
        (**self).spawn_handle_local_os(future)
    }
}

} // verus!
