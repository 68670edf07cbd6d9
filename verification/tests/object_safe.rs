use async_executors::{Endpoint, ExecutorError, JoinHandle, LocalSpawnHandleOs};
use futures::channel::oneshot;
use futures::executor::LocalPool;
use futures::task::LocalFutureObj;
use std::cell::Cell;
use std::future::Future;
use std::pin::Pin;
use std::rc::Rc;
use std::sync::Arc;

fn boxed<Out: 'static>(work: impl Future<Output = Out> + 'static) -> LocalFutureObj<'static, Out> {
    let erased: Pin<Box<dyn Future<Output = Out>>> = Box::pin(work);
    LocalFutureObj::new(erased)
}

fn wait<Out: 'static>(pool: &mut LocalPool, carrier: JoinHandle<Out>) -> Out {
    match carrier.into_endpoint() {
        Endpoint::Native(handle) => pool.run_until(handle),
        Endpoint::Emulated(handle) => pool.run_until(handle),
    }
}
struct Service {
    exec: Box<dyn LocalSpawnHandleOs<u8>>,
}

#[test]
fn a_stored_spawner_spawns_boxed_work() {
    let mut pool = LocalPool::new();
    let service = Service { exec: Box::new(pool.spawner()) };

    let handle = service.exec.spawn_handle_local_os(boxed(async { 4u8 + 1 })).expect("spawn");

    assert_eq!(5u8, wait(&mut pool, handle));
}

#[test]
fn boxed_work_waits_for_its_signal() {
    let (tx, rx) = oneshot::channel();
    let mut pool = LocalPool::new();
    let exec: Rc<dyn LocalSpawnHandleOs<u8>> = Rc::new(pool.spawner());

    let handle = exec
        .spawn_handle_local_os(boxed(async move { rx.await.expect("Some") }))
        .expect("spawn");

    tx.send(5).expect("send");

    assert_eq!(5u8, wait(&mut pool, handle));
}

#[test]
fn a_stored_spawner_reports_rejection() {
    let pool = LocalPool::new();
    let exec: Box<dyn LocalSpawnHandleOs<u8>> = Box::new(pool.spawner());
    drop(pool);

    let ran = Rc::new(Cell::new(false));
    let flag = ran.clone();
    let outcome = exec.spawn_handle_local_os(boxed(async move { flag.set(true); 5u8 }));

    assert!(matches!(outcome, Err(ExecutorError::AdmissionRejected)));
    assert!(!ran.get());
}

fn through(holder: impl LocalSpawnHandleOs<u32>, pool: &mut LocalPool, input: u32) -> u32 {
    let handle = holder.spawn_handle_local_os(boxed(async move { input + 100 })).expect("spawn");
    match handle.into_endpoint() {
        Endpoint::Emulated(endpoint) => pool.run_until(endpoint),
        Endpoint::Native(_) => panic!("the pool has no join primitive of its own"),
    }
}

#[test]
fn every_wrapper_spawns_boxed_work_like_the_holder_itself() {
    let mut pool = LocalPool::new();
    let mut exec = pool.spawner();

    assert_eq!(101, through(exec.clone(), &mut pool, 1));
    assert_eq!(102, through(Box::new(exec.clone()), &mut pool, 2));
    assert_eq!(103, through(Rc::new(exec.clone()), &mut pool, 3));
    assert_eq!(104, through(Arc::new(exec.clone()), &mut pool, 4));
    assert_eq!(105, through(&exec, &mut pool, 5));
    assert_eq!(106, through(&mut exec, &mut pool, 6));
    assert_eq!(107, through(Arc::new(&mut exec), &mut pool, 7));
}

#[test]
fn every_wrapper_rejects_boxed_work_like_the_holder_itself() {
    let pool = LocalPool::new();
    let mut exec = pool.spawner();
    drop(pool);

    let rejected = Err(ExecutorError::AdmissionRejected);
    assert_eq!(rejected, exec.spawn_handle_local_os(boxed(async { 1u8 })).map(|_| ()));
    assert_eq!(rejected, Box::new(exec.clone()).spawn_handle_local_os(boxed(async { 1u8 })).map(|_| ()));
    assert_eq!(rejected, Rc::new(exec.clone()).spawn_handle_local_os(boxed(async { 1u8 })).map(|_| ()));
    assert_eq!(rejected, Arc::new(exec.clone()).spawn_handle_local_os(boxed(async { 1u8 })).map(|_| ()));
    assert_eq!(rejected, (&exec).spawn_handle_local_os(boxed(async { 1u8 })).map(|_| ()));
    assert_eq!(rejected, (&mut exec).spawn_handle_local_os(boxed(async { 1u8 })).map(|_| ()));
}

#[test]
fn dropping_the_carrier_of_boxed_work_cancels_it() {
    let ran = Rc::new(Cell::new(false));
    let flag = ran.clone();
    let mut pool = LocalPool::new();
    let exec = pool.spawner();

    let handle = exec.spawn_handle_local_os(boxed(async move { flag.set(true); })).expect("spawn");
    drop(handle);
    pool.run();

    assert!(!ran.get());
}
