//! Spawn a unit of work on a single-threaded executor and get back one uniform
//! carrier for its eventual output, whichever holder the work was handed to.
//!
//! * [`JoinHandle`] is the carrier. It holds an [`Endpoint`]: the backend's own join
//!   primitive, or the receive end of a one-shot channel that a driver of the work
//!   feeds.
//! * [`LocalSpawnHandle`] is the generic capability, [`LocalSpawnHandleOs`] the
//!   object-safe one with a fixed output type. Both are forwarded unchanged through
//!   `Box`, `Rc`, `Arc`, `&` and `&mut`.
//! * [`ExecutorError`] names the two ways in which no value is obtained.

pub mod error;
pub mod join_handle;
pub mod emulation;
pub mod local_spawn_handle;
pub mod local_spawn_handle_os;

pub use crate::error::ExecutorError;
pub use crate::join_handle::Endpoint;
pub use crate::join_handle::JoinHandle;
pub use crate::emulation::carrier_for;
pub use crate::local_spawn_handle::LocalSpawnHandle;
pub use crate::local_spawn_handle::spawn_on;
pub use crate::local_spawn_handle_os::LocalSpawnHandleOs;
