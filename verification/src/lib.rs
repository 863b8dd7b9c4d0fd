//! A typed, thread-safe layer over a non-reentrant device-control library.
//!
//! The heart of the crate is the concurrency core: a single dedicated worker
//! serializes every device-facing unit of work, tasks expose blocking or
//! polling consumption of one result each, and a callback bridge attaches one
//! task's progress and cancellation handlers to a shared device context for
//! exactly the duration of that task's execution.
//!
//! The modules here hold the verified logic of that core — the scheduling
//! decisions, the task life cycle, the callback-slot discipline and the
//! context reference counts — together with the typed data model that the
//! higher marshaling layers exchange (abilities, files, ports, widgets).
//! The thin runtime shell that owns the actual worker thread and channels
//! drives these decisions from outside.

pub mod abilities;
pub mod camera;
pub mod context;
pub mod error;
pub mod file;
pub mod filesys;
pub mod list;
pub mod port;
pub mod progress;
pub mod task;
pub mod thread;
pub mod widget;

pub use crate::context::Context;
pub use crate::error::{Error, ErrorKind};
pub use crate::task::Task;
pub use crate::thread::ThreadManager;
