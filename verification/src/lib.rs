//! The decisions of a process watcher: turning the task records of kernel
//! probes into signal messages, tagging them with their container, passing
//! them through a chain of handlers, and keying them for storage.
use vstd::prelude::*;

pub mod cgroup;
pub mod convert;
pub mod decimal;
pub mod intake;
pub mod keys;
pub mod proto;
pub mod raw;
pub mod streamline;
