//! The records that the kernel probes emit for a task, as plain values:
//! fixed-width integers, and byte buffers for the inline strings.
use vstd::prelude::*;

verus! {

/// User and group ids as the probe saw them.
#[derive(Clone, Copy, Debug)]
pub struct RawCreds {
    pub uid: u32,
    pub gid: u32,
    pub euid: u32,
    pub egid: u32,
}

/// Process ids as the probe saw them.
#[derive(Clone, Copy, Debug)]
pub struct RawPid {
    pub pid: u32,
    pub tgid: u32,
    pub pid_ns: u32,
    pub pid_vnr: u32,
}

/// The parent of the task as the probe saw it.
#[derive(Clone, Copy, Debug)]
pub struct RawParent {
    pub pid: u32,
    pub tgid: u32,
    pub boot_ns: u64,
}

/// A reference to a string that the probe sent apart, as a blob.
#[derive(Clone, Copy, Debug)]
pub struct RawBlob {
    pub flag: u8,
    pub blob_id: u64,
}

/// A string of the record: either carried inline in `str_` (a
/// NUL-padded buffer) or sent apart as the blob that `blob` names.
#[derive(Clone, Debug)]
pub struct RawBlobStr {
    pub blob: RawBlob,
    pub str_: Vec<u8>,
}

/// The executable as the probe saw it; `args` and `env` are blob ids,
/// 0 where there is none.
#[derive(Clone, Debug)]
pub struct RawExec {
    pub filename: RawBlobStr,
    pub interp: RawBlobStr,
    pub cgroup_id: u64,
    pub args: u64,
    pub env: u64,
}

/// The task as the probe saw it.
#[derive(Clone, Debug)]
pub struct RawTask {
    pub creds: RawCreds,
    pub pid: RawPid,
    pub parent: RawParent,
    pub session_id: u32,
    pub login_uid: u32,
    pub executable: RawExec,
    pub boot_ns: u64,
}

/// The header of a probe record.
#[derive(Clone, Copy, Debug)]
pub struct RawSignalHeader {
    pub version: u8,
    pub cpu_id: u16,
    pub submit_time_ns: u64,
}

/// A task record of the probe.
#[derive(Clone, Debug)]
pub struct RawSignalTask {
    pub header: RawSignalHeader,
    pub body: RawTask,
}

} // verus!
