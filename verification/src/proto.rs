//! The signal messages that the watcher hands on: a task signal made of a
//! header and a task body, with the credentials, process ids, parent and
//! executable of the task.
use vstd::prelude::*;

verus! {

/// The kind of a signal, as carried in `LwSignalHeader::signal_type`.
#[derive(Clone, Copy, Debug, PartialEq, Eq, Structural)]
pub enum LwSignalType {
    LwSignalTask,
}

impl LwSignalType {
    /// The wire number of the kind.
    pub open spec fn spec_code(self) -> i32 {
        match self {
            LwSignalType::LwSignalTask => 0,
        }
    }

    /// The wire number of the kind.
    pub fn code(self) -> (c: i32)
        ensures
            c == self.spec_code(),
    {
        match self {
            LwSignalType::LwSignalTask => 0,
        }
    }
}

/// User and group ids of a task.
#[derive(Clone, Copy, Debug, PartialEq, Eq, Structural)]
pub struct LwCreds {
    pub uid: u32,
    pub gid: u32,
    pub euid: u32,
    pub egid: u32,
}

/// Process ids of a task.
#[derive(Clone, Copy, Debug, PartialEq, Eq, Structural)]
pub struct LwPid {
    pub pid: u32,
    pub tgid: u32,
    pub pid_ns: u32,
    pub pid_vnr: u32,
}

/// The parent of a task.
#[derive(Clone, Copy, Debug, PartialEq, Eq, Structural)]
pub struct LwParent {
    pub pid: u32,
    pub tgid: u32,
    pub boot_ns: u64,
}

/// The header of a signal.
#[derive(Clone, Copy, Debug, PartialEq, Eq, Structural)]
pub struct LwSignalHeader {
    pub version: u32,
    pub signal_type: i32,
    pub cpu_id: u32,
    pub submit_time_ns: u64,
}

/// The executable that a task runs.
#[derive(Clone, Debug)]
pub struct LwExec {
    pub filename: Option<String>,
    pub interp: Option<String>,
    pub cgroup_id: u64,
    pub args: Option<String>,
    pub env: Option<String>,
}

/// A task: who runs it, which process it is, and what it executes.
#[derive(Clone, Debug)]
pub struct LwTask {
    pub creds: Option<LwCreds>,
    pub pid: Option<LwPid>,
    pub parent: Option<LwParent>,
    pub session_id: u32,
    pub login_uid: u32,
    pub executable: Option<LwExec>,
    pub boot_ns: u64,
    pub container_id: Option<String>,
}

/// A task signal: its header and its task.
#[derive(Clone, Debug)]
pub struct LwSignalTask {
    pub header: Option<LwSignalHeader>,
    pub body: Option<LwTask>,
}

/// The characters of an optional string.
pub open spec fn opt_text(s: Option<String>) -> Option<Seq<char>> {
    match s {
        Some(s) => Some(s@),
        None => None,
    }
}

/// What an `LwExec` holds, with its strings taken as characters.
pub struct ExecModel {
    pub filename: Option<Seq<char>>,
    pub interp: Option<Seq<char>>,
    pub cgroup_id: u64,
    pub args: Option<Seq<char>>,
    pub env: Option<Seq<char>>,
}

/// What an `LwTask` holds, with its strings taken as characters.
pub struct TaskModel {
    pub creds: Option<LwCreds>,
    pub pid: Option<LwPid>,
    pub parent: Option<LwParent>,
    pub session_id: u32,
    pub login_uid: u32,
    pub executable: Option<ExecModel>,
    pub boot_ns: u64,
    pub container_id: Option<Seq<char>>,
}

/// What an `LwSignalTask` holds, with its strings taken as characters.
pub struct SignalTaskModel {
    pub header: Option<LwSignalHeader>,
    pub body: Option<TaskModel>,
}

impl View for LwExec {
    type V = ExecModel;

    open spec fn view(&self) -> ExecModel {
        ExecModel {
            filename: opt_text(self.filename),
            interp: opt_text(self.interp),
            cgroup_id: self.cgroup_id,
            args: opt_text(self.args),
            env: opt_text(self.env),
        }
    }
}

/// The model of an optional executable.
pub open spec fn opt_exec(e: Option<LwExec>) -> Option<ExecModel> {
    match e {
        Some(e) => Some(e@),
        None => None,
    }
}

impl View for LwTask {
    type V = TaskModel;

    open spec fn view(&self) -> TaskModel {
        TaskModel {
            creds: self.creds,
            pid: self.pid,
            parent: self.parent,
            session_id: self.session_id,
            login_uid: self.login_uid,
            executable: opt_exec(self.executable),
            boot_ns: self.boot_ns,
            container_id: opt_text(self.container_id),
        }
    }
}

/// The model of an optional task.
pub open spec fn opt_task(t: Option<LwTask>) -> Option<TaskModel> {
    match t {
        Some(t) => Some(t@),
        None => None,
    }
}

impl View for LwSignalTask {
    type V = SignalTaskModel;

    open spec fn view(&self) -> SignalTaskModel {
        SignalTaskModel { header: self.header, body: opt_task(self.body) }
    }
}

/// The executable with nothing set.
pub open spec fn empty_exec() -> ExecModel {
    ExecModel { filename: None, interp: None, cgroup_id: 0, args: None, env: None }
}

/// The task with nothing set.
pub open spec fn empty_task() -> TaskModel {
    TaskModel {
        creds: None,
        pid: None,
        parent: None,
        session_id: 0,
        login_uid: 0,
        executable: None,
        boot_ns: 0,
        container_id: None,
    }
}

/// The task signal with nothing set.
pub open spec fn empty_signal_task() -> SignalTaskModel {
    SignalTaskModel { header: None, body: None }
}

impl Default for LwCreds {
    fn default() -> (c: Self)
        ensures
            c == (LwCreds { uid: 0, gid: 0, euid: 0, egid: 0 }),
    {
        LwCreds { uid: 0, gid: 0, euid: 0, egid: 0 }
    }
}

impl Default for LwPid {
    fn default() -> (p: Self)
        ensures
            p == (LwPid { pid: 0, tgid: 0, pid_ns: 0, pid_vnr: 0 }),
    {
        LwPid { pid: 0, tgid: 0, pid_ns: 0, pid_vnr: 0 }
    }
}

impl Default for LwParent {
    fn default() -> (p: Self)
        ensures
            p == (LwParent { pid: 0, tgid: 0, boot_ns: 0 }),
    {
        LwParent { pid: 0, tgid: 0, boot_ns: 0 }
    }
}

impl Default for LwSignalHeader {
    fn default() -> (h: Self)
        ensures
            h == (LwSignalHeader { version: 0, signal_type: 0, cpu_id: 0, submit_time_ns: 0 }),
    {
        LwSignalHeader { version: 0, signal_type: 0, cpu_id: 0, submit_time_ns: 0 }
    }
}

impl Default for LwExec {
    fn default() -> (e: Self)
        ensures
            e@ == empty_exec(),
    {
        LwExec { filename: None, interp: None, cgroup_id: 0, args: None, env: None }
    }
}

impl Default for LwTask {
    fn default() -> (t: Self)
        ensures
            t@ == empty_task(),
    {
        LwTask {
            creds: None,
            pid: None,
            parent: None,
            session_id: 0,
            login_uid: 0,
            executable: None,
            boot_ns: 0,
            container_id: None,
        }
    }
}

impl Default for LwSignalTask {
    fn default() -> (t: Self)
        ensures
            t@ == empty_signal_task(),
    {
        LwSignalTask { header: None, body: None }
    }
}

} // verus!
