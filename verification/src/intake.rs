//! The decisions taken on each task record that the probes emit: which
//! blobs it waits for, whether to wait for them longer, where each of its
//! strings comes from, and the message it becomes.
use vstd::prelude::*;
use crate::convert::{
    lemma_signal_task_message_fields, lossy_utf8, nul_position, pid_message, signal_task_message,
    slice_to_string,
};
use crate::keys::{task_key, HasKey};
use crate::proto::{
    LwCreds, LwParent, LwPid, empty_exec, empty_task, opt_text, ExecModel, LwExec, LwSignalTask, LwTask, SignalTaskModel,
    TaskModel,
};
use crate::raw::{RawBlob, RawBlobStr, RawSignalTask};

verus! {

/// How many blobs the cache of blobs holds at most.
pub const MAX_BLOB_CACHE_SIZE: u64 = 256;

/// How long, in nanoseconds, a task whose blobs have not all arrived is put
/// back to wait for them.
pub const MAX_TASK_BLOB_GAP_NS: u64 = 1_000_000_000;

/// Whether a record string was sent apart, as a blob to fetch.
pub open spec fn needs_blob(b: RawBlob) -> bool {
    b.flag == 0 && b.blob_id != 0
}

/// Whether a record string was sent apart, as a blob to fetch.
pub fn is_blob(b: &RawBlob) -> (r: bool)
    ensures
        r == needs_blob(*b),
{
    b.flag == 0 && b.blob_id != 0
}

/// `id` alone where `present`, else nothing.
pub open spec fn id_if(present: bool, id: u64) -> Seq<u64> {
    if present {
        seq![id]
    } else {
        Seq::empty()
    }
}

/// The blobs that a task record refers to, in the order in which they are
/// checked: the file name and the interpreter where they were sent apart,
/// then the arguments and the environment where their ids are not 0.
pub open spec fn pending_blobs(t: RawSignalTask) -> Seq<u64> {
    let e = t.body.executable;
    id_if(needs_blob(e.filename.blob), e.filename.blob.blob_id) + id_if(
        needs_blob(e.interp.blob),
        e.interp.blob.blob_id,
    ) + id_if(e.args != 0, e.args) + id_if(e.env != 0, e.env)
}

/// The blobs that a task record waits for before it is converted.
pub fn pending_blob_ids(task: &RawSignalTask) -> (ids: Vec<u64>)
    ensures
        ids@ == pending_blobs(*task),
{
    let e = &task.body.executable;
    let mut ids: Vec<u64> = Vec::new();
    if is_blob(&e.filename.blob) {
        ids.push(e.filename.blob.blob_id);
    }
    if is_blob(&e.interp.blob) {
        ids.push(e.interp.blob.blob_id);
    }
    if e.args != 0 {
        ids.push(e.args);
    }
    if e.env != 0 {
        ids.push(e.env);
    }
    assert(ids@ =~= pending_blobs(*task));
    ids
}

/// Whether every blob that a task record waits for is present, as `lookup`
/// reports it, asked of each pending blob in order up to the first reported
/// missing. A record that waits for no blob has all its blobs.
pub fn blobs_arrived<F: Fn(u64) -> bool>(task: &RawSignalTask, lookup: &F) -> (r: bool)
    requires
        forall|id: u64| call_requires(*lookup, (id,)),
    ensures
        pending_blobs(*task).len() == 0 ==> r,
        r ==> forall|i: int|
            0 <= i < pending_blobs(*task).len() ==> call_ensures(
                *lookup,
                (#[trigger] pending_blobs(*task)[i],),
                true,
            ),
        !r ==> exists|i: int|
            0 <= i < pending_blobs(*task).len() && (forall|j: int|
                0 <= j < i ==> call_ensures(*lookup, (#[trigger] pending_blobs(*task)[j],), true))
                && call_ensures(*lookup, (#[trigger] pending_blobs(*task)[i],), false),
{
    let ids = pending_blob_ids(task);
    let mut i: usize = 0;
    while i < ids.len()
        invariant
            i <= ids@.len(),
            ids@ == pending_blobs(*task),
            forall|id: u64| call_requires(*lookup, (id,)),
            forall|j: int| 0 <= j < i ==> call_ensures(*lookup, (#[trigger] ids@[j],), true),
        decreases ids@.len() - i,
    {
        let present = lookup(ids[i]);
        if !present {
            assert(call_ensures(*lookup, (ids@[i as int],), false));
            return false;
        }
        i += 1;
    }
    true
}

/// What to do with a task record.
#[derive(Clone, Copy, Debug, PartialEq, Eq, Structural)]
pub enum TaskRoute {
    /// Put it back in the queue, to wait for its blobs.
    Requeue,
    /// Convert it and send it on.
    Convert,
}

/// The route of a task record: back to the queue while some of its blobs
/// have not arrived and no more than `MAX_TASK_BLOB_GAP_NS` have passed;
/// else on to conversion, with whatever blobs there are.
pub open spec fn task_route(all_arrived: bool, elapsed_ns: u64) -> TaskRoute {
    if !all_arrived && elapsed_ns <= MAX_TASK_BLOB_GAP_NS {
        TaskRoute::Requeue
    } else {
        TaskRoute::Convert
    }
}

/// Decides what to do with a task record, given whether all its blobs have
/// arrived and how many nanoseconds have passed since it was submitted.
pub fn route_task(all_arrived: bool, elapsed_ns: u64) -> (r: TaskRoute)
    ensures
        r == task_route(all_arrived, elapsed_ns),
        r == TaskRoute::Requeue <==> !all_arrived && elapsed_ns as int <= MAX_TASK_BLOB_GAP_NS as int,
{
    if !all_arrived && elapsed_ns <= MAX_TASK_BLOB_GAP_NS {
        TaskRoute::Requeue
    } else {
        TaskRoute::Convert
    }
}

/// A task record goes back to the queue exactly while some of its blobs are
/// missing and no more than one second (`MAX_TASK_BLOB_GAP_NS`, 10^9 ns) has
/// passed, the elapsed time compared in full; at any later time, or once all
/// blobs are there, it is converted.
pub proof fn lemma_route_requeues_only_within_gap(all_arrived: bool, elapsed_ns: u64)
    ensures
        MAX_TASK_BLOB_GAP_NS == 1_000_000_000,
        task_route(all_arrived, elapsed_ns) == TaskRoute::Requeue <==> (!all_arrived
            && elapsed_ns as int <= 1_000_000_000),
        elapsed_ns as int > 1_000_000_000 ==> task_route(all_arrived, elapsed_ns)
            == TaskRoute::Convert,
        all_arrived ==> task_route(all_arrived, elapsed_ns) == TaskRoute::Convert,
{
}

/// Where a string of the message comes from.
#[derive(Debug)]
pub enum StrSource {
    /// From the blob with this id.
    Blob(u64),
    /// From the record itself: this text.
    Inline(String),
}

/// `s` is where the record string `b` comes from: the blob it names where it
/// was sent apart, else its inline NUL-terminated text.
pub open spec fn is_source_of(s: StrSource, b: RawBlobStr) -> bool {
    match s {
        StrSource::Blob(id) => needs_blob(b.blob) && id == b.blob.blob_id,
        StrSource::Inline(text) => !needs_blob(b.blob) && text@ == lossy_utf8(
            b.str_@.take(nul_position(b.str_@) as int),
        ),
    }
}

/// Where the record string `b` comes from.
pub fn string_source(b: &RawBlobStr) -> (s: StrSource)
    ensures
        is_source_of(s, *b),
{
    if is_blob(&b.blob) {
        StrSource::Blob(b.blob.blob_id)
    } else {
        StrSource::Inline(slice_to_string(b.str_.as_slice()))
    }
}

/// Where the strings of a task's message come from.
#[derive(Debug)]
pub struct BlobPlan {
    pub filename: StrSource,
    pub interp: StrSource,
    /// The blob of the arguments, if any.
    pub args: Option<u64>,
    /// The blob of the environment, if any.
    pub env: Option<u64>,
}

/// The blob id of a nonzero reference.
pub open spec fn nonzero_id(id: u64) -> Option<u64> {
    if id != 0 {
        Some(id)
    } else {
        None
    }
}

/// `p` is where the strings of task record `t` come from.
pub open spec fn is_plan_of(p: BlobPlan, t: RawSignalTask) -> bool {
    let e = t.body.executable;
    &&& is_source_of(p.filename, e.filename)
    &&& is_source_of(p.interp, e.interp)
    &&& p.args == nonzero_id(e.args)
    &&& p.env == nonzero_id(e.env)
}

/// Where the strings of the message of task record `task` come from.
pub fn blob_plan(task: &RawSignalTask) -> (p: BlobPlan)
    ensures
        is_plan_of(p, *task),
{
    let e = &task.body.executable;
    BlobPlan {
        filename: string_source(&e.filename),
        interp: string_source(&e.interp),
        args: if e.args != 0 {
            Some(e.args)
        } else {
            None
        },
        env: if e.env != 0 {
            Some(e.env)
        } else {
            None
        },
    }
}

/// The blob that a source is fetched from, if any.
pub open spec fn source_ids(s: StrSource) -> Seq<u64> {
    match s {
        StrSource::Blob(id) => seq![id],
        StrSource::Inline(_) => Seq::empty(),
    }
}

/// The blob of an optional reference, if any.
pub open spec fn opt_ids(id: Option<u64>) -> Seq<u64> {
    match id {
        Some(id) => seq![id],
        None => Seq::empty(),
    }
}

/// The blobs that a plan fetches, in order.
pub open spec fn planned_blobs(p: BlobPlan) -> Seq<u64> {
    source_ids(p.filename) + source_ids(p.interp) + opt_ids(p.args) + opt_ids(p.env)
}

/// The blobs that converting a task record fetches are exactly the blobs
/// that it waits for, in the same order.
pub proof fn lemma_plan_fetches_pending(p: BlobPlan, t: RawSignalTask)
    requires
        is_plan_of(p, t),
    ensures
        planned_blobs(p) == pending_blobs(t),
{
    let e = t.body.executable;
    assert(source_ids(p.filename) == id_if(needs_blob(e.filename.blob), e.filename.blob.blob_id));
    assert(source_ids(p.interp) == id_if(needs_blob(e.interp.blob), e.interp.blob.blob_id));
    assert(opt_ids(p.args) == id_if(e.args != 0, e.args));
    assert(opt_ids(p.env) == id_if(e.env != 0, e.env));
}

/// The task signal with the four strings of its executable replaced, where
/// a missing task or executable is first put in as an empty one.
pub open spec fn with_exec_strings(
    m: SignalTaskModel,
    filename: Option<Seq<char>>,
    interp: Option<Seq<char>>,
    args: Option<Seq<char>>,
    env: Option<Seq<char>>,
) -> SignalTaskModel {
    let body = match m.body {
        Some(b) => b,
        None => empty_task(),
    };
    let exec = match body.executable {
        Some(x) => x,
        None => empty_exec(),
    };
    SignalTaskModel {
        body: Some(
            TaskModel {
                executable: Some(ExecModel { filename, interp, args, env, ..exec }),
                ..body
            },
        ),
        ..m
    }
}

/// Replaces the four strings of the executable of `task`.
pub fn set_exec_strings(
    task: LwSignalTask,
    filename: Option<String>,
    interp: Option<String>,
    args: Option<String>,
    env: Option<String>,
) -> (t: LwSignalTask)
    ensures
        t@ == with_exec_strings(
            task@,
            opt_text(filename),
            opt_text(interp),
            opt_text(args),
            opt_text(env),
        ),
{
    let LwSignalTask { header, body } = task;
    let mut body = match body {
        Some(b) => b,
        None => LwTask::default(),
    };
    let mut exec = match body.executable.take() {
        Some(x) => x,
        None => LwExec::default(),
    };
    exec.filename = filename;
    exec.interp = interp;
    exec.args = args;
    exec.env = env;
    body.executable = Some(exec);
    LwSignalTask { header, body: Some(body) }
}

/// The message of a task record, with the strings of its executable as they
/// were fetched or read.
pub fn assemble_task(
    raw: RawSignalTask,
    filename: Option<String>,
    interp: Option<String>,
    args: Option<String>,
    env: Option<String>,
) -> (t: LwSignalTask)
    ensures
        t@ == with_exec_strings(
            signal_task_message(raw),
            opt_text(filename),
            opt_text(interp),
            opt_text(args),
            opt_text(env),
        ),
{
    let task = LwSignalTask::from_raw(raw);
    set_exec_strings(task, filename, interp, args, env)
}

/// Every task signal made from a probe record has a key: the boot time and
/// pid of the record's task.
pub proof fn lemma_assembled_task_has_key(
    t: LwSignalTask,
    raw: RawSignalTask,
    filename: Option<Seq<char>>,
    interp: Option<Seq<char>>,
    args: Option<Seq<char>>,
    env: Option<Seq<char>>,
)
    requires
        t@ == with_exec_strings(signal_task_message(raw), filename, interp, args, env),
    ensures
        t.key_text() == Some(task_key(raw.body.boot_ns, raw.body.pid.pid)),
{
    assert(t.body is Some);
    assert(t.body.unwrap().pid == Some(pid_message(raw.body.pid)));
    assert(t.body.unwrap().boot_ns == raw.body.boot_ns);
}

/// Replacing the strings of the executable changes nothing else: the
/// header, and every part of the task but the four strings, stay as they
/// were (a missing task or executable counts as an empty one), and the four
/// strings are exactly the given ones.
pub proof fn lemma_exec_strings_replace_only_strings(
    m: SignalTaskModel,
    filename: Option<Seq<char>>,
    interp: Option<Seq<char>>,
    args: Option<Seq<char>>,
    env: Option<Seq<char>>,
)
    ensures
        ({
            let r = with_exec_strings(m, filename, interp, args, env);
            let t = r.body.unwrap();
            let e = t.executable.unwrap();
            &&& r.header == m.header
            &&& r.body is Some
            &&& t.executable is Some
            &&& e.filename == filename
            &&& e.interp == interp
            &&& e.args == args
            &&& e.env == env
            &&& m.body matches Some(old) ==> {
                &&& t.creds == old.creds
                &&& t.pid == old.pid
                &&& t.parent == old.parent
                &&& t.session_id == old.session_id
                &&& t.login_uid == old.login_uid
                &&& t.boot_ns == old.boot_ns
                &&& t.container_id == old.container_id
                &&& e.cgroup_id == (match old.executable {
                    Some(x) => x.cgroup_id,
                    None => 0,
                })
            }
            &&& m.body is None ==> {
                &&& t.creds is None
                &&& t.pid is None
                &&& t.parent is None
                &&& t.session_id == 0
                &&& t.login_uid == 0
                &&& t.boot_ns == 0
                &&& t.container_id is None
                &&& e.cgroup_id == 0
            }
        }),
{
}

/// The message assembled from a probe record carries every number of the
/// record as it is, and the four strings as they were fetched or read.
pub proof fn lemma_assembled_task_fields(
    raw: RawSignalTask,
    filename: Option<Seq<char>>,
    interp: Option<Seq<char>>,
    args: Option<Seq<char>>,
    env: Option<Seq<char>>,
)
    ensures
        ({
            let r = with_exec_strings(signal_task_message(raw), filename, interp, args, env);
            let h = r.header.unwrap();
            let t = r.body.unwrap();
            let e = t.executable.unwrap();
            &&& r.header is Some
            &&& h.version == raw.header.version
            &&& h.cpu_id == raw.header.cpu_id
            &&& h.submit_time_ns == raw.header.submit_time_ns
            &&& r.body is Some
            &&& t.creds == Some(
                LwCreds {
                    uid: raw.body.creds.uid,
                    gid: raw.body.creds.gid,
                    euid: raw.body.creds.euid,
                    egid: raw.body.creds.egid,
                },
            )
            &&& t.pid == Some(
                LwPid {
                    pid: raw.body.pid.pid,
                    tgid: raw.body.pid.tgid,
                    pid_ns: raw.body.pid.pid_ns,
                    pid_vnr: raw.body.pid.pid_vnr,
                },
            )
            &&& t.parent == Some(
                LwParent {
                    pid: raw.body.parent.pid,
                    tgid: raw.body.parent.tgid,
                    boot_ns: raw.body.parent.boot_ns,
                },
            )
            &&& t.session_id == raw.body.session_id
            &&& t.login_uid == raw.body.login_uid
            &&& t.boot_ns == raw.body.boot_ns
            &&& t.container_id is None
            &&& t.executable is Some
            &&& e.cgroup_id == raw.body.executable.cgroup_id
            &&& e.filename == filename
            &&& e.interp == interp
            &&& e.args == args
            &&& e.env == env
        }),
{
    lemma_signal_task_message_fields(raw);
    lemma_exec_strings_replace_only_strings(signal_task_message(raw), filename, interp, args, env);
}

} // verus!
