//! Turning the probe records into signal messages.
use vstd::prelude::*;
use vstd::slice::slice_subrange;
use vstd::utf8::{decode_utf8, valid_utf8};
use vstd::std_specs::convert::FromSpecImpl;
use crate::proto::{
    opt_text, ExecModel, LwCreds, LwExec, LwParent, LwPid, LwSignalHeader, LwSignalTask,
    LwSignalType, LwTask, SignalTaskModel, TaskModel,
};
use crate::raw::{
    RawBlobStr, RawCreds, RawExec, RawParent, RawPid, RawSignalHeader, RawSignalTask, RawTask,
};

verus! {

/// The characters that `String::from_utf8_lossy` makes of `bytes`.
pub uninterp spec fn lossy_utf8(bytes: Seq<u8>) -> Seq<char>;

/// Calls `String::from_utf8_lossy` and takes the string it returns as owned.
/// Trusted, not proved: the result is `lossy_utf8` of the bytes, and, as the
/// std documentation promises, it is exactly their UTF-8 decoding where the
/// bytes are valid UTF-8. What it makes of invalid sequences is left unsaid.
#[verifier::external_body]
pub(crate) fn string_from_utf8_lossy(bytes: &[u8]) -> (s: String)
    ensures
        s@ == lossy_utf8(bytes@),
        valid_utf8(bytes@) ==> s@ == decode_utf8(bytes@),
{
    String::from_utf8_lossy(bytes).into_owned()
}

/// The number of bytes before the first NUL byte (all of them where there is none).
pub open spec fn nul_position(bytes: Seq<u8>) -> nat
    decreases bytes.len(),
{
    if bytes.len() == 0 || bytes[0] == 0 {
        0
    } else {
        1 + nul_position(bytes.drop_first())
    }
}

/// `nul_position` is the index of the first NUL byte, or the length where
/// there is none: no byte before it is NUL, and the byte at it is.
pub proof fn lemma_nul_position(bytes: Seq<u8>)
    ensures
        nul_position(bytes) <= bytes.len(),
        forall|j: int| 0 <= j < nul_position(bytes) ==> bytes[j] != 0,
        nul_position(bytes) < bytes.len() ==> bytes[nul_position(bytes) as int] == 0,
    decreases bytes.len(),
{
    if bytes.len() > 0 && bytes[0] != 0 {
        lemma_nul_position(bytes.drop_first());
        assert forall|j: int| 0 <= j < nul_position(bytes) implies bytes[j] != 0 by {
            if j > 0 {
                assert(bytes[j] == bytes.drop_first()[j - 1]);
            }
        }
    }
}

proof fn lemma_nul_position_at(bytes: Seq<u8>, i: int)
    requires
        0 <= i <= bytes.len(),
        forall|j: int| 0 <= j < i ==> bytes[j] != 0,
        i == bytes.len() || bytes[i] == 0,
    ensures
        nul_position(bytes) == i,
    decreases i,
{
    if i > 0 {
        assert forall|j: int| 0 <= j < i - 1 implies bytes.drop_first()[j] != 0 by {
            assert(bytes.drop_first()[j] == bytes[j + 1]);
        }
        lemma_nul_position_at(bytes.drop_first(), i - 1);
    }
}

/// The text of a NUL-terminated buffer: the bytes before the first NUL,
/// decoded as `String::from_utf8_lossy` decodes them.
pub fn slice_to_string(slice: &[u8]) -> (s: String)
    ensures
        s@ == lossy_utf8(slice@.take(nul_position(slice@) as int)),
        valid_utf8(slice@.take(nul_position(slice@) as int)) ==> s@ == decode_utf8(
            slice@.take(nul_position(slice@) as int),
        ),
{
    let mut i: usize = 0;
    while i < slice.len() && slice[i] != 0
        invariant
            i <= slice@.len(),
            forall|j: int| 0 <= j < i ==> slice@[j] != 0,
        decreases slice@.len() - i,
    {
        i += 1;
    }
    proof {
        lemma_nul_position_at(slice@, i as int);
    }
    let text = slice_subrange(slice, 0, i);
    assert(text@ =~= slice@.take(i as int));
    string_from_utf8_lossy(text)
}

/// The number of inline bytes that the record's string conversion reads:
/// the first byte alone where the buffer starts with a byte other than NUL.
pub open spec fn inline_text_len(bytes: Seq<u8>) -> nat {
    if bytes.len() > 0 && bytes[0] != 0 {
        1
    } else {
        0
    }
}

/// The text that a record's string gives its message: none when the
/// blob flag is set; else the decoding of the leading inline bytes.
pub open spec fn blob_str_text(b: RawBlobStr) -> Option<Seq<char>> {
    if b.blob.flag == 0 {
        Some(lossy_utf8(b.str_@.take(inline_text_len(b.str_@) as int)))
    } else {
        None
    }
}

fn convert_lwblob_str(blobstr: &RawBlobStr) -> (s: Option<String>)
    ensures
        opt_text(s) == blob_str_text(*blobstr),
{
    if blobstr.blob.flag == 0 {
        let mut i: usize = 0;
        if i < blobstr.str_.len() && blobstr.str_[i] != 0 {
            i += 1;
        }
        let text = slice_subrange(blobstr.str_.as_slice(), 0, i);
        assert(text@ =~= blobstr.str_@.take(i as int));
        return Some(string_from_utf8_lossy(text));
    }
    None
}

/// The credentials of a probe record, field for field.
pub open spec fn creds_message(c: RawCreds) -> LwCreds {
    LwCreds { uid: c.uid, gid: c.gid, euid: c.euid, egid: c.egid }
}

impl FromSpecImpl<RawCreds> for LwCreds {
    open spec fn obeys_from_spec() -> bool {
        true
    }

    open spec fn from_spec(c: RawCreds) -> LwCreds {
        creds_message(c)
    }
}

impl From<RawCreds> for LwCreds {
    fn from(c_creds: RawCreds) -> (c: LwCreds)
        ensures
            c.uid == c_creds.uid,
            c.gid == c_creds.gid,
            c.euid == c_creds.euid,
            c.egid == c_creds.egid,
    {
        LwCreds { uid: c_creds.uid, gid: c_creds.gid, euid: c_creds.euid, egid: c_creds.egid }
    }
}

/// The process ids of a probe record, field for field.
pub open spec fn pid_message(p: RawPid) -> LwPid {
    LwPid { pid: p.pid, tgid: p.tgid, pid_ns: p.pid_ns, pid_vnr: p.pid_vnr }
}

impl FromSpecImpl<RawPid> for LwPid {
    open spec fn obeys_from_spec() -> bool {
        true
    }

    open spec fn from_spec(p: RawPid) -> LwPid {
        pid_message(p)
    }
}

impl From<RawPid> for LwPid {
    fn from(c_pid: RawPid) -> (p: LwPid)
        ensures
            p.pid == c_pid.pid,
            p.tgid == c_pid.tgid,
            p.pid_ns == c_pid.pid_ns,
            p.pid_vnr == c_pid.pid_vnr,
    {
        LwPid { pid: c_pid.pid, tgid: c_pid.tgid, pid_ns: c_pid.pid_ns, pid_vnr: c_pid.pid_vnr }
    }
}

/// The parent of a probe record, field for field.
pub open spec fn parent_message(p: RawParent) -> LwParent {
    LwParent { pid: p.pid, tgid: p.tgid, boot_ns: p.boot_ns }
}

impl FromSpecImpl<RawParent> for LwParent {
    open spec fn obeys_from_spec() -> bool {
        true
    }

    open spec fn from_spec(p: RawParent) -> LwParent {
        parent_message(p)
    }
}

impl From<RawParent> for LwParent {
    fn from(c_parent: RawParent) -> (p: LwParent)
        ensures
            p.pid == c_parent.pid,
            p.tgid == c_parent.tgid,
            p.boot_ns == c_parent.boot_ns,
    {
        LwParent { pid: c_parent.pid, tgid: c_parent.tgid, boot_ns: c_parent.boot_ns }
    }
}

/// The header of a probe record: its numbers widened, and the kind of a task signal.
pub open spec fn header_message(h: RawSignalHeader) -> LwSignalHeader {
    LwSignalHeader {
        version: h.version as u32,
        signal_type: LwSignalType::LwSignalTask.spec_code(),
        cpu_id: h.cpu_id as u32,
        submit_time_ns: h.submit_time_ns,
    }
}

impl FromSpecImpl<RawSignalHeader> for LwSignalHeader {
    open spec fn obeys_from_spec() -> bool {
        true
    }

    open spec fn from_spec(h: RawSignalHeader) -> LwSignalHeader {
        header_message(h)
    }
}

impl From<RawSignalHeader> for LwSignalHeader {
    fn from(c_signal_header: RawSignalHeader) -> (h: LwSignalHeader)
        ensures
            h.version == c_signal_header.version,
            h.signal_type == 0,
            h.cpu_id == c_signal_header.cpu_id,
            h.submit_time_ns == c_signal_header.submit_time_ns,
    {
        LwSignalHeader {
            version: c_signal_header.version as u32,
            signal_type: LwSignalType::LwSignalTask.code(),
            cpu_id: c_signal_header.cpu_id as u32,
            submit_time_ns: c_signal_header.submit_time_ns,
        }
    }
}

/// The executable of a probe record: its two inline strings read as
/// `blob_str_text` reads them, its cgroup id, and no arguments or environment.
pub open spec fn exec_message(c: RawExec) -> ExecModel {
    ExecModel {
        filename: blob_str_text(c.filename),
        interp: blob_str_text(c.interp),
        cgroup_id: c.cgroup_id,
        args: None,
        env: None,
    }
}

/// The task of a probe record, every part present, with no container id.
pub open spec fn task_message(c: RawTask) -> TaskModel {
    TaskModel {
        creds: Some(creds_message(c.creds)),
        pid: Some(pid_message(c.pid)),
        parent: Some(parent_message(c.parent)),
        session_id: c.session_id,
        login_uid: c.login_uid,
        executable: Some(exec_message(c.executable)),
        boot_ns: c.boot_ns,
        container_id: None,
    }
}

/// The task signal of a probe record, header and body present.
pub open spec fn signal_task_message(c: RawSignalTask) -> SignalTaskModel {
    SignalTaskModel { header: Some(header_message(c.header)), body: Some(task_message(c.body)) }
}

impl LwExec {
    /// The executable of a probe record.
    pub fn from_raw(c_exec: RawExec) -> (e: LwExec)
        ensures
            e@ == exec_message(c_exec),
    {
        LwExec {
            filename: convert_lwblob_str(&c_exec.filename),
            interp: convert_lwblob_str(&c_exec.interp),
            cgroup_id: c_exec.cgroup_id,
            args: None,
            env: None,
        }
    }
}

impl LwTask {
    /// The task of a probe record.
    pub fn from_raw(c_task: RawTask) -> (t: LwTask)
        ensures
            t@ == task_message(c_task),
    {
        LwTask {
            creds: Some(LwCreds::from(c_task.creds)),
            pid: Some(LwPid::from(c_task.pid)),
            parent: Some(LwParent::from(c_task.parent)),
            session_id: c_task.session_id,
            login_uid: c_task.login_uid,
            executable: Some(LwExec::from_raw(c_task.executable)),
            boot_ns: c_task.boot_ns,
            container_id: None,
        }
    }
}

impl LwSignalTask {
    /// The task signal of a probe record.
    pub fn from_raw(c_signal_task: RawSignalTask) -> (t: LwSignalTask)
        ensures
            t@ == signal_task_message(c_signal_task),
    {
        LwSignalTask {
            header: Some(LwSignalHeader::from(c_signal_task.header)),
            body: Some(LwTask::from_raw(c_signal_task.body)),
        }
    }
}

/// Converting credentials keeps every id as it is.
pub proof fn lemma_creds_message_fields(c: RawCreds)
    ensures
        creds_message(c).uid == c.uid,
        creds_message(c).gid == c.gid,
        creds_message(c).euid == c.euid,
        creds_message(c).egid == c.egid,
{
}

/// Converting process ids keeps every id as it is.
pub proof fn lemma_pid_message_fields(p: RawPid)
    ensures
        pid_message(p).pid == p.pid,
        pid_message(p).tgid == p.tgid,
        pid_message(p).pid_ns == p.pid_ns,
        pid_message(p).pid_vnr == p.pid_vnr,
{
}

/// Converting the parent keeps its ids and its full 64-bit boot time.
pub proof fn lemma_parent_message_fields(p: RawParent)
    ensures
        parent_message(p).pid == p.pid,
        parent_message(p).tgid == p.tgid,
        parent_message(p).boot_ns == p.boot_ns,
{
}

/// Converting a header keeps the version, the cpu and the full 64-bit
/// submission time as numbers, and marks the signal as a task signal (0).
pub proof fn lemma_header_message_fields(h: RawSignalHeader)
    ensures
        header_message(h).version == h.version,
        header_message(h).signal_type == 0,
        header_message(h).cpu_id == h.cpu_id,
        header_message(h).submit_time_ns == h.submit_time_ns,
{
}

/// The message of a probe record carries every number of the record as it
/// is: the header, the credentials, the process ids, the parent, the session,
/// the login uid, the boot time and the cgroup id; it has no container id,
/// arguments or environment yet.
pub proof fn lemma_signal_task_message_fields(c: RawSignalTask)
    ensures
        ({
            let m = signal_task_message(c);
            let t = m.body.unwrap();
            let e = t.executable.unwrap();
            &&& m.header is Some
            &&& m.header.unwrap().version == c.header.version
            &&& m.header.unwrap().signal_type == 0
            &&& m.header.unwrap().cpu_id == c.header.cpu_id
            &&& m.header.unwrap().submit_time_ns == c.header.submit_time_ns
            &&& m.body is Some
            &&& t.creds == Some(
                LwCreds {
                    uid: c.body.creds.uid,
                    gid: c.body.creds.gid,
                    euid: c.body.creds.euid,
                    egid: c.body.creds.egid,
                },
            )
            &&& t.pid == Some(
                LwPid {
                    pid: c.body.pid.pid,
                    tgid: c.body.pid.tgid,
                    pid_ns: c.body.pid.pid_ns,
                    pid_vnr: c.body.pid.pid_vnr,
                },
            )
            &&& t.parent == Some(
                LwParent {
                    pid: c.body.parent.pid,
                    tgid: c.body.parent.tgid,
                    boot_ns: c.body.parent.boot_ns,
                },
            )
            &&& t.session_id == c.body.session_id
            &&& t.login_uid == c.body.login_uid
            &&& t.boot_ns == c.body.boot_ns
            &&& t.container_id is None
            &&& t.executable is Some
            &&& e.cgroup_id == c.body.executable.cgroup_id
            &&& e.filename == blob_str_text(c.body.executable.filename)
            &&& e.interp == blob_str_text(c.body.executable.interp)
            &&& e.args is None
            &&& e.env is None
        }),
{
}

} // verus!
