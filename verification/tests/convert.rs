use lw_watcher::convert::slice_to_string;
use lw_watcher::proto::{LwCreds, LwExec, LwParent, LwPid, LwSignalHeader, LwSignalTask, LwTask};
use lw_watcher::raw::{
    RawBlob, RawBlobStr, RawCreds, RawExec, RawParent, RawPid, RawSignalHeader, RawSignalTask,
    RawTask,
};

fn inline(text: &[u8]) -> RawBlobStr {
    RawBlobStr { blob: RawBlob { flag: 0, blob_id: 0 }, str_: text.to_vec() }
}

fn apart(id: u64) -> RawBlobStr {
    RawBlobStr { blob: RawBlob { flag: 1, blob_id: id }, str_: vec![0; 8] }
}

fn raw_task() -> RawSignalTask {
    RawSignalTask {
        header: RawSignalHeader { version: 2, cpu_id: 300, submit_time_ns: 99 },
        body: RawTask {
            creds: RawCreds { uid: 1, gid: 2, euid: 3, egid: 4 },
            pid: RawPid { pid: 10, tgid: 11, pid_ns: 12, pid_vnr: 13 },
            parent: RawParent { pid: 20, tgid: 21, boot_ns: 22 },
            session_id: 30,
            login_uid: 31,
            executable: RawExec {
                filename: inline(b"bash\0\0\0"),
                interp: apart(77),
                cgroup_id: 40,
                args: 5,
                env: 0,
            },
            boot_ns: 50,
        },
    }
}

#[test]
fn slice_to_string_stops_at_first_nul() {
    assert_eq!(slice_to_string(b"hello\0world\0"), "hello");
}

#[test]
fn slice_to_string_without_nul_takes_all() {
    assert_eq!(slice_to_string(b"abc"), "abc");
}

#[test]
fn slice_to_string_of_leading_nul_is_empty() {
    assert_eq!(slice_to_string(b"\0abc"), "");
    assert_eq!(slice_to_string(b""), "");
}

#[test]
fn slice_to_string_decodes_utf8() {
    assert_eq!(slice_to_string("héllo\0x".as_bytes()), "héllo");
}

#[test]
fn slice_to_string_replaces_invalid_utf8() {
    assert_eq!(slice_to_string(&[0x66, 0xff, 0x6f, 0x00, 0x41]), "f\u{fffd}o");
}

#[test]
fn creds_convert_field_for_field() {
    let c = LwCreds::from(RawCreds { uid: 1000, gid: 100, euid: 0, egid: 7 });
    assert_eq!(c, LwCreds { uid: 1000, gid: 100, euid: 0, egid: 7 });
}

#[test]
fn pid_and_parent_convert_field_for_field() {
    let p = LwPid::from(RawPid { pid: 4, tgid: 5, pid_ns: 6, pid_vnr: 7 });
    assert_eq!(p, LwPid { pid: 4, tgid: 5, pid_ns: 6, pid_vnr: 7 });
    let q = LwParent::from(RawParent { pid: 1, tgid: 1, boot_ns: 123456789 });
    assert_eq!(q, LwParent { pid: 1, tgid: 1, boot_ns: 123456789 });
}

#[test]
fn header_widens_and_marks_a_task_signal() {
    let h = LwSignalHeader::from(RawSignalHeader { version: 255, cpu_id: 65535, submit_time_ns: 42 });
    assert_eq!(h, LwSignalHeader { version: 255, signal_type: 0, cpu_id: 65535, submit_time_ns: 42 });
}

#[test]
fn exec_reads_inline_strings_and_leaves_blobs_out() {
    let e = LwExec::from_raw(raw_task().body.executable);
    assert_eq!(e.filename.as_deref(), Some("b"));
    assert_eq!(e.interp, None);
    assert_eq!(e.cgroup_id, 40);
    assert_eq!(e.args, None);
    assert_eq!(e.env, None);
}

#[test]
fn exec_inline_string_starting_with_nul_is_empty() {
    let mut raw = raw_task().body.executable;
    raw.filename = inline(b"\0abc");
    raw.interp = inline(b"");
    let e = LwExec::from_raw(raw);
    assert_eq!(e.filename.as_deref(), Some(""));
    assert_eq!(e.interp.as_deref(), Some(""));
}

#[test]
fn task_converts_every_part() {
    let t = LwTask::from_raw(raw_task().body);
    assert_eq!(t.creds, Some(LwCreds { uid: 1, gid: 2, euid: 3, egid: 4 }));
    assert_eq!(t.pid, Some(LwPid { pid: 10, tgid: 11, pid_ns: 12, pid_vnr: 13 }));
    assert_eq!(t.parent, Some(LwParent { pid: 20, tgid: 21, boot_ns: 22 }));
    assert_eq!(t.session_id, 30);
    assert_eq!(t.login_uid, 31);
    assert_eq!(t.boot_ns, 50);
    assert_eq!(t.container_id, None);
    assert_eq!(t.executable.unwrap().cgroup_id, 40);
}

#[test]
fn signal_task_has_header_and_body() {
    let s = LwSignalTask::from_raw(raw_task());
    assert_eq!(
        s.header,
        Some(LwSignalHeader { version: 2, signal_type: 0, cpu_id: 300, submit_time_ns: 99 })
    );
    assert_eq!(s.body.unwrap().boot_ns, 50);
}

#[test]
fn defaults_are_empty() {
    let t = LwTask::default();
    assert_eq!(t.boot_ns, 0);
    assert_eq!(t.session_id, 0);
    assert!(t.creds.is_none() && t.pid.is_none() && t.executable.is_none());
    let s = LwSignalTask::default();
    assert!(s.header.is_none() && s.body.is_none());
    assert_eq!(LwCreds::default(), LwCreds { uid: 0, gid: 0, euid: 0, egid: 0 });
}
