use lw_watcher::cgroup::{handle_cgroup, is_container, task_cgroup_id, CgroupAncestor};
use lw_watcher::keys::HasKey;
use lw_watcher::proto::{LwExec, LwPid, LwSignalHeader, LwSignalTask, LwTask};

fn task_in(cgroup_id: u64) -> LwSignalTask {
    let mut exec = LwExec::default();
    exec.cgroup_id = cgroup_id;
    let mut body = LwTask::default();
    body.executable = Some(exec);
    body.boot_ns = 8;
    LwSignalTask { header: None, body: Some(body) }
}

fn ancestor(id: u64, name: &str) -> CgroupAncestor {
    CgroupAncestor { id, name: name.as_bytes().to_vec() }
}

fn container_of(t: &LwSignalTask) -> Option<String> {
    t.body.as_ref().unwrap().container_id.clone()
}

#[test]
fn container_names_start_with_the_prefix() {
    assert!(is_container("cri-containerd-0123abcd.scope"));
    assert!(is_container("cri-containerd-"));
    assert!(!is_container("cri-containerd"));
    assert!(!is_container(""));
    assert!(!is_container("docker-0123.scope"));
    assert!(!is_container("xcri-containerd-0123"));
}

#[test]
fn cgroup_id_is_read_from_the_executable() {
    assert_eq!(task_cgroup_id(&task_in(77)), 77);
    assert_eq!(task_cgroup_id(&LwSignalTask::default()), 0);
    let mut no_exec = task_in(5);
    no_exec.body.as_mut().unwrap().executable = None;
    assert_eq!(task_cgroup_id(&no_exec), 0);
}

#[test]
fn last_container_before_the_end_marker_wins() {
    let ancestors = vec![
        ancestor(9, "system.slice"),
        ancestor(8, "cri-containerd-aaa.scope"),
        ancestor(7, "kubepods.slice"),
        ancestor(6, "cri-containerd-bbb.scope"),
        ancestor(0, "cri-containerd-ccc.scope"),
        ancestor(5, "cri-containerd-ddd.scope"),
    ];
    let out = handle_cgroup(task_in(9), Some(ancestors));
    assert_eq!(container_of(&out).as_deref(), Some("cri-containerd-bbb.scope"));
    assert_eq!(out.body.unwrap().boot_ns, 8);
}

#[test]
fn task_outside_any_cgroup_is_unchanged() {
    let out = handle_cgroup(task_in(0), Some(vec![ancestor(3, "cri-containerd-aaa")]));
    assert_eq!(container_of(&out), None);
    let out = handle_cgroup(LwSignalTask::default(), Some(vec![ancestor(3, "cri-containerd-aaa")]));
    assert!(out.body.is_none());
}

#[test]
fn unreadable_or_containerless_ancestors_leave_the_task() {
    let out = handle_cgroup(task_in(4), None);
    assert_eq!(container_of(&out), None);

    let mut tagged = task_in(4);
    tagged.body.as_mut().unwrap().container_id = Some("earlier".to_string());
    let out = handle_cgroup(tagged, Some(vec![ancestor(4, "user.slice"), ancestor(1, "")]));
    assert_eq!(container_of(&out).as_deref(), Some("earlier"));

    let out = handle_cgroup(task_in(4), Some(vec![ancestor(0, "cri-containerd-x")]));
    assert_eq!(container_of(&out), None);
}

#[test]
fn container_name_is_decoded_leniently() {
    let mut name = b"cri-containerd-".to_vec();
    name.push(0xff);
    let out = handle_cgroup(task_in(2), Some(vec![CgroupAncestor { id: 2, name }]));
    assert_eq!(container_of(&out).as_deref(), Some("cri-containerd-\u{fffd}"));
}

#[test]
fn cgroup_tagging_keeps_key_and_header() {
    let mut t = task_in(3);
    t.header = Some(LwSignalHeader { version: 1, signal_type: 0, cpu_id: 2, submit_time_ns: 9 });
    t.body.as_mut().unwrap().pid = Some(LwPid { pid: 55, tgid: 55, pid_ns: 0, pid_vnr: 55 });
    let key_before = t.key();
    let out = handle_cgroup(t, Some(vec![ancestor(3, "cri-containerd-zz")]));
    assert_eq!(out.key(), key_before);
    assert_eq!(out.key(), Some("8::55".to_string()));
    assert_eq!(out.header.unwrap().submit_time_ns, 9);
    assert_eq!(container_of(&out).as_deref(), Some("cri-containerd-zz"));
}
