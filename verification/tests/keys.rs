use lw_watcher::decimal::push_decimal;
use lw_watcher::keys::{record_key, redis_key, redis_scan_pattern, HasKey, StoreError, ENTITY_TASK_PROTO};
use lw_watcher::proto::{LwPid, LwSignalTask, LwTask};

fn task(boot_ns: u64, pid: Option<u32>) -> LwSignalTask {
    let mut body = LwTask::default();
    body.boot_ns = boot_ns;
    body.pid = pid.map(|pid| LwPid { pid, tgid: pid, pid_ns: 0, pid_vnr: 0 });
    LwSignalTask { header: None, body: Some(body) }
}

#[test]
fn decimal_digits() {
    let mut s = String::from("x");
    push_decimal(&mut s, 0);
    push_decimal(&mut s, 7);
    push_decimal(&mut s, 10);
    push_decimal(&mut s, 1234567890);
    assert_eq!(s, "x07101234567890");
    let mut m = String::new();
    push_decimal(&mut m, u64::MAX);
    assert_eq!(m, "18446744073709551615");
}

#[test]
fn task_key_is_boot_time_and_pid() {
    assert_eq!(task(12345, Some(678)).key(), Some("12345::678".to_string()));
    assert_eq!(task(0, Some(0)).key(), Some("0::0".to_string()));
    assert_eq!(
        task(u64::MAX, Some(u32::MAX)).key(),
        Some("18446744073709551615::4294967295".to_string())
    );
}

#[test]
fn task_without_body_or_pid_has_no_key() {
    assert_eq!(task(1, None).key(), None);
    assert_eq!(LwSignalTask::default().key(), None);
}

#[test]
fn different_tasks_have_different_keys() {
    assert_ne!(task(1, Some(23)).key(), task(12, Some(3)).key());
    assert_ne!(task(1, Some(2)).key(), task(1, Some(3)).key());
    assert_eq!(task(9, Some(9)).key(), task(9, Some(9)).key());
}

#[test]
fn redis_key_prefixes_the_entity_type() {
    assert_eq!(redis_key(ENTITY_TASK_PROTO, &task(5, Some(6))), "tasks::5::6");
    assert_eq!(redis_key("", &task(5, Some(6))), "::5::6");
    assert_eq!(redis_key("tasks", &task(5, None)), "");
}

#[test]
fn record_key_needs_a_key() {
    assert_eq!(record_key(&task(5, Some(6))), Ok("5::6".to_string()));
    assert_eq!(record_key(&task(5, None)), Err(StoreError::NoKey));
}

#[test]
fn redis_scan_pattern_matches_an_entity_type() {
    assert_eq!(redis_scan_pattern("tasks"), "tasks::*");
    assert_eq!(redis_scan_pattern(""), "::*");
}
