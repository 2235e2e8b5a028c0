use lw_watcher::proto::LwTask;
use lw_watcher::streamline::{Handler, Streamline};

#[test]
fn test_streamline() {
    #[allow(non_camel_case_types)]
    struct h1 {}

    impl Handler<LwTask> for h1 {
        fn handle(&self, mut msg: LwTask) -> LwTask {
            msg.boot_ns = 12345;
            msg
        }
    }

    #[allow(non_camel_case_types)]
    struct h2 {}

    impl Handler<LwTask> for h2 {
        fn handle(&self, mut msg: LwTask) -> LwTask {
            msg.session_id = 54321;
            msg
        }
    }

    let mut streamline = Streamline::<LwTask>::default();
    streamline.add_handler(Box::new(h1 {}));
    streamline.add_handler(Box::new(h2 {}));

    let task = streamline.process(LwTask::default());
    assert_eq!(task.session_id, 54321);
    assert_eq!(task.boot_ns, 12345);
}

struct SetBoot(u64);

impl Handler<LwTask> for SetBoot {
    fn handle(&self, mut msg: LwTask) -> LwTask {
        msg.boot_ns = self.0;
        msg
    }
}

struct AddBoot(u64);

impl Handler<LwTask> for AddBoot {
    fn handle(&self, mut msg: LwTask) -> LwTask {
        msg.boot_ns += self.0;
        msg
    }
}

#[test]
fn empty_streamline_returns_message_unchanged() {
    let streamline = Streamline::<LwTask>::default();
    let mut task = LwTask::default();
    task.boot_ns = 7;
    task.session_id = 3;
    let out = streamline.process(task);
    assert_eq!(out.boot_ns, 7);
    assert_eq!(out.session_id, 3);
}

#[test]
fn handlers_run_in_the_order_added() {
    let mut first = Streamline::<LwTask>::default();
    first.add_handler(Box::new(SetBoot(10)));
    first.add_handler(Box::new(AddBoot(5)));
    assert_eq!(first.process(LwTask::default()).boot_ns, 15);

    let mut second = Streamline::<LwTask>::default();
    second.add_handler(Box::new(AddBoot(5)));
    second.add_handler(Box::new(SetBoot(10)));
    assert_eq!(second.process(LwTask::default()).boot_ns, 10);
}

#[test]
fn added_handler_runs_last_on_the_earlier_result() {
    let mut chain = Streamline::<LwTask>::default();
    chain.add_handler(Box::new(SetBoot(4)));
    let before = chain.process(LwTask::default()).boot_ns;
    chain.add_handler(Box::new(AddBoot(6)));
    let after = chain.process(LwTask::default()).boot_ns;
    assert_eq!(before, 4);
    assert_eq!(after, before + 6);
}

#[test]
fn chains_compose() {
    let mut first = Streamline::<LwTask>::default();
    first.add_handler(Box::new(AddBoot(2)));
    let mut second = Streamline::<LwTask>::default();
    second.add_handler(Box::new(SetBoot(100)));
    second.add_handler(Box::new(AddBoot(3)));
    let mut both = Streamline::<LwTask>::default();
    both.add_handler(Box::new(AddBoot(2)));
    both.add_handler(Box::new(SetBoot(100)));
    both.add_handler(Box::new(AddBoot(3)));
    let one_after_other = second.process(first.process(LwTask::default()));
    assert_eq!(both.process(LwTask::default()).boot_ns, one_after_other.boot_ns);
    assert_eq!(one_after_other.boot_ns, 103);
}
