//! Tagging a task with the container it runs in, from the cgroups above
//! the task's own.
use vstd::prelude::*;
use vstd::string::StrSliceExecFns;
use crate::convert::{lossy_utf8, string_from_utf8_lossy};
use crate::keys::HasKey;
use crate::proto::{opt_text, LwSignalTask, SignalTaskModel, TaskModel};

verus! {

/// A cgroup on the path from a task's cgroup up to the root: its id (0 past
/// the last one) and its name as raw bytes.
#[derive(Clone, Debug)]
pub struct CgroupAncestor {
    pub id: u64,
    pub name: Vec<u8>,
}

/// How the names of container cgroups begin.
pub open spec fn container_prefix() -> Seq<char> {
    "cri-containerd-"@
}

/// Whether a cgroup name is that of a container.
pub fn is_container(cgroup_name: &str) -> (b: bool)
    ensures
        b == container_prefix().is_prefix_of(cgroup_name@),
{
    let prefix = "cri-containerd-";
    proof {
        reveal_strlit("cri-containerd-");
    }
    let n = cgroup_name.unicode_len();
    let m = prefix.unicode_len();
    if n < m {
        return false;
    }
    let mut i: usize = 0;
    while i < m
        invariant
            m == prefix@.len(),
            prefix@ == container_prefix(),
            n == cgroup_name@.len(),
            m <= n,
            i <= m,
            forall|j: int| 0 <= j < i ==> cgroup_name@[j] == prefix@[j],
        decreases m - i,
    {
        if cgroup_name.get_char(i) != prefix.get_char(i) {
            return false;
        }
        i += 1;
    }
    assert(prefix@ =~= cgroup_name@.subrange(0, prefix@.len() as int));
    true
}

/// The cgroup id of a task signal's executable, 0 where it has none.
pub open spec fn cgroup_id_of(m: SignalTaskModel) -> u64 {
    match m.body {
        Some(t) => match t.executable {
            Some(e) => e.cgroup_id,
            None => 0,
        },
        None => 0,
    }
}

/// The cgroup id of a task signal's executable, 0 where it has none.
pub fn task_cgroup_id(msg: &LwSignalTask) -> (id: u64)
    ensures
        id == cgroup_id_of(msg@),
{
    match &msg.body {
        Some(task) => match &task.executable {
            Some(e) => e.cgroup_id,
            None => 0,
        },
        None => 0,
    }
}

/// The name of the last container cgroup among `ancestors`, read up to the
/// first with id 0; `found` where there is none.
pub open spec fn container_scan(ancestors: Seq<CgroupAncestor>, found: Option<Seq<char>>) -> Option<
    Seq<char>,
>
    decreases ancestors.len(),
{
    if ancestors.len() == 0 || ancestors[0].id == 0 {
        found
    } else {
        let name = lossy_utf8(ancestors[0].name@);
        container_scan(
            ancestors.drop_first(),
            if container_prefix().is_prefix_of(name) {
                Some(name)
            } else {
                found
            },
        )
    }
}

/// The task signal with its task's container id set to `name`.
pub open spec fn with_container(m: SignalTaskModel, name: Seq<char>) -> SignalTaskModel {
    match m.body {
        Some(t) => SignalTaskModel { body: Some(TaskModel { container_id: Some(name), ..t }), ..m },
        None => m,
    }
}

/// The ancestors as a sequence, where the lookup gave them.
pub open spec fn opt_ancestors(a: Option<Vec<CgroupAncestor>>) -> Option<Seq<CgroupAncestor>> {
    match a {
        Some(v) => Some(v@),
        None => None,
    }
}

/// What the cgroup handler makes of a task signal: a task outside any
/// cgroup (id 0), or whose ancestors could not be read, or that runs in no
/// container, is unchanged; else its container id is set to the name of the
/// last container cgroup among the ancestors.
pub open spec fn cgroup_handled(m: SignalTaskModel, ancestors: Option<Seq<CgroupAncestor>>) -> SignalTaskModel {
    if cgroup_id_of(m) == 0 {
        m
    } else {
        match ancestors {
            None => m,
            Some(a) => match container_scan(a, None) {
                None => m,
                Some(name) => with_container(m, name),
            },
        }
    }
}

/// Tags `msg` with its container, given the ancestors of its cgroup (`None`
/// where they could not be read).
pub fn handle_cgroup(msg: LwSignalTask, ancestors: Option<Vec<CgroupAncestor>>) -> (out: LwSignalTask)
    ensures
        out@ == cgroup_handled(msg@, opt_ancestors(ancestors)),
{
    if task_cgroup_id(&msg) == 0 {
        return msg;
    }
    let ancestors = match ancestors {
        Some(a) => a,
        None => return msg,
    };
    let mut found: Option<String> = None;
    let mut i: usize = 0;
    assert(ancestors@.skip(0) =~= ancestors@);
    while i < ancestors.len()
        invariant
            i <= ancestors@.len(),
            container_scan(ancestors@, None) == container_scan(ancestors@.skip(i as int), opt_text(found)),
        ensures
            container_scan(ancestors@, None) == opt_text(found),
        decreases ancestors@.len() - i,
    {
        let a = &ancestors[i];
        if a.id == 0 {
            break;
        }
        let cgroup_name = string_from_utf8_lossy(a.name.as_slice());
        assert(ancestors@.skip(i as int).drop_first() =~= ancestors@.skip(i as int + 1));
        if is_container(cgroup_name.as_str()) {
            found = Some(cgroup_name);
        }
        i += 1;
    }
    match found {
        None => msg,
        Some(name) => {
            let LwSignalTask { header, body } = msg;
            match body {
                Some(mut task) => {
                    task.container_id = Some(name);
                    LwSignalTask { header, body: Some(task) }
                },
                None => LwSignalTask { header, body: None },
            }
        },
    }
}

/// The cgroup handler changes nothing but the container id of the task: the
/// header, whether there is a task, and every other part of the task stay.
pub proof fn lemma_cgroup_changes_only_container(
    m: SignalTaskModel,
    ancestors: Option<Seq<CgroupAncestor>>,
)
    ensures
        cgroup_handled(m, ancestors).header == m.header,
        cgroup_handled(m, ancestors).body is Some <==> m.body is Some,
        m.body matches Some(t) ==> (TaskModel {
            container_id: t.container_id,
            ..cgroup_handled(m, ancestors).body.unwrap()
        }) == t,
{
}

/// The cgroup handler does not change the key of a task signal.
pub proof fn lemma_cgroup_keeps_key(
    msg: LwSignalTask,
    ancestors: Option<Seq<CgroupAncestor>>,
    out: LwSignalTask,
)
    requires
        out@ == cgroup_handled(msg@, ancestors),
    ensures
        out.key_text() == msg.key_text(),
{
    lemma_cgroup_changes_only_container(msg@, ancestors);
    if msg.body is Some {
        assert(out.body is Some);
        assert(out.body.unwrap().pid == msg.body.unwrap().pid);
        assert(out.body.unwrap().boot_ns == msg.body.unwrap().boot_ns);
    } else {
        assert(out.body is None);
    }
}

/// Whether a decoded cgroup name is that of a container.
pub open spec fn is_container_name(name: Seq<char>) -> bool {
    container_prefix().is_prefix_of(name)
}

/// Whether no ancestor up to and including index `j` has id 0, so that the
/// scan reaches ancestor `j`.
pub open spec fn reached(ancestors: Seq<CgroupAncestor>, j: int) -> bool {
    forall|l: int| 0 <= l <= j ==> ancestors[l].id != 0
}

proof fn lemma_reached_shift(ancestors: Seq<CgroupAncestor>, j: int)
    requires
        ancestors.len() > 0,
        ancestors[0].id != 0,
        0 <= j,
        reached(ancestors.drop_first(), j),
        j + 1 < ancestors.len(),
    ensures
        reached(ancestors, j + 1),
{
    assert forall|l: int| 0 <= l <= j + 1 implies ancestors[l].id != 0 by {
        if l > 0 {
            assert(ancestors[l] == ancestors.drop_first()[l - 1]);
        }
    }
}

proof fn lemma_scan_no_match(ancestors: Seq<CgroupAncestor>, found: Option<Seq<char>>)
    requires
        forall|j: int|
            0 <= j < ancestors.len() && #[trigger] reached(ancestors, j) ==> !is_container_name(
                lossy_utf8(ancestors[j].name@),
            ),
    ensures
        container_scan(ancestors, found) == found,
    decreases ancestors.len(),
{
    if ancestors.len() > 0 && ancestors[0].id != 0 {
        assert(reached(ancestors, 0));
        let rest = ancestors.drop_first();
        assert forall|j: int| 0 <= j < rest.len() && #[trigger] reached(rest, j) implies !is_container_name(
            lossy_utf8(rest[j].name@),
        ) by {
            lemma_reached_shift(ancestors, j);
            assert(rest[j] == ancestors[j + 1]);
        }
        lemma_scan_no_match(rest, found);
    }
}

proof fn lemma_scan_finds_last(ancestors: Seq<CgroupAncestor>, found: Option<Seq<char>>, k: int)
    requires
        0 <= k < ancestors.len(),
        reached(ancestors, k),
        is_container_name(lossy_utf8(ancestors[k].name@)),
        forall|j: int|
            k < j < ancestors.len() && #[trigger] reached(ancestors, j) ==> !is_container_name(
                lossy_utf8(ancestors[j].name@),
            ),
    ensures
        container_scan(ancestors, found) == Some(lossy_utf8(ancestors[k].name@)),
    decreases ancestors.len(),
{
    assert(ancestors[0].id != 0);
    let rest = ancestors.drop_first();
    let name0 = lossy_utf8(ancestors[0].name@);
    let next = if container_prefix().is_prefix_of(name0) {
        Some(name0)
    } else {
        found
    };
    assert(container_scan(ancestors, found) == container_scan(rest, next));
    if k == 0 {
        assert forall|j: int| 0 <= j < rest.len() && #[trigger] reached(rest, j) implies !is_container_name(
            lossy_utf8(rest[j].name@),
        ) by {
            lemma_reached_shift(ancestors, j);
            assert(rest[j] == ancestors[j + 1]);
        }
        lemma_scan_no_match(rest, next);
    } else {
        assert(reached(rest, k - 1)) by {
            assert forall|l: int| 0 <= l <= k - 1 implies rest[l].id != 0 by {
                assert(rest[l] == ancestors[l + 1]);
            }
        }
        assert(rest[k - 1] == ancestors[k]);
        assert forall|j: int| k - 1 < j < rest.len() && #[trigger] reached(rest, j) implies !is_container_name(
            lossy_utf8(rest[j].name@),
        ) by {
            lemma_reached_shift(ancestors, j);
            assert(rest[j] == ancestors[j + 1]);
        }
        lemma_scan_finds_last(rest, next, k - 1);
    }
}

/// A task in a cgroup is tagged with the whole decoded name of the last
/// container cgroup among its ancestors (up to the first with id 0), of any
/// length, and nothing else of the signal changes.
pub proof fn lemma_cgroup_tags_last_container(
    m: SignalTaskModel,
    ancestors: Seq<CgroupAncestor>,
    k: int,
)
    requires
        cgroup_id_of(m) != 0,
        0 <= k < ancestors.len(),
        reached(ancestors, k),
        is_container_name(lossy_utf8(ancestors[k].name@)),
        forall|j: int|
            k < j < ancestors.len() && #[trigger] reached(ancestors, j) ==> !is_container_name(
                lossy_utf8(ancestors[j].name@),
            ),
    ensures
        cgroup_handled(m, Some(ancestors)).header == m.header,
        cgroup_handled(m, Some(ancestors)).body == Some(
            TaskModel { container_id: Some(lossy_utf8(ancestors[k].name@)), ..m.body.unwrap() },
        ),
{
    lemma_scan_finds_last(ancestors, None, k);
}

/// A task whose ancestors (up to the first with id 0) hold no container
/// cgroup is left as it is.
pub proof fn lemma_cgroup_without_container_keeps_task(
    m: SignalTaskModel,
    ancestors: Seq<CgroupAncestor>,
)
    requires
        forall|j: int|
            0 <= j < ancestors.len() && #[trigger] reached(ancestors, j) ==> !is_container_name(
                lossy_utf8(ancestors[j].name@),
            ),
    ensures
        cgroup_handled(m, Some(ancestors)) == m,
{
    lemma_scan_no_match(ancestors, None);
}

} // verus!
