//! The keys under which signals are stored.
use vstd::prelude::*;
use vstd::string::StringExecFns;
use crate::decimal::{decimal, is_digit, lemma_decimal_injective, lemma_decimal_shape, push_decimal};
use crate::proto::{opt_text, LwSignalTask};

verus! {

/// The table, or key prefix, under which task signals are stored.
pub const ENTITY_TASK_PROTO: &'static str = "tasks";

/// A message that may name the key it is stored under.
pub trait HasKey {
    /// The characters of the key, if the message has one.
    spec fn key_text(&self) -> Option<Seq<char>>;

    /// The key of the message, if it has one.
    fn key(&self) -> (k: Option<String>)
        ensures
            opt_text(k) == self.key_text(),
    ;
}

/// The separator between the parts of a key.
pub open spec fn separator() -> Seq<char> {
    seq![':', ':']
}

/// The key of a task: its boot time in nanoseconds and its pid, in decimal,
/// joined by `::`.
pub open spec fn task_key(boot_ns: u64, pid: u32) -> Seq<char> {
    decimal(boot_ns as nat) + separator() + decimal(pid as nat)
}

impl HasKey for LwSignalTask {
    /// A task signal has a key where it has a body and the body has a pid.
    open spec fn key_text(&self) -> Option<Seq<char>> {
        match self.body {
            Some(body) => match body.pid {
                Some(pid) => Some(task_key(body.boot_ns, pid.pid)),
                None => None,
            },
            None => None,
        }
    }

    fn key(&self) -> (k: Option<String>) {
        match &self.body {
            Some(body) => match body.pid {
                Some(pid) => {
                    let mut s = String::new();
                    push_decimal(&mut s, body.boot_ns);
                    proof {
                        reveal_strlit("::");
                    }
                    s.append("::");
                    push_decimal(&mut s, pid.pid as u64);
                    Some(s)
                },
                None => None,
            },
            None => None,
        }
    }
}

proof fn lemma_no_separator_in_decimal(n: nat, i: int)
    requires
        0 <= i < decimal(n).len(),
    ensures
        decimal(n)[i] != ':',
{
    lemma_decimal_shape(n);
    assert(is_digit(decimal(n)[i]));
}

/// Two tasks have the same key only where they have the same boot time and
/// the same pid.
pub proof fn lemma_task_key_injective(boot_a: u64, pid_a: u32, boot_b: u64, pid_b: u32)
    requires
        task_key(boot_a, pid_a) == task_key(boot_b, pid_b),
    ensures
        boot_a == boot_b,
        pid_a == pid_b,
{
    let da = decimal(boot_a as nat);
    let db = decimal(boot_b as nat);
    let ka = task_key(boot_a, pid_a);
    let kb = task_key(boot_b, pid_b);
    lemma_decimal_shape(boot_a as nat);
    lemma_decimal_shape(boot_b as nat);
    if da.len() < db.len() {
        assert(ka[da.len() as int] == ':');
        assert(kb[da.len() as int] == db[da.len() as int]);
        lemma_no_separator_in_decimal(boot_b as nat, da.len() as int);
    } else if db.len() < da.len() {
        assert(kb[db.len() as int] == ':');
        assert(ka[db.len() as int] == da[db.len() as int]);
        lemma_no_separator_in_decimal(boot_a as nat, db.len() as int);
    }
    assert(da.len() == db.len());
    assert(da =~= ka.take(da.len() as int));
    assert(db =~= kb.take(db.len() as int));
    lemma_decimal_injective(boot_a as nat, boot_b as nat);
    assert(decimal(pid_a as nat) =~= ka.skip(da.len() as int + 2));
    assert(decimal(pid_b as nat) =~= kb.skip(db.len() as int + 2));
    lemma_decimal_injective(pid_a as nat, pid_b as nat);
}

/// Two task signals that have a key have the same key only where their
/// tasks have the same boot time and the same pid.
pub proof fn lemma_same_key_same_task(a: LwSignalTask, b: LwSignalTask)
    requires
        a.key_text() is Some,
        a.key_text() == b.key_text(),
    ensures
        a.body.unwrap().boot_ns == b.body.unwrap().boot_ns,
        a.body.unwrap().pid.unwrap().pid == b.body.unwrap().pid.unwrap().pid,
{
    let ta = a.body.unwrap();
    let tb = b.body.unwrap();
    lemma_task_key_injective(ta.boot_ns, ta.pid.unwrap().pid, tb.boot_ns, tb.pid.unwrap().pid);
}

/// The key of an entity in the key-value service: the entity type, `::`,
/// then the entity's own key; empty where the entity has no key.
pub open spec fn redis_key_text(entity_type: Seq<char>, key: Option<Seq<char>>) -> Seq<char> {
    match key {
        Some(k) => entity_type + separator() + k,
        None => Seq::empty(),
    }
}

/// The key under which `entity` is kept in the key-value service.
pub fn redis_key<T: HasKey>(entity_type: &str, entity: &T) -> (k: String)
    ensures
        k@ == redis_key_text(entity_type@, entity.key_text()),
{
    match entity.key() {
        Some(key) => {
            let mut s = String::new();
            s.append(entity_type);
            proof {
                reveal_strlit("::");
            }
            s.append("::");
            s.append(key.as_str());
            s
        },
        None => String::new(),
    }
}

/// The pattern that matches the keys of every entity of a type in the
/// key-value service: the entity type, `::`, then `*`.
pub fn redis_scan_pattern(entity_type: &str) -> (p: String)
    ensures
        p@ == entity_type@ + separator() + seq!['*'],
{
    let mut s = String::new();
    s.append(entity_type);
    proof {
        reveal_strlit("::*");
    }
    s.append("::*");
    assert(s@ =~= entity_type@ + separator() + seq!['*']);
    s
}

/// Why an entity cannot be stored.
#[derive(Clone, Copy, Debug, PartialEq, Eq, Structural)]
pub enum StoreError {
    /// The entity has no key.
    NoKey,
}

/// The key under which `entity` is written to a table: its own key, or
/// `StoreError::NoKey` where it has none.
pub fn record_key<T: HasKey>(entity: &T) -> (r: Result<String, StoreError>)
    ensures
        r is Ok <==> entity.key_text() is Some,
        r matches Ok(k) ==> Some(k@) == entity.key_text(),
        r matches Err(e) ==> e == StoreError::NoKey,
{
    match entity.key() {
        Some(key) => Ok(key),
        None => Err(StoreError::NoKey),
    }
}

} // verus!
