//! The concurrent hash maps of `dashmap` that hold the broker's state.
//!
//! A table is changed through an exclusive borrow of it alone: while it is
//! changed no guard on one of its entries exists and nobody else sees it, so a
//! call neither waits for a lock nor races with another.
use crate::broker::queue::RoleQueue;
use crate::broker::session::Session;
use crate::protocol::CommandResult;
use dashmap::mapref::one::Ref;
use dashmap::DashMap;
use tokio::sync::oneshot::Sender;
use vstd::prelude::*;

verus! {

/// `dashmap::DashMap`, carried as an opaque value.
#[verifier::external_type_specification]
#[verifier::external_body]
#[verifier::reject_recursive_types(K)]
#[verifier::reject_recursive_types(V)]
#[verifier::reject_recursive_types(S)]
pub struct ExDashMap<K, V, S>(DashMap<K, V, S>);

/// `dashmap::mapref::one::Ref`, the guard on one entry, carried as an opaque value.
#[verifier::external_type_specification]
#[verifier::external_body]
#[verifier::reject_recursive_types(K)]
#[verifier::reject_recursive_types(V)]
pub struct ExRef<'a, K, V>(Ref<'a, K, V>);

/// The queues of a table, by key.
pub uninterp spec fn queues_of(m: DashMap<u8, RoleQueue>) -> Map<u8, RoleQueue>;

/// The queue of the entry that a guard holds.
pub uninterp spec fn guarded_queue(e: Ref<'_, u8, RoleQueue>) -> RoleQueue;

/// The sessions of a table, by session id.
pub uninterp spec fn sessions_of(m: DashMap<String, Session>) -> Map<Seq<char>, Session>;

/// The session of the entry that a guard holds.
pub uninterp spec fn guarded_session(e: Ref<'_, String, Session>) -> Session;

/// The waiting adapters of a table, by session id and command id.
pub uninterp spec fn waiters_of(m: DashMap<(String, u64), Sender<CommandResult>>) -> Map<
    (Seq<char>, u64),
    Sender<CommandResult>,
>;

/// A table of queues without entries.
pub open spec fn no_queues() -> Map<u8, RoleQueue> {
    Map::empty()
}

/// A table of sessions without entries.
pub open spec fn no_sessions() -> Map<Seq<char>, Session> {
    Map::empty()
}

/// A table of waiting adapters without entries.
pub open spec fn no_waiters() -> Map<(Seq<char>, u64), Sender<CommandResult>> {
    Map::empty()
}

/// `DashMap::new`: a table without entries.
#[verifier::external_body]
pub(crate) fn new_queue_table() -> (r: DashMap<u8, RoleQueue>)
    ensures
        queues_of(r) == no_queues(),
{
    DashMap::new()
}

/// `DashMap::get`: a guard on the entry of the key, if there is one.
#[verifier::external_body]
pub(crate) fn get_queue<'a>(m: &'a DashMap<u8, RoleQueue>, key: u8) -> (r: Option<
    Ref<'a, u8, RoleQueue>,
>)
    ensures
        match r {
            Some(e) => queues_of(*m).contains_key(key) && guarded_queue(e) == queues_of(*m)[key],
            None => !queues_of(*m).contains_key(key),
        },
{
    m.get(&key)
}

/// `Ref::value`: the value of the guarded entry.
#[verifier::external_body]
pub(crate) fn queue_value<'a>(e: &'a Ref<'_, u8, RoleQueue>) -> (r: &'a RoleQueue)
    ensures
        *r == guarded_queue(*e),
{
    e.value()
}

/// `DashMap::remove`: takes the entry of the key out, if there is one.
#[verifier::external_body]
pub(crate) fn remove_queue(m: &mut DashMap<u8, RoleQueue>, key: u8) -> (r: Option<RoleQueue>)
    ensures
        queues_of(*final(m)) == queues_of(*old(m)).remove(key),
        match r {
            Some(q) => queues_of(*old(m)).contains_key(key) && q == queues_of(*old(m))[key],
            None => !queues_of(*old(m)).contains_key(key),
        },
{
    m.remove(&key).map(|entry| entry.1)
}

/// `DashMap::insert`: the key holds the value afterwards.
#[verifier::external_body]
pub(crate) fn insert_queue(m: &mut DashMap<u8, RoleQueue>, key: u8, queue: RoleQueue)
    ensures
        queues_of(*final(m)) == queues_of(*old(m)).insert(key, queue),
{
    m.insert(key, queue);
}

/// `DashMap::new`: a table without entries.
#[verifier::external_body]
pub(crate) fn new_session_table() -> (r: DashMap<String, Session>)
    ensures
        sessions_of(r) == no_sessions(),
{
    DashMap::new()
}

/// `DashMap::get`: a guard on the entry of the key, if there is one.
#[verifier::external_body]
pub(crate) fn get_session<'a>(m: &'a DashMap<String, Session>, key: &str) -> (r: Option<
    Ref<'a, String, Session>,
>)
    ensures
        match r {
            Some(e) => sessions_of(*m).contains_key(key@) && guarded_session(e)
                == sessions_of(*m)[key@],
            None => !sessions_of(*m).contains_key(key@),
        },
{
    m.get(key)
}

/// `Ref::value`: the value of the guarded entry.
#[verifier::external_body]
pub(crate) fn session_value<'a>(e: &'a Ref<'_, String, Session>) -> (r: &'a Session)
    ensures
        *r == guarded_session(*e),
{
    e.value()
}

/// `DashMap::remove`: takes the entry of the key out, if there is one.
#[verifier::external_body]
pub(crate) fn remove_session(m: &mut DashMap<String, Session>, key: &str) -> (r: Option<Session>)
    ensures
        sessions_of(*final(m)) == sessions_of(*old(m)).remove(key@),
        match r {
            Some(s) => sessions_of(*old(m)).contains_key(key@) && s == sessions_of(*old(m))[key@],
            None => !sessions_of(*old(m)).contains_key(key@),
        },
{
    m.remove(key).map(|entry| entry.1)
}

/// `DashMap::insert`: the key holds the value afterwards.
#[verifier::external_body]
pub(crate) fn insert_session(m: &mut DashMap<String, Session>, key: &str, session: Session)
    ensures
        sessions_of(*final(m)) == sessions_of(*old(m)).insert(key@, session),
{
    m.insert(key.to_string(), session);
}

/// `DashMap::iter`: every key of the table once, in no particular order.
#[verifier::external_body]
pub(crate) fn session_keys(m: &DashMap<String, Session>) -> (r: Vec<String>)
    ensures
        r@.map_values(|k: String| k@).no_duplicates(),
        r@.map_values(|k: String| k@).to_set() == sessions_of(*m).dom(),
{
    m.iter().map(|entry| entry.key().clone()).collect()
}

/// `DashMap::new`: a table without entries.
#[verifier::external_body]
pub(crate) fn new_waiter_table() -> (r: DashMap<(String, u64), Sender<CommandResult>>)
    ensures
        waiters_of(r) == no_waiters(),
{
    DashMap::new()
}

/// `DashMap::insert`: the key holds the value afterwards.
#[verifier::external_body]
pub(crate) fn insert_waiter(
    m: &mut DashMap<(String, u64), Sender<CommandResult>>,
    session_id: &str,
    id: u64,
    sender: Sender<CommandResult>,
)
    ensures
        waiters_of(*final(m)) == waiters_of(*old(m)).insert((session_id@, id), sender),
{
    m.insert((session_id.to_string(), id), sender);
}

/// `DashMap::remove`: takes the entry of the key out, if there is one.
#[verifier::external_body]
pub(crate) fn remove_waiter(
    m: &mut DashMap<(String, u64), Sender<CommandResult>>,
    session_id: &str,
    id: u64,
) -> (r: Option<Sender<CommandResult>>)
    ensures
        waiters_of(*final(m)) == waiters_of(*old(m)).remove((session_id@, id)),
        match r {
            Some(s) => waiters_of(*old(m)).contains_key((session_id@, id)) && s == waiters_of(
                *old(m),
            )[(session_id@, id)],
            None => !waiters_of(*old(m)).contains_key((session_id@, id)),
        },
{
    m.remove(&(session_id.to_string(), id)).map(|entry| entry.1)
}

} // verus!
