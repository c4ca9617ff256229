//! The broker's single source of truth: the sessions with their command queues,
//! and the adapters that wait for a result.
use crate::broker::channel::{open_channel, receiver_of, send_result, Sending};
use crate::broker::queue::law_queue_stays_well_formed;
use crate::broker::session::{meta_of, Session, SessionMeta, SessionState};
use crate::broker::signal::Wake;
use crate::broker::table::{
    get_session, guarded_session, insert_session, insert_waiter, new_session_table,
    new_waiter_table, remove_session, remove_waiter, session_keys, session_value, sessions_of,
    waiters_of,
};
use crate::protocol::{Command, CommandResult, Handshake, Role, SessionInfo};
use dashmap::mapref::one::Ref;
use dashmap::DashMap;
use serde_json::Value;
use std::sync::Arc;
use tokio::sync::oneshot::{Receiver, Sender};
use tokio::sync::Notify;
use vstd::prelude::*;

verus! {

/// Whether the listing of a session says what holds of it at `now`.
pub open spec fn describes(info: SessionInfo, session: SessionState, now: u128) -> bool {
    &&& info.place_id == session.meta.place_id
    &&& info.game_id == session.meta.game_id
    &&& info.place_name == session.meta.place_name
    &&& info.creator_id == session.meta.creator_id
    &&& info.label == session.meta.label
    &&& info.roles@ == session.role_infos(now)
}

/// The state of the registry.
#[verifier::ext_equal]
pub struct RegistryState {
    /// The sessions by id.
    pub sessions: Map<Seq<char>, SessionState>,
    /// The waiting adapters by session id and command id.
    pub pending: Map<(Seq<char>, u64), Sender<CommandResult>>,
}

impl RegistryState {
    /// There are finitely many sessions, and every one is well formed.
    pub open spec fn wf(self) -> bool {
        &&& self.sessions.dom().finite()
        &&& forall|id: Seq<char>| #[trigger]
            self.sessions.contains_key(id) ==> self.sessions[id].wf()
    }

    /// A registry without sessions.
    pub open spec fn empty() -> RegistryState {
        RegistryState { sessions: Map::empty(), pending: Map::empty() }
    }

    /// The registry with this session.
    pub open spec fn with_session(self, id: Seq<char>, session: SessionState) -> RegistryState {
        RegistryState { sessions: self.sessions.insert(id, session), ..self }
    }

    /// The session of a handshake as the handshake leaves it.
    pub open spec fn greeted(self, hs: Handshake, now: u128) -> SessionState {
        let known = if self.sessions.contains_key(hs.session_id@) {
            self.sessions[hs.session_id@]
        } else {
            SessionState::fresh(meta_of(hs))
        };
        (SessionState { meta: known.meta.updated(hs), ..known }).touched(hs.role, now)
    }

    /// The registry after a handshake.
    pub open spec fn upserted(self, hs: Handshake, now: u128) -> RegistryState {
        self.with_session(hs.session_id@, self.greeted(hs, now))
    }

    /// The registry after a poll of a role.
    pub open spec fn polled(self, id: Seq<char>, role: Role, now: u128) -> RegistryState {
        if self.sessions.contains_key(id) {
            self.with_session(id, self.sessions[id].polled(role, now))
        } else {
            self
        }
    }

    /// Whether `batch` is what a poll of the role hands out.
    pub open spec fn is_batch(
        self,
        id: Seq<char>,
        role: Role,
        now: u128,
        batch: Seq<Command>,
    ) -> bool {
        if self.sessions.contains_key(id) {
            self.sessions[id].queue(role, now).is_batch(now, batch)
        } else {
            batch.len() == 0
        }
    }

    /// The registry once a role of a session acknowledged a command.
    pub open spec fn acked(self, id: Seq<char>, role: Role, cmd: u64, now: u128) -> RegistryState {
        if self.sessions.contains_key(id) {
            self.with_session(id, self.sessions[id].acked(role, cmd, now))
        } else {
            self
        }
    }

    /// The registry with one more waiting adapter.
    pub open spec fn waiting(
        self,
        id: Seq<char>,
        cmd: u64,
        sender: Sender<CommandResult>,
    ) -> RegistryState {
        RegistryState { pending: self.pending.insert((id, cmd), sender), ..self }
    }

    /// The registry without the adapter that waits for this command.
    pub open spec fn settled(self, id: Seq<char>, cmd: u64) -> RegistryState {
        RegistryState { pending: self.pending.remove((id, cmd)), ..self }
    }

    /// The registry once `cmd` was numbered, is waited for and is in its queue.
    pub open spec fn submitted(
        self,
        id: Seq<char>,
        cmd: Command,
        sender: Sender<CommandResult>,
        now: u128,
    ) -> RegistryState {
        self.waiting(id, cmd.id, sender).with_session(
            id,
            self.sessions[id].numbered().enqueued(cmd, now),
        )
    }

    /// The sessions that have a live role.
    pub open spec fn live_sessions(self, now: u128) -> Set<Seq<char>> {
        self.sessions.dom().filter(|id: Seq<char>| self.sessions[id].has_live_role(now))
    }

    /// The sessions all of whose roles are dead.
    pub open spec fn dead_sessions(self, now: u128) -> Set<Seq<char>> {
        self.sessions.dom().filter(|id: Seq<char>| self.sessions[id].all_dead(now))
    }

    /// The registry without its dead sessions.
    pub open spec fn reaped(self, now: u128) -> RegistryState {
        RegistryState { sessions: self.sessions.remove_keys(self.dead_sessions(now)), ..self }
    }

    /// Whether `list` names every session once and describes each.
    pub open spec fn is_listing(self, now: u128, list: Seq<SessionInfo>) -> bool {
        &&& forall|i: int, j: int|
            0 <= i < j < list.len() ==> list[i].session_id@ != list[j].session_id@
        &&& forall|i: int|
            0 <= i < list.len() ==> self.sessions.contains_key((#[trigger] list[i]).session_id@)
                && describes(list[i], self.sessions[list[i].session_id@], now)
        &&& forall|id: Seq<char>| #[trigger]
            self.sessions.contains_key(id) ==> exists|i: int|
                0 <= i < list.len() && (#[trigger] list[i]).session_id@ == id
    }
}

/// A result on its way to the adapter that waits for it.
pub struct Delivery {
    /// The sending end of the adapter's channel.
    pub sender: Sender<CommandResult>,
    /// The result.
    pub result: CommandResult,
}

/// A command that an adapter waits for.
pub struct Submission {
    /// The id of the command.
    pub id: u64,
    /// The receiving end of the adapter's channel.
    pub receiver: Receiver<CommandResult>,
    /// The signal that was given to the polls of the command's role.
    pub wake: Wake,
}

/// The sessions of the broker and the adapters that wait for results.
pub struct Registry {
    sessions: DashMap<String, Session>,
    pending: DashMap<(String, u64), Sender<CommandResult>>,
}

impl View for Registry {
    type V = RegistryState;

    closed spec fn view(&self) -> RegistryState {
        RegistryState {
            sessions: sessions_of(self.sessions).map_values(|s: Session| s@),
            pending: waiters_of(self.pending),
        }
    }
}

impl Registry {
    /// The signal that wakes the polls of a role of a session.
    pub closed spec fn signal(&self, id: Seq<char>, role: Role) -> Option<Notify> {
        if sessions_of(self.sessions).contains_key(id) && sessions_of(
            self.sessions,
        )[id].signals().contains_key(role) {
            Some(sessions_of(self.sessions)[id].signals()[role])
        } else {
            None
        }
    }

    /// Whether every signal of this registry is still the same in `later`.
    pub open spec fn keeps_signals(&self, later: &Registry) -> bool {
        forall|id: Seq<char>, role: Role| #[trigger]
            self.signal(id, role) is Some ==> later.signal(id, role) == self.signal(id, role)
    }

    /// A registry without sessions.
    pub fn new() -> (r: Self)
        ensures
            r@ == RegistryState::empty(),
    {
        let r = Registry { sessions: new_session_table(), pending: new_waiter_table() };
        assert(r@ =~= RegistryState::empty());
        r
    }

    /// Takes in a handshake: opens the session or updates it, and records that
    /// the role was heard of. Returns the signal that wakes the role's polls.
    pub fn upsert(&mut self, hs: &Handshake, now: u128) -> (r: Arc<Notify>)
        ensures
            final(self)@ == old(self)@.upserted(*hs, now),
            old(self).keeps_signals(final(self)),
            final(self).signal(hs.session_id@, hs.role) == Some(*r),
    {
        let mut session = match remove_session(&mut self.sessions, hs.session_id.as_str()) {
            Some(session) => session,
            None => Session::new(SessionMeta::from_handshake(hs)),
        };
        let ghost known = session.signals();
        session.update_meta(hs);
        session.touch(hs.role, now);
        let ghost touched = session.signals();
        let notify = session.role_queue(hs.role, now);
        proof {
            assert forall|role: Role| #[trigger] known.contains_key(role) implies
                session.signals().contains_key(role) && session.signals()[role] == known[role] by {
                assert(touched.contains_key(role));
            }
        }
        assert(session@ =~= old(self)@.greeted(*hs, now));
        insert_session(&mut self.sessions, hs.session_id.as_str(), session);
        assert(self@ =~= old(self)@.upserted(*hs, now));
        notify
    }

    /// The session of this id.
    pub fn get<'a>(&'a self, session_id: &str) -> (r: Option<Ref<'a, String, Session>>)
        ensures
            match r {
                Some(e) => self@.sessions.contains_key(session_id@) && guarded_session(e)@
                    == self@.sessions[session_id@],
                None => !self@.sessions.contains_key(session_id@),
            },
    {
        get_session(&self.sessions, session_id)
    }

    /// Hands out the commands that a poll of the role is owed.
    pub fn take_for_poll(&mut self, session_id: &str, role: Role, now: u128) -> (r: Vec<Command>)
        requires
            old(self)@.wf(),
        ensures
            final(self)@ == old(self)@.polled(session_id@, role, now),
            old(self)@.is_batch(session_id@, role, now, r@),
            old(self).keeps_signals(final(self)),
    {
        match remove_session(&mut self.sessions, session_id) {
            Some(taken) => {
                let mut session = taken;
                assert(old(self)@.sessions.contains_key(session_id@));
                let batch = session.take_for_poll(role, now);
                insert_session(&mut self.sessions, session_id, session);
                assert(self@ =~= old(self)@.polled(session_id@, role, now));
                batch
            },
            None => {
                assert(self@ =~= old(self)@);
                Vec::new()
            },
        }
    }

    /// Forgets a command in the queue of a role.
    pub fn ack(&mut self, session_id: &str, role: Role, id: u64, now: u128)
        ensures
            final(self)@ == old(self)@.acked(session_id@, role, id, now),
            old(self).keeps_signals(final(self)),
    {
        match remove_session(&mut self.sessions, session_id) {
            Some(taken) => {
                let mut session = taken;
                session.ack(role, id, now);
                insert_session(&mut self.sessions, session_id, session);
                assert(self@ =~= old(self)@.acked(session_id@, role, id, now));
            },
            None => {
                assert(self@ =~= old(self)@);
            },
        }
    }

    /// Numbers a command, registers the adapter that waits for its result, and
    /// puts it in the queue of its role, whose polls are given their signal. `None`
    /// where there is no such session.
    pub fn submit(
        &mut self,
        session_id: &str,
        tool: String,
        args: Value,
        target_role: Role,
        now: u128,
    ) -> (r: Option<Submission>)
        ensures
            old(self).keeps_signals(final(self)),
            match r {
                Some(s) => {
                    let cmd = Command { id: s.id, tool, args, target_role };
                    &&& old(self)@.sessions.contains_key(session_id@)
                    &&& s.id == old(self)@.sessions[session_id@].next_id
                    &&& final(self)@.pending.contains_key((session_id@, s.id))
                    &&& receiver_of(final(self)@.pending[(session_id@, s.id)]) == s.receiver
                    &&& final(self).signal(session_id@, target_role) == Some(s.wake.signal())
                    &&& final(self)@ == old(self)@.submitted(
                        session_id@,
                        cmd,
                        final(self)@.pending[(session_id@, s.id)],
                        now,
                    )
                },
                None => !old(self)@.sessions.contains_key(session_id@) && final(self)@
                    == old(self)@,
            },
    {
        match remove_session(&mut self.sessions, session_id) {
            Some(taken) => {
                let mut session = taken;
                let id = session.next_id();
                let receiver = Self::wait_on(&mut self.pending, session_id, id);
                let wake = session.enqueue(Command { id, tool, args, target_role }, now);
                insert_session(&mut self.sessions, session_id, session);
                proof {
                    let cmd = Command { id, tool, args, target_role };
                    assert(self@ =~= old(self)@.submitted(
                        session_id@,
                        cmd,
                        self@.pending[(session_id@, id)],
                        now,
                    ));
                }
                Some(Submission { id, receiver, wake })
            },
            None => {
                assert(self@ =~= old(self)@);
                None
            },
        }
    }

    /// Lists the sessions, in no particular order.
    pub fn list(&self, now: u128) -> (r: Vec<SessionInfo>)
        ensures
            self@.is_listing(now, r@),
    {
        let keys = session_keys(&self.sessions);
        let ghost ids = keys@.map_values(|k: String| k@);
        let mut out: Vec<SessionInfo> = Vec::new();
        for i in 0..keys.len()
            invariant
                ids == keys@.map_values(|k: String| k@),
                ids.no_duplicates(),
                ids.to_set() == sessions_of(self.sessions).dom(),
                out@.len() == i,
                forall|j: int|
                    0 <= j < i ==> (#[trigger] out@[j]).session_id@ == ids[j]
                        && self@.sessions.contains_key(ids[j]) && describes(
                        out@[j],
                        self@.sessions[ids[j]],
                        now,
                    ),
        {
            assert(ids[i as int] == keys@[i as int]@);
            assert(ids.to_set().contains(ids[i as int]));
            match get_session(&self.sessions, keys[i].as_str()) {
                Some(e) => {
                    let session = session_value(&e);
                    let meta = session.meta().copied();
                    out.push(
                        SessionInfo {
                            session_id: keys[i].clone(),
                            place_id: meta.place_id,
                            game_id: meta.game_id,
                            place_name: meta.place_name,
                            creator_id: meta.creator_id,
                            label: meta.label,
                            roles: session.role_infos(now),
                        },
                    );
                },
                None => {
                    assert(false);
                },
            }
        }
        assert forall|id: Seq<char>| #[trigger] self@.sessions.contains_key(id) implies exists|
            i: int,
        |
            0 <= i < out@.len() && (#[trigger] out@[i]).session_id@ == id by {
            assert(ids.to_set().contains(id));
            let k = ids.index_of(id);
            assert(out@[k].session_id@ == id);
        }
        out
    }

    /// How many sessions have a live role.
    pub fn live_session_count(&self, now: u128) -> (r: usize)
        ensures
            r == self@.live_sessions(now).len(),
    {
        let keys = session_keys(&self.sessions);
        let ghost ids = keys@.map_values(|k: String| k@);
        let ghost live = |id: Seq<char>| self@.sessions[id].has_live_role(now);
        let mut count: usize = 0;
        proof {
            reveal(Seq::filter);
        }
        for i in 0..keys.len()
            invariant
                ids == keys@.map_values(|k: String| k@),
                ids.to_set() == sessions_of(self.sessions).dom(),
                live == (|id: Seq<char>| self@.sessions[id].has_live_role(now)),
                count == ids.take(i as int).filter(live).len(),
                count <= i,
        {
            proof {
                reveal(Seq::filter);
                assert(ids.take(i + 1).drop_last() =~= ids.take(i as int));
                assert(ids.take(i + 1).last() == ids[i as int]);
                assert(ids[i as int] == keys@[i as int]@);
                assert(ids.to_set().contains(ids[i as int]));
            }
            if let Some(e) = get_session(&self.sessions, keys[i].as_str()) {
                if session_value(&e).has_live_role(now) {
                    count = count + 1;
                }
            }
        }
        proof {
            assert(ids.take(keys.len() as int) =~= ids);
            lemma_count_of_filter(ids, live);
            assert(ids.to_set() =~= self@.sessions.dom());
            assert(self@.live_sessions(now) =~= ids.to_set().filter(live));
        }
        count
    }

    /// Removes the sessions all of whose roles are dead, and says how many.
    pub fn reap(&mut self, now: u128) -> (r: usize)
        ensures
            final(self)@ == old(self)@.reaped(now),
            r == old(self)@.dead_sessions(now).len(),
            forall|id: Seq<char>, role: Role|
                !old(self)@.dead_sessions(now).contains(id) ==> #[trigger] final(self).signal(
                    id,
                    role,
                ) == old(self).signal(id, role),
    {
        let keys = session_keys(&self.sessions);
        let ghost ids = keys@.map_values(|k: String| k@);
        let ghost dead = |id: Seq<char>| old(self)@.sessions[id].all_dead(now);
        let mut count: usize = 0;
        proof {
            reveal(Seq::filter);
            assert(ids.take(0).to_set() =~= Set::<Seq<char>>::empty());
            assert(self@.sessions =~= old(self)@.sessions.remove_keys(
                ids.take(0).to_set().filter(dead),
            ));
        }
        for i in 0..keys.len()
            invariant
                ids == keys@.map_values(|k: String| k@),
                ids.no_duplicates(),
                ids.to_set() == old(self)@.sessions.dom(),
                dead == (|id: Seq<char>| old(self)@.sessions[id].all_dead(now)),
                count == ids.take(i as int).filter(dead).len(),
                count <= i,
                forall|sid: Seq<char>, role: Role|
                    !ids.take(i as int).to_set().filter(dead).contains(sid)
                        ==> #[trigger] self.signal(sid, role) == old(self).signal(sid, role),
                self@.pending == old(self)@.pending,
                self@.sessions == old(self)@.sessions.remove_keys(
                    ids.take(i as int).to_set().filter(dead),
                ),
        {
            let ghost id = ids[i as int];
            let ghost gone = ids.take(i as int).to_set().filter(dead);
            proof {
                reveal(Seq::filter);
                assert(ids.take(i + 1).drop_last() =~= ids.take(i as int));
                assert(ids.take(i + 1).last() == id);
                assert(id == keys@[i as int]@);
                assert(ids.to_set().contains(id));
                assert(!ids.take(i as int).contains(id)) by {
                    if ids.take(i as int).contains(id) {
                        let k = ids.take(i as int).index_of(id);
                        assert(ids[k] == id);
                    }
                }
                assert(ids.take(i + 1) =~= ids.take(i as int).push(id));
                assert(ids.take(i + 1).to_set() =~= ids.take(i as int).to_set().insert(id));
                assert(self@.sessions.contains_key(id));
            }
            let is_dead = match get_session(&self.sessions, keys[i].as_str()) {
                Some(e) => session_value(&e).all_dead(now),
                None => false,
            };
            let ghost before = self@;
            let ghost table = *self;
            assert(!gone.contains(id));
            assert(before.sessions[id] == old(self)@.sessions[id]);
            assert(is_dead == dead(id));
            if is_dead {
                let _ = remove_session(&mut self.sessions, keys[i].as_str());
                count = count + 1;
                assert(self@.sessions =~= before.sessions.remove(id));
            }
            assert(ids.take(i + 1).to_set().filter(dead) =~= if is_dead {
                gone.insert(id)
            } else {
                gone
            });
            assert(forall|sid: Seq<char>, role: Role|
                sid != id ==> #[trigger] self.signal(sid, role) == table.signal(sid, role));
            assert(self@.sessions =~= old(self)@.sessions.remove_keys(
                ids.take(i + 1).to_set().filter(dead),
            ));
        }
        proof {
            assert(ids.take(keys.len() as int) =~= ids);
            lemma_count_of_filter(ids, dead);
            assert(old(self)@.dead_sessions(now) =~= ids.to_set().filter(dead));
            assert(self@ =~= old(self)@.reaped(now));
        }
        count
    }

    fn wait_on(
        pending: &mut DashMap<(String, u64), Sender<CommandResult>>,
        session_id: &str,
        id: u64,
    ) -> (r: Receiver<CommandResult>)
        ensures
            waiters_of(*final(pending)).contains_key((session_id@, id)),
            receiver_of(waiters_of(*final(pending))[(session_id@, id)]) == r,
            waiters_of(*final(pending)) == waiters_of(*old(pending)).insert(
                (session_id@, id),
                waiters_of(*final(pending))[(session_id@, id)],
            ),
    {
        let (sender, receiver) = open_channel();
        insert_waiter(pending, session_id, id, sender);
        receiver
    }

    /// Registers an adapter that waits for the result of a command, in place of
    /// one that waits for it already. Returns the end on which it waits.
    pub fn register_pending(&mut self, session_id: &str, id: u64) -> (r: Receiver<CommandResult>)
        ensures
            final(self)@.pending.contains_key((session_id@, id)),
            receiver_of(final(self)@.pending[(session_id@, id)]) == r,
            final(self)@ == old(self)@.waiting(
                session_id@,
                id,
                final(self)@.pending[(session_id@, id)],
            ),
            forall|sid: Seq<char>, role: Role| #[trigger]
                final(self).signal(sid, role) == old(self).signal(sid, role),
    {
        let receiver = Self::wait_on(&mut self.pending, session_id, id);
        assert(self@ =~= old(self)@.waiting(
            session_id@,
            id,
            self@.pending[(session_id@, id)],
        ));
        receiver
    }

    /// Forgets the adapter that waits for the result of a command.
    pub fn cancel_pending(&mut self, session_id: &str, id: u64)
        ensures
            final(self)@ == old(self)@.settled(session_id@, id),
            old(self).keeps_signals(final(self)),
    {
        let _ = remove_waiter(&mut self.pending, session_id, id);
        assert(self@ =~= old(self)@.settled(session_id@, id));
    }

    /// Addresses a result to the adapter that waits for it, which waits no
    /// longer. `None` where nobody waits.
    pub fn address(&mut self, session_id: &str, result: CommandResult) -> (r: Option<Delivery>)
        ensures
            final(self)@ == old(self)@.settled(session_id@, result.id),
            old(self).keeps_signals(final(self)),
            match r {
                Some(d) => old(self)@.pending.contains_key((session_id@, result.id)) && d == (
                Delivery { sender: old(self)@.pending[(session_id@, result.id)], result }),
                None => !old(self)@.pending.contains_key((session_id@, result.id)),
            },
    {
        let taken = remove_waiter(&mut self.pending, session_id, result.id);
        assert(self@ =~= old(self)@.settled(session_id@, result.id));
        match taken {
            Some(sender) => Some(Delivery { sender, result }),
            None => None,
        }
    }

    /// Sends a result to the adapter that waits for it, which waits no longer.
    /// Returns the evidence of the sending, which says whether the adapter was
    /// reached, or `None` where nobody waits.
    pub fn complete(&mut self, session_id: &str, result: CommandResult) -> (r: Option<Sending>)
        ensures
            final(self)@ == old(self)@.settled(session_id@, result.id),
            old(self).keeps_signals(final(self)),
            match r {
                Some(s) => {
                    &&& old(self)@.pending.contains_key((session_id@, result.id))
                    &&& s.sender() == old(self)@.pending[(session_id@, result.id)]
                    &&& s.result() == result
                },
                None => !old(self)@.pending.contains_key((session_id@, result.id)),
            },
    {
        match self.address(session_id, result) {
            Some(delivery) => Some(send_result(delivery.sender, delivery.result)),
            None => None,
        }
    }
}

/// A sequence without repetitions has as many items with a property as its set.
proof fn lemma_count_of_filter(ids: Seq<Seq<char>>, f: spec_fn(Seq<char>) -> bool)
    requires
        ids.no_duplicates(),
    ensures
        ids.filter(f).len() == ids.to_set().filter(f).len(),
        ids.to_set().filter(f).finite(),
    decreases ids.len(),
{
    reveal(Seq::filter);
    if ids.len() == 0 {
        assert(ids.to_set().filter(f) =~= Set::<Seq<char>>::empty());
    } else {
        let rest = ids.drop_last();
        let x = ids.last();
        lemma_count_of_filter(rest, f);
        assert(!rest.contains(x)) by {
            if rest.contains(x) {
                let k = rest.index_of(x);
                assert(ids[k] == ids[ids.len() - 1]);
            }
        }
        assert(ids =~= rest.push(x));
        assert(ids.to_set() =~= rest.to_set().insert(x));
        if f(x) {
            assert(ids.to_set().filter(f) =~= rest.to_set().filter(f).insert(x));
        } else {
            assert(ids.to_set().filter(f) =~= rest.to_set().filter(f));
        }
    }
}

/// A poll leaves the registry well formed.
pub proof fn law_poll_keeps_well_formed(
    reg: RegistryState,
    id: Seq<char>,
    role: Role,
    now: u128,
)
    requires
        reg.wf(),
    ensures
        reg.polled(id, role, now).wf(),
{
    if reg.sessions.contains_key(id) {
        law_queue_stays_well_formed(reg.sessions[id].queue(role, now), now, arbitrary(), 0);
    }
}

/// A submitted command leaves the registry well formed.
pub proof fn law_submit_keeps_well_formed(
    reg: RegistryState,
    id: Seq<char>,
    cmd: Command,
    sender: Sender<CommandResult>,
    now: u128,
)
    requires
        reg.wf(),
        reg.sessions.contains_key(id),
    ensures
        reg.submitted(id, cmd, sender, now).wf(),
{
}

/// The removal of dead sessions leaves the registry well formed.
pub proof fn law_reap_keeps_well_formed(reg: RegistryState, now: u128)
    requires
        reg.wf(),
    ensures
        reg.reaped(now).wf(),
{
    vstd::set_lib::lemma_len_subset(reg.reaped(now).sessions.dom(), reg.sessions.dom());
}

/// A new registry is well formed, and a handshake, an acknowledgement and the
/// end of a wait leave it so.
pub proof fn law_registry_stays_well_formed(
    reg: RegistryState,
    hs: Handshake,
    id: Seq<char>,
    role: Role,
    cmd: u64,
    now: u128,
)
    requires
        reg.wf(),
    ensures
        RegistryState::empty().wf(),
        reg.upserted(hs, now).wf(),
        reg.acked(id, role, cmd, now).wf(),
        reg.settled(id, cmd).wf(),
{
}

} // verus!
