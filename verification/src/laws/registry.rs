//! What the operations on the registry do.
use crate::broker::channel::{reached_anyone, receiver_of, Sending};
use crate::broker::queue::QueueState;
use crate::broker::registry::{Delivery, Registry, RegistryState, Submission};
use crate::broker::session::{Session, SessionState, STALE_AFTER};
use crate::broker::table::guarded_session;
use crate::protocol::{Command, CommandResult, Handshake, Role, SessionInfo};
use dashmap::mapref::one::Ref;
use serde_json::Value;
use std::sync::Arc;
use tokio::sync::oneshot::Receiver;
use tokio::sync::Notify;
use vstd::prelude::*;

verus! {

/// A new registry has no sessions, and nobody waits.
pub proof fn law_new_registry(r: Registry)
    requires
        call_ensures(Registry::new, (), r),
    ensures
        forall|id: Seq<char>| !(#[trigger] r@.sessions.contains_key(id)),
        forall|key: (Seq<char>, u64)| !(#[trigger] r@.pending.contains_key(key)),
{
}

/// After a handshake the registry has the session with what the handshake says
/// of the place, known or not; an empty name and a missing label leave those of
/// a session that was known.
pub proof fn law_handshake_is_taken_over(
    reg: &mut Registry,
    hs: &Handshake,
    now: u128,
    r: Arc<Notify>,
)
    requires
        call_ensures(Registry::upsert, (reg, hs, now), r),
    ensures
        final(reg)@.sessions.contains_key(hs.session_id@),
        ({
            let meta = final(reg)@.sessions[hs.session_id@].meta;
            let known = old(reg)@.sessions.contains_key(hs.session_id@);
            let before = old(reg)@.sessions[hs.session_id@].meta;
            &&& meta.place_id == hs.place_id
            &&& meta.game_id == hs.game_id
            &&& meta.creator_id == hs.creator_id
            &&& hs.place_name@.len() > 0 || !known ==> meta.place_name == hs.place_name
            &&& hs.place_name@.len() == 0 && known ==> meta.place_name == before.place_name
            &&& hs.label is Some || !known ==> meta.label == hs.label
            &&& hs.label is None && known ==> meta.label == before.label
        }),
{
}

/// A handshake opens the session and the role of its sender, or refreshes them:
/// the role was heard of now, its commands stay, a session that was known keeps
/// its numbers and its other roles, and a new one numbers from one. The poll
/// waits on the signal of the role. Nothing else changes.
pub proof fn law_handshake_refreshes_its_role(
    reg: &mut Registry,
    hs: &Handshake,
    now: u128,
    other: Seq<char>,
    r: Arc<Notify>,
)
    requires
        call_ensures(Registry::upsert, (reg, hs, now), r),
    ensures
        ({
            let known = old(reg)@.sessions.contains_key(hs.session_id@);
            let before = old(reg)@.sessions[hs.session_id@];
            let after = final(reg)@.sessions[hs.session_id@];
            &&& after.queues.contains_key(hs.role)
            &&& after.queues[hs.role].last_seen == now
            &&& known && before.queues.contains_key(hs.role) ==> after.queues[hs.role].undelivered
                == before.queues[hs.role].undelivered && after.queues[hs.role].inflight
                == before.queues[hs.role].inflight
            &&& !known || !before.queues.contains_key(hs.role) ==> after.queues[hs.role]
                == QueueState::fresh(now)
            &&& known ==> after.next_id == before.next_id
            &&& !known ==> after.next_id == 1
            &&& forall|role: Role| #[trigger]
                after.queues.contains_key(role) && role != hs.role ==> known
                    && before.queues.contains_key(role) && after.queues[role] == before.queues[role]
            &&& known ==> forall|role: Role| #[trigger]
                before.queues.contains_key(role) ==> after.queues.contains_key(role)
        }),
        other != hs.session_id@ ==> (final(reg)@.sessions.contains_key(other)
            <==> old(reg)@.sessions.contains_key(other)),
        other != hs.session_id@ ==> final(reg)@.sessions[other] == old(reg)@.sessions[other],
        final(reg)@.pending == old(reg)@.pending,
        final(reg).signal(hs.session_id@, hs.role) == Some(*r),
{
}

/// The session of an id is found where it is there.
pub proof fn law_session_is_found(
    reg: &Registry,
    session_id: &str,
    r: Option<Ref<'_, String, Session>>,
)
    requires
        call_ensures(Registry::get, (reg, session_id), r),
    ensures
        r is Some <==> reg@.sessions.contains_key(session_id@),
        r is Some ==> guarded_session(r->0)@ == reg@.sessions[session_id@],
{
}

/// A poll and an acknowledgement reach the queue of their role in their session
/// alone, which starts empty where it was not there; without the session they do
/// nothing.
pub proof fn law_poll_and_ack_reach_one_queue(
    polled: &mut Registry,
    acked: &mut Registry,
    session_id: &str,
    role: Role,
    id: u64,
    now: u128,
    batch: Vec<Command>,
    other: Seq<char>,
    other_role: Role,
)
    requires
        old(polled)@.wf(),
        call_ensures(Registry::take_for_poll, (polled, session_id, role, now), batch),
        call_ensures(Registry::ack, (acked, session_id, role, id, now), ()),
    ensures
        final(polled)@.pending == old(polled)@.pending,
        final(acked)@.pending == old(acked)@.pending,
        final(polled)@.sessions.dom() == old(polled)@.sessions.dom(),
        final(acked)@.sessions.dom() == old(acked)@.sessions.dom(),
        !old(polled)@.sessions.contains_key(session_id@) ==> batch@.len() == 0 && final(polled)@
            == old(polled)@,
        !old(acked)@.sessions.contains_key(session_id@) ==> final(acked)@ == old(acked)@,
        old(polled)@.sessions.contains_key(session_id@) ==> {
            let before = old(polled)@.sessions[session_id@];
            let after = final(polled)@.sessions[session_id@];
            let queue = if before.queues.contains_key(role) {
                before.queues[role]
            } else {
                QueueState::fresh(now)
            };
            &&& queue.is_batch(now, batch@)
            &&& after.queues == before.queues.insert(role, queue.polled(now))
            &&& after.meta == before.meta
            &&& after.next_id == before.next_id
        },
        old(acked)@.sessions.contains_key(session_id@) ==> {
            let before = old(acked)@.sessions[session_id@];
            let after = final(acked)@.sessions[session_id@];
            let queue = if before.queues.contains_key(role) {
                before.queues[role]
            } else {
                QueueState::fresh(now)
            };
            &&& after.queues == before.queues.insert(role, queue.acked(id))
            &&& after.meta == before.meta
            &&& after.next_id == before.next_id
        },
        other != session_id@ ==> final(polled)@.sessions[other] == old(polled)@.sessions[other],
        other != session_id@ ==> final(acked)@.sessions[other] == old(acked)@.sessions[other],
{
    assert(final(polled)@.sessions.dom() =~= old(polled)@.sessions.dom());
    assert(final(acked)@.sessions.dom() =~= old(acked)@.sessions.dom());
}

/// A command that is submitted to a session gets the session's next number, is
/// the last in the queue of its role as it was given, and is waited for on the
/// channel that is handed out; the role is given its signal. Without the session
/// nothing happens.
pub proof fn law_submit(
    reg: &mut Registry,
    session_id: &str,
    tool: String,
    args: Value,
    role: Role,
    now: u128,
    r: Option<Submission>,
    other: Seq<char>,
    key: (Seq<char>, u64),
)
    requires
        call_ensures(Registry::submit, (reg, session_id, tool, args, role, now), r),
    ensures
        r is Some <==> old(reg)@.sessions.contains_key(session_id@),
        r is None ==> final(reg)@ == old(reg)@,
        r is Some ==> {
            let before = old(reg)@.sessions[session_id@];
            let after = final(reg)@.sessions[session_id@];
            let n = before.next_id;
            let had = if before.queues.contains_key(role) {
                before.queues[role]
            } else {
                QueueState::fresh(now)
            };
            &&& r->0.id == n
            &&& n < u64::MAX ==> after.next_id == n + 1
            &&& n == u64::MAX ==> after.next_id == 0
            &&& after.meta == before.meta
            &&& after.queues.contains_key(role)
            &&& after.queues[role].undelivered == had.undelivered.push(
                Command { id: n, tool, args, target_role: role },
            )
            &&& after.queues[role].inflight == had.inflight
            &&& after.queues[role].last_seen == had.last_seen
            &&& forall|x: Role| #[trigger]
                after.queues.contains_key(x) && x != role ==> before.queues.contains_key(x)
                    && after.queues[x] == before.queues[x]
            &&& forall|x: Role| #[trigger]
                before.queues.contains_key(x) ==> after.queues.contains_key(x)
            &&& final(reg)@.pending.contains_key((session_id@, n))
            &&& receiver_of(final(reg)@.pending[(session_id@, n)]) == r->0.receiver
            &&& final(reg).signal(session_id@, role) == Some(r->0.wake.signal())
        },
        r is Some && key != (session_id@, r->0.id) ==> (final(reg)@.pending.contains_key(key)
            <==> old(reg)@.pending.contains_key(key)),
        r is Some && key != (session_id@, r->0.id) ==> final(reg)@.pending[key]
            == old(reg)@.pending[key],
        final(reg)@.sessions.dom() == old(reg)@.sessions.dom(),
        other != session_id@ ==> final(reg)@.sessions[other] == old(reg)@.sessions[other],
{
    assert(final(reg)@.sessions.dom() =~= old(reg)@.sessions.dom());
}

/// The listing has every session once, with what is known of its place and with
/// its roles.
pub proof fn law_listing(reg: &Registry, now: u128, r: Vec<SessionInfo>)
    requires
        call_ensures(Registry::list, (reg, now), r),
    ensures
        forall|id: Seq<char>| #[trigger]
            reg@.sessions.contains_key(id) <==> exists|i: int|
                0 <= i < r@.len() && (#[trigger] r@[i]).session_id@ == id,
        forall|i: int, j: int|
            #![trigger r@[i], r@[j]]
            0 <= i < j < r@.len() ==> r@[i].session_id@ != r@[j].session_id@,
        forall|i: int|
            0 <= i < r@.len() ==> {
                let s = reg@.sessions[(#[trigger] r@[i]).session_id@];
                &&& r@[i].place_id == s.meta.place_id
                &&& r@[i].game_id == s.meta.game_id
                &&& r@[i].place_name == s.meta.place_name
                &&& r@[i].creator_id == s.meta.creator_id
                &&& r@[i].label == s.meta.label
                &&& r@[i].roles@ == s.role_infos(now)
            },
{
}

/// Whether a role of the session was heard of less than forty seconds ago.
pub open spec fn heard_lately(s: SessionState, now: u128) -> bool {
    exists|role: Role| #[trigger]
        s.queues.contains_key(role) && now - s.queues[role].last_seen < 40_000_000_000
}

/// Whether every role of the session was heard of two minutes ago or more.
pub open spec fn long_silent(s: SessionState, now: u128) -> bool {
    forall|role: Role| #[trigger]
        s.queues.contains_key(role) ==> now - s.queues[role].last_seen >= 120_000_000_000
}

/// Liveness as the registry sees it, by the time since each role was heard of.
pub proof fn lemma_liveness(s: SessionState, now: u128)
    ensures
        s.has_live_role(now) <==> heard_lately(s, now),
        s.all_dead(now) <==> long_silent(s, now),
{
    if s.has_live_role(now) {
        let role = choose|role: Role| #[trigger]
            s.queues.contains_key(role) && s.silence(role, now)
                < STALE_AFTER;
        assert(s.queues.contains_key(role));
    }
    if heard_lately(s, now) {
        let role = choose|role: Role| #[trigger]
            s.queues.contains_key(role) && now - s.queues[role].last_seen < 40_000_000_000;
        assert(s.queues.contains_key(role));
    }
}

/// The live sessions are those with a role that was heard of lately, each of
/// which is counted once.
pub proof fn law_live_sessions_are_counted(reg: &Registry, now: u128, r: usize)
    requires
        call_ensures(Registry::live_session_count, (reg, now), r),
    ensures
        r == reg@.sessions.dom().filter(|id: Seq<char>| heard_lately(reg@.sessions[id], now)).len(),
{
    let lately = reg@.sessions.dom().filter(
        |id: Seq<char>| heard_lately(reg@.sessions[id], now),
    );
    assert(reg@.live_sessions(now) =~= lately) by {
        assert forall|id: Seq<char>| reg@.live_sessions(now).contains(id) <==> lately.contains(
            id,
        ) by {
            lemma_liveness(reg@.sessions[id], now);
        }
    }
}

/// The removal of dead sessions, by the time since each role was heard of.
pub proof fn lemma_reaped(reg: RegistryState, now: u128, id: Seq<char>)
    ensures
        reg.reaped(now).sessions.contains_key(id) <==> reg.sessions.contains_key(id)
            && !long_silent(reg.sessions[id], now),
        reg.reaped(now).sessions.contains_key(id) ==> reg.reaped(now).sessions[id]
            == reg.sessions[id],
        reg.dead_sessions(now) == reg.sessions.dom().filter(
            |x: Seq<char>| long_silent(reg.sessions[x], now),
        ),
{
    lemma_liveness(reg.sessions[id], now);
    let silent = reg.sessions.dom().filter(|x: Seq<char>| long_silent(reg.sessions[x], now));
    assert(reg.dead_sessions(now) =~= silent) by {
        assert forall|x: Seq<char>| reg.dead_sessions(now).contains(x) <==> silent.contains(
            x,
        ) by {
            lemma_liveness(reg.sessions[x], now);
        }
    }
}

/// No session is live after the removal of the dead ones where none was before.
pub proof fn lemma_nobody_live(reg: RegistryState, now: u128)
    requires
        reg.wf(),
    ensures
        reg.reaped(now).live_sessions(now).len() == 0 <==> forall|x: Seq<char>| #[trigger]
            reg.sessions.contains_key(x) ==> !heard_lately(reg.sessions[x], now),
{
    let live = reg.reaped(now).live_sessions(now);
    vstd::set_lib::lemma_len_subset(live, reg.sessions.dom());
    assert forall|x: Seq<char>| live.contains(x) <==> reg.sessions.contains_key(x)
        && heard_lately(reg.sessions[x], now) by {
        lemma_reaped(reg, now, x);
        lemma_liveness(reg.sessions[x], now);
        if reg.sessions.contains_key(x) && heard_lately(reg.sessions[x], now) {
            let role = choose|role: Role| #[trigger]
                reg.sessions[x].queues.contains_key(role) && now
                    - reg.sessions[x].queues[role].last_seen < 40_000_000_000;
            assert(reg.sessions[x].queues.contains_key(role));
            assert(!long_silent(reg.sessions[x], now));
        }
    }
    if live.len() == 0 {
        assert forall|x: Seq<char>| #[trigger] reg.sessions.contains_key(x) implies !heard_lately(
            reg.sessions[x],
            now,
        ) by {
            if heard_lately(reg.sessions[x], now) {
                assert(live.contains(x));
            }
        }
    } else {
        let x = live.choose();
        assert(live.contains(x));
        assert(reg.sessions.contains_key(x));
    }
}

/// Exactly the sessions all of whose roles have been silent for two minutes are
/// removed, and they are counted. Every other session stays as it was, and so do
/// the waiting adapters.
pub proof fn law_reap(reg: &mut Registry, now: u128, r: usize, id: Seq<char>)
    requires
        call_ensures(Registry::reap, (reg, now), r),
    ensures
        final(reg)@.sessions.contains_key(id) <==> old(reg)@.sessions.contains_key(id)
            && !long_silent(old(reg)@.sessions[id], now),
        final(reg)@.sessions.contains_key(id) ==> final(reg)@.sessions[id] == old(reg)@.sessions[id],
        final(reg)@.pending == old(reg)@.pending,
        r == old(reg)@.sessions.dom().filter(
            |x: Seq<char>| long_silent(old(reg)@.sessions[x], now),
        ).len(),
{
    lemma_reaped(old(reg)@, now, id);
}

/// An adapter that registers waits under its key on the channel that is handed
/// out; one that is cancelled waits no longer. Everybody else and every session
/// stays.
pub proof fn law_register_and_cancel(
    registered: &mut Registry,
    cancelled: &mut Registry,
    session_id: &str,
    id: u64,
    r: Receiver<CommandResult>,
    key: (Seq<char>, u64),
)
    requires
        call_ensures(Registry::register_pending, (registered, session_id, id), r),
        call_ensures(Registry::cancel_pending, (cancelled, session_id, id), ()),
    ensures
        final(registered)@.pending.contains_key((session_id@, id)),
        receiver_of(final(registered)@.pending[(session_id@, id)]) == r,
        !final(cancelled)@.pending.contains_key((session_id@, id)),
        key != (session_id@, id) ==> {
            &&& final(registered)@.pending.contains_key(key)
                <==> old(registered)@.pending.contains_key(key)
            &&& final(registered)@.pending[key] == old(registered)@.pending[key]
            &&& final(cancelled)@.pending.contains_key(key)
                <==> old(cancelled)@.pending.contains_key(key)
            &&& final(cancelled)@.pending[key] == old(cancelled)@.pending[key]
        },
        final(registered)@.sessions == old(registered)@.sessions,
        final(cancelled)@.sessions == old(cancelled)@.sessions,
{
}

/// A result is addressed, and sent, to the adapter that waits under its key and
/// to no other, unchanged; that adapter waits no longer, and everybody else and
/// every session stays.
pub proof fn law_result_goes_to_who_waits(
    addressed: &mut Registry,
    completed: &mut Registry,
    session_id: &str,
    result: CommandResult,
    delivery: Option<Delivery>,
    sending: Option<Sending>,
    key: (Seq<char>, u64),
)
    requires
        call_ensures(Registry::address, (addressed, session_id, result), delivery),
        call_ensures(Registry::complete, (completed, session_id, result), sending),
    ensures
        delivery is Some <==> old(addressed)@.pending.contains_key((session_id@, result.id)),
        delivery is Some ==> delivery->0.result == result && delivery->0.sender == old(addressed)@.pending[(session_id@, result.id)],
        sending is Some <==> old(completed)@.pending.contains_key((session_id@, result.id)),
        sending is Some ==> sending->0.result() == result && sending->0.sender() == old(completed)@.pending[(session_id@, result.id)],
        !final(addressed)@.pending.contains_key((session_id@, result.id)),
        !final(completed)@.pending.contains_key((session_id@, result.id)),
        key != (session_id@, result.id) ==> {
            &&& final(addressed)@.pending.contains_key(key)
                <==> old(addressed)@.pending.contains_key(key)
            &&& final(addressed)@.pending[key] == old(addressed)@.pending[key]
            &&& final(completed)@.pending.contains_key(key)
                <==> old(completed)@.pending.contains_key(key)
            &&& final(completed)@.pending[key] == old(completed)@.pending[key]
        },
        final(addressed)@.sessions == old(addressed)@.sessions,
        final(completed)@.sessions == old(completed)@.sessions,
{
}

/// Somebody was reached where something was sent and its receiver was there.
pub proof fn law_reached_anyone(sending: Option<Sending>, r: bool)
    requires
        call_ensures(reached_anyone, (&sending,), r),
    ensures
        sending is None ==> !r,
        sending is Some ==> r == sending->0.has_reached(),
{
}

} // verus!
