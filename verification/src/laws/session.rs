//! What the operations on a session do.
use crate::broker::session::{state_for, Session, SessionMeta, STALE_AFTER};
use crate::broker::signal::Wake;
use crate::protocol::{Command, Handshake, LiveState, Role, RoleInfo};
use std::sync::Arc;
use tokio::sync::Notify;
use vstd::prelude::*;

verus! {

/// A role is live for forty seconds after it was heard of, then stale until two
/// minutes have passed, and then dead.
pub proof fn law_liveness_by_silence(ago: u128, r: LiveState)
    requires
        call_ensures(state_for, (ago,), r),
    ensures
        r == LiveState::Live <==> ago < 40_000_000_000,
        r == LiveState::Stale <==> 40_000_000_000 <= ago < 120_000_000_000,
        r == LiveState::Dead <==> 120_000_000_000 <= ago,
{
}

/// A first handshake is taken over whole.
pub proof fn law_first_handshake(hs: &Handshake, r: SessionMeta)
    requires
        call_ensures(SessionMeta::from_handshake, (hs,), r),
    ensures
        r.place_id == hs.place_id,
        r.game_id == hs.game_id,
        r.place_name == hs.place_name,
        r.creator_id == hs.creator_id,
        r.label == hs.label,
{
}

/// A further handshake is taken over, but for an empty name and a missing label.
pub proof fn law_further_handshake(meta: &mut SessionMeta, hs: &Handshake)
    requires
        call_ensures(SessionMeta::update_from, (meta, hs), ()),
    ensures
        final(meta).place_id == hs.place_id,
        final(meta).game_id == hs.game_id,
        final(meta).creator_id == hs.creator_id,
        hs.place_name@.len() > 0 ==> final(meta).place_name == hs.place_name,
        hs.place_name@.len() == 0 ==> final(meta).place_name == old(meta).place_name,
        hs.label is Some ==> final(meta).label == hs.label,
        hs.label is None ==> final(meta).label == old(meta).label,
{
}

/// A copy of what is known of a place is the same.
pub proof fn law_copied(meta: &SessionMeta, r: SessionMeta)
    requires
        call_ensures(SessionMeta::copied, (meta,), r),
    ensures
        r == *meta,
{
}

/// A new session knows what it is told, has no roles, and numbers from one.
pub proof fn law_new_session(meta: SessionMeta, r: Session)
    requires
        call_ensures(Session::new, (meta,), r),
    ensures
        r@.meta == meta,
        r@.next_id == 1,
        forall|role: Role| !(#[trigger] r@.queues.contains_key(role)),
{
}

/// A handshake changes what is known of the place and nothing else.
pub proof fn law_update_meta(s: &mut Session, hs: &Handshake)
    requires
        call_ensures(Session::update_meta, (s, hs), ()),
    ensures
        final(s)@.meta.place_id == hs.place_id,
        final(s)@.meta.game_id == hs.game_id,
        final(s)@.meta.creator_id == hs.creator_id,
        hs.place_name@.len() > 0 ==> final(s)@.meta.place_name == hs.place_name,
        hs.place_name@.len() == 0 ==> final(s)@.meta.place_name == old(s)@.meta.place_name,
        hs.label is Some ==> final(s)@.meta.label == hs.label,
        hs.label is None ==> final(s)@.meta.label == old(s)@.meta.label,
        final(s)@.next_id == old(s)@.next_id,
        final(s)@.queues == old(s)@.queues,
{
}

/// What is read of a session's place is what the session knows.
pub proof fn law_meta(s: &Session, r: &SessionMeta)
    requires
        call_ensures(Session::meta, (s,), r),
    ensures
        *r == s@.meta,
{
}

/// The numbers that a session gives out count up by one, and start again from
/// zero after the greatest.
pub proof fn law_next_id(s: &mut Session, r: u64)
    requires
        call_ensures(Session::next_id, (s,), r),
    ensures
        r == old(s)@.next_id,
        r < u64::MAX ==> final(s)@.next_id == r + 1,
        r == u64::MAX ==> final(s)@.next_id == 0,
        final(s)@.meta == old(s)@.meta,
        final(s)@.queues == old(s)@.queues,
{
}

/// A role that is asked for is there afterwards: as it was, or empty and heard
/// of now. Nothing else changes.
pub proof fn law_role_queue(s: &mut Session, role: Role, now: u128, r: Arc<Notify>)
    requires
        call_ensures(Session::role_queue, (s, role, now), r),
    ensures
        final(s)@.queues.contains_key(role),
        old(s)@.queues.contains_key(role) ==> final(s)@.queues[role] == old(s)@.queues[role],
        !old(s)@.queues.contains_key(role) ==> {
            &&& final(s)@.queues[role].last_seen == now
            &&& final(s)@.queues[role].undelivered.len() == 0
            &&& forall|k: u64| !(#[trigger] final(s)@.queues[role].inflight.contains_key(k))
        },
        forall|other: Role| #[trigger]
            final(s)@.queues.contains_key(other) && other != role ==> old(s)@.queues.contains_key(
                other,
            ) && final(s)@.queues[other] == old(s)@.queues[other],
        forall|other: Role| #[trigger]
            old(s)@.queues.contains_key(other) ==> final(s)@.queues.contains_key(other),
        final(s)@.meta == old(s)@.meta,
        final(s)@.next_id == old(s)@.next_id,
{
}

/// A role that is heard of was last seen now and keeps its commands. Nothing
/// else changes.
pub proof fn law_touch_role(s: &mut Session, role: Role, now: u128)
    requires
        call_ensures(Session::touch, (s, role, now), ()),
    ensures
        final(s)@.queues.contains_key(role),
        final(s)@.queues[role].last_seen == now,
        old(s)@.queues.contains_key(role) ==> final(s)@.queues[role].undelivered
            == old(s)@.queues[role].undelivered && final(s)@.queues[role].inflight
            == old(s)@.queues[role].inflight,
        !old(s)@.queues.contains_key(role) ==> final(s)@.queues[role].undelivered.len() == 0,
        forall|other: Role| #[trigger]
            final(s)@.queues.contains_key(other) && other != role ==> old(s)@.queues.contains_key(
                other,
            ) && final(s)@.queues[other] == old(s)@.queues[other],
        forall|other: Role| #[trigger]
            old(s)@.queues.contains_key(other) ==> final(s)@.queues.contains_key(other),
        final(s)@.meta == old(s)@.meta,
        final(s)@.next_id == old(s)@.next_id,
{
}

/// A command goes to the end of the queue of the role that it names, which is
/// given its signal. No other role changes.
pub proof fn law_enqueue_for_role(s: &mut Session, cmd: Command, now: u128, r: Wake)
    requires
        call_ensures(Session::enqueue, (s, cmd, now), r),
    ensures
        final(s)@.queues.contains_key(cmd.target_role),
        final(s)@.queues[cmd.target_role].undelivered.len() > 0,
        final(s)@.queues[cmd.target_role].undelivered.last() == cmd,
        old(s)@.queues.contains_key(cmd.target_role)
            ==> final(s)@.queues[cmd.target_role].undelivered.drop_last()
            == old(s)@.queues[cmd.target_role].undelivered
            && final(s)@.queues[cmd.target_role].inflight
            == old(s)@.queues[cmd.target_role].inflight
            && final(s)@.queues[cmd.target_role].last_seen
            == old(s)@.queues[cmd.target_role].last_seen,
        !old(s)@.queues.contains_key(cmd.target_role)
            ==> final(s)@.queues[cmd.target_role].undelivered == seq![cmd],
        forall|other: Role| #[trigger]
            final(s)@.queues.contains_key(other) && other != cmd.target_role
                ==> old(s)@.queues.contains_key(other) && final(s)@.queues[other]
                == old(s)@.queues[other],
        forall|other: Role| #[trigger]
            old(s)@.queues.contains_key(other) ==> final(s)@.queues.contains_key(other),
        final(s)@.meta == old(s)@.meta,
        final(s)@.next_id == old(s)@.next_id,
        final(s).signals().contains_key(cmd.target_role),
        r.signal() == final(s).signals()[cmd.target_role],
{
    let new = final(s)@.queues[cmd.target_role].undelivered;
    if old(s)@.queues.contains_key(cmd.target_role) {
        assert(new.drop_last() =~= old(s)@.queues[cmd.target_role].undelivered);
    } else {
        assert(new =~= seq![cmd]);
    }
}

/// A poll of a role and an acknowledgement by it do to the queue of that role,
/// which starts empty where it was not there, what they do to a queue alone. No
/// other role changes.
pub proof fn law_poll_and_ack_of_role(
    polled: &mut Session,
    acked: &mut Session,
    role: Role,
    id: u64,
    now: u128,
    batch: Vec<Command>,
)
    requires
        old(polled)@.wf(),
        call_ensures(Session::take_for_poll, (polled, role, now), batch),
        call_ensures(Session::ack, (acked, role, id, now), ()),
    ensures
        final(polled)@.queues.dom() == old(polled)@.queues.dom().insert(role),
        final(acked)@.queues.dom() == old(acked)@.queues.dom().insert(role),
        old(polled)@.queues.contains_key(role) ==> {
            &&& old(polled)@.queues[role].is_batch(now, batch@)
            &&& final(polled)@.queues[role] == old(polled)@.queues[role].polled(now)
        },
        !old(polled)@.queues.contains_key(role) ==> {
            &&& batch@.len() == 0
            &&& final(polled)@.queues[role].undelivered.len() == 0
            &&& final(polled)@.queues[role].last_seen == now
        },
        old(acked)@.queues.contains_key(role) ==> final(acked)@.queues[role] == old(acked)@.queues[role].acked(id),
        !old(acked)@.queues.contains_key(role) ==> {
            &&& final(acked)@.queues[role].undelivered.len() == 0
            &&& final(acked)@.queues[role].last_seen == now
        },
        forall|other: Role|
            #![trigger final(polled)@.queues[other]]
            other != role ==> final(polled)@.queues[other] == old(polled)@.queues[other],
        forall|other: Role|
            #![trigger final(acked)@.queues[other]]
            other != role ==> final(acked)@.queues[other] == old(acked)@.queues[other],
        final(polled)@.meta == old(polled)@.meta,
        final(polled)@.next_id == old(polled)@.next_id,
        final(acked)@.meta == old(acked)@.meta,
        final(acked)@.next_id == old(acked)@.next_id,
{
    assert(final(polled)@.queues.dom() =~= old(polled)@.queues.dom().insert(role));
    assert(final(acked)@.queues.dom() =~= old(acked)@.queues.dom().insert(role));
    if !old(polled)@.queues.contains_key(role) && batch@.len() > 0 {
        let q = old(polled)@.queue(role, now);
        assert(batch@.contains(batch@[0]));
        assert(q.owed(now, batch@[0].id) == Some(batch@[0]));
    }
    assert(Seq::<Command>::empty().filter(|c: Command| c.id != id).len() == 0) by {
        reveal(Seq::filter);
    }
}

/// A session lists each role that it has, once and by name, with the time since
/// it was heard of in milliseconds and the liveness that goes with it.
pub proof fn law_role_infos(s: &Session, now: u128, r: Vec<RoleInfo>)
    requires
        call_ensures(Session::role_infos, (s, now), r),
    ensures
        forall|role: Role| #[trigger]
            s@.queues.contains_key(role) <==> exists|i: int|
                0 <= i < r@.len() && (#[trigger] r@[i]).role == role,
        forall|i: int, j: int|
            #![trigger r@[i], r@[j]]
            0 <= i < j < r@.len() ==> match (r@[i].role, r@[j].role) {
                (Role::Client, Role::Plugin) => true,
                (Role::Client, Role::Server) => true,
                (Role::Plugin, Role::Server) => true,
                _ => false,
            },
        forall|i: int|
            0 <= i < r@.len() ==> {
                let seen = s@.queues[(#[trigger] r@[i]).role].last_seen;
                let ago: int = if seen <= now {
                    now - seen
                } else {
                    0
                };
                &&& r@[i].state == LiveState::Live <==> ago < 40_000_000_000
                &&& r@[i].state == LiveState::Dead <==> ago >= 120_000_000_000
                &&& r@[i].last_seen_ms == (ago / 1_000_000) as u64
            },
{
    let c = s@.listed_role(Role::Client, now);
    let p = s@.listed_role(Role::Plugin, now);
    let v = s@.listed_role(Role::Server, now);
    assert forall|role: Role| #[trigger] s@.queues.contains_key(role) implies exists|i: int|
        0 <= i < r@.len() && (#[trigger] r@[i]).role == role by {
        let i: int = match role {
            Role::Client => 0,
            Role::Plugin => c.len() as int,
            Role::Server => (c.len() + p.len()) as int,
        };
        assert(r@[i].role == role);
    }
}

/// A session has a live role where one was heard of less than forty seconds ago,
/// and is dead where each was heard of two minutes ago or more.
pub proof fn law_session_liveness(s: &Session, now: u128, live: bool, dead: bool)
    requires
        call_ensures(Session::has_live_role, (s, now), live),
        call_ensures(Session::all_dead, (s, now), dead),
    ensures
        live <==> exists|role: Role| #[trigger]
            s@.queues.contains_key(role) && now - s@.queues[role].last_seen < 40_000_000_000,
        dead <==> forall|role: Role| #[trigger]
            s@.queues.contains_key(role) ==> now - s@.queues[role].last_seen >= 120_000_000_000,
{
    if live {
        let role = choose|role: Role| #[trigger]
            s@.queues.contains_key(role) && s@.silence(role, now)
                < STALE_AFTER;
        assert(s@.queues.contains_key(role));
    }
    if exists|role: Role| #[trigger]
        s@.queues.contains_key(role) && now - s@.queues[role].last_seen < 40_000_000_000 {
        let role = choose|role: Role| #[trigger]
            s@.queues.contains_key(role) && now - s@.queues[role].last_seen < 40_000_000_000;
        assert(s@.queues.contains_key(role));
    }
}

} // verus!
