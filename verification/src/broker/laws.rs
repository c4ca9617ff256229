//! What holds of the broker as a whole.
use crate::adapter::resolve::{live, role_live};
use crate::broker::queue::elapsed;
use crate::broker::registry::{describes, RegistryState};
use crate::broker::routes::POLL_HOLD;
use crate::broker::session::{
    live_state, meta_of, SessionMeta, SessionState, DEAD_AFTER, STALE_AFTER,
};
use crate::broker::{
    binding_text, follows, no_free_port_text, BindOutcome, BindStep, BrokerState, PORT_FIRST,
    PORT_LAST,
};
use crate::protocol::{Command, CommandResult, Handshake, LiveState, Role, SessionInfo};
use tokio::sync::oneshot::Sender;
use vstd::prelude::*;

verus! {

/// The rank of a liveness, from dead to live.
pub open spec fn rank(s: LiveState) -> int {
    match s {
        LiveState::Dead => 0,
        LiveState::Stale => 1,
        LiveState::Live => 2,
    }
}

/// A role that stays silent never becomes more alive.
pub proof fn law_liveness_only_decays(sooner: u128, later: u128)
    requires
        sooner <= later,
    ensures
        rank(live_state(later)) <= rank(live_state(sooner)),
{
}

/// A second handshake without a name and a label erases neither, and what it
/// does say is taken over.
pub proof fn law_handshake_erases_nothing(meta: SessionMeta, hs: Handshake)
    ensures
        hs.place_name@.len() == 0 ==> meta.updated(hs).place_name == meta.place_name,
        hs.label is None ==> meta.updated(hs).label == meta.label,
        hs.place_name@.len() > 0 ==> meta.updated(hs).place_name == hs.place_name,
        hs.label is Some ==> meta.updated(hs).label == hs.label,
        meta.updated(hs).place_id == hs.place_id,
        meta.updated(hs).game_id == hs.game_id,
        meta.updated(hs).creator_id == hs.creator_id,
        meta.updated(hs).updated(hs) == meta.updated(hs),
        meta_of(hs).updated(hs) == meta_of(hs),
{
}

/// A handshake leaves the commands and the next id of its session, every other
/// role, every other session and every waiting adapter as they were.
pub proof fn law_handshake_keeps_commands(
    reg: RegistryState,
    hs: Handshake,
    now: u128,
    role: Role,
    id: Seq<char>,
)
    ensures
        reg.upserted(hs, now).pending == reg.pending,
        id != hs.session_id@ ==> reg.upserted(hs, now).sessions.contains_key(id)
            == reg.sessions.contains_key(id) && reg.upserted(hs, now).sessions[id]
            == reg.sessions[id],
        reg.sessions.contains_key(hs.session_id@) ==> {
            let before = reg.sessions[hs.session_id@];
            let after = reg.upserted(hs, now).sessions[hs.session_id@];
            &&& after.next_id == before.next_id
            &&& role != hs.role ==> after.queues.contains_key(role) == before.queues.contains_key(
                role,
            ) && after.queues[role] == before.queues[role]
            &&& before.queues.contains_key(hs.role) ==> after.queues[hs.role].undelivered
                == before.queues[hs.role].undelivered && after.queues[hs.role].inflight
                == before.queues[hs.role].inflight
        },
{
}

/// A session counts as live from a handshake until [`STALE_AFTER`] later.
pub proof fn law_greeted_is_live(reg: RegistryState, hs: Handshake, now: u128, later: u128)
    requires
        now <= later < now + STALE_AFTER,
    ensures
        reg.upserted(hs, now).live_sessions(later).contains(hs.session_id@),
{
    let session = reg.upserted(hs, now).sessions[hs.session_id@];
    assert(session.queues.contains_key(hs.role));
    assert(session.silence(hs.role, later) < STALE_AFTER);
    assert(session.has_live_role(later));
}

/// A session counts as live for as long as a poll of it is held open.
pub proof fn law_held_poll_keeps_session_live(
    reg: RegistryState,
    hs: Handshake,
    now: u128,
    later: u128,
)
    requires
        now <= later <= now + POLL_HOLD,
    ensures
        reg.upserted(hs, now).live_sessions(later).contains(hs.session_id@),
        !reg.upserted(hs, now).dead_sessions(later).contains(hs.session_id@),
{
    law_greeted_is_live(reg, hs, now, later);
    law_heard_of_is_not_reaped(reg.upserted(hs, now), hs.session_id@, hs.role, later);
}

/// A session with a role that was heard of within [`DEAD_AFTER`] is not removed.
pub proof fn law_heard_of_is_not_reaped(
    reg: RegistryState,
    id: Seq<char>,
    role: Role,
    now: u128,
)
    requires
        reg.sessions.contains_key(id),
        reg.sessions[id].queues.contains_key(role),
        reg.sessions[id].silence(role, now) < DEAD_AFTER,
    ensures
        reg.reaped(now).sessions.contains_key(id),
        reg.reaped(now).sessions[id] == reg.sessions[id],
{
    assert(!reg.sessions[id].all_dead(now));
}

/// The removal of dead sessions touches no live one, removes every dead one,
/// changes no waiting adapter, and has nothing left to do a second time.
pub proof fn law_reap_takes_the_dead(reg: RegistryState, now: u128)
    ensures
        reg.reaped(now).live_sessions(now) == reg.live_sessions(now),
        reg.reaped(now).dead_sessions(now) == Set::<Seq<char>>::empty(),
        reg.reaped(now).pending == reg.pending,
        reg.reaped(now).reaped(now) == reg.reaped(now),
{
    let after = reg.reaped(now);
    assert forall|id: Seq<char>| reg.live_sessions(now).contains(id) implies after.sessions.contains_key(
        id,
    ) by {
        let session = reg.sessions[id];
        let role = choose|role: Role| #[trigger]
            session.queues.contains_key(role) && session.silence(role, now) < STALE_AFTER;
        assert(session.queues.contains_key(role));
        assert(!session.all_dead(now));
    }
    assert(after.live_sessions(now) =~= reg.live_sessions(now));
    assert(after.dead_sessions(now) =~= Set::<Seq<char>>::empty());
    assert(after.reaped(now) =~= after);
}

/// An idle broker that shuts down leaves no live session behind.
pub proof fn law_shutdown_spares_live_sessions(
    st: BrokerState,
    limit: Option<u128>,
    now: u128,
    id: Seq<char>,
)
    requires
        st.registry.wf(),
        st.with_registry(st.registry.reaped(now)).is_idle(limit, now),
    ensures
        limit is Some,
        elapsed(now, st.last_activity) >= limit->0,
        st.registry.sessions.contains_key(id) ==> !st.registry.sessions[id].has_live_role(now),
{
    law_reap_takes_the_dead(st.registry, now);
    let live = st.registry.live_sessions(now);
    assert(live.finite()) by {
        vstd::set_lib::lemma_len_subset(live, st.registry.sessions.dom());
    }
    if st.registry.sessions.contains_key(id) && st.registry.sessions[id].has_live_role(now) {
        assert(live.contains(id));
        assert(live.len() > 0);
    }
}

/// A command enters the queue of its role in its session and no other queue.
pub proof fn law_command_reaches_only_its_role(
    reg: RegistryState,
    id: Seq<char>,
    cmd: Command,
    sender: Sender<CommandResult>,
    now: u128,
    other: Seq<char>,
    role: Role,
)
    requires
        reg.sessions.contains_key(id),
    ensures
        reg.submitted(id, cmd, sender, now).sessions.dom() == reg.sessions.dom(),
        other != id ==> reg.submitted(id, cmd, sender, now).sessions[other] == reg.sessions[other],
        role != cmd.target_role ==> reg.submitted(id, cmd, sender, now).sessions[id].queues.contains_key(
            role,
        ) == reg.sessions[id].queues.contains_key(role) && reg.submitted(
            id,
            cmd,
            sender,
            now,
        ).sessions[id].queues[role] == reg.sessions[id].queues[role],
        reg.submitted(id, cmd, sender, now).sessions[id].queues[cmd.target_role].undelivered
            == reg.sessions[id].queue(cmd.target_role, now).undelivered.push(cmd),
{
    assert(reg.submitted(id, cmd, sender, now).sessions.dom() =~= reg.sessions.dom());
}

/// A poll and an acknowledgement of a role touch no other role of the session
/// and no other session.
pub proof fn law_roles_are_apart(
    reg: RegistryState,
    id: Seq<char>,
    role: Role,
    cmd: u64,
    now: u128,
    other: Seq<char>,
    other_role: Role,
)
    requires
        reg.sessions.contains_key(id),
    ensures
        reg.polled(id, role, now).sessions.dom() == reg.sessions.dom(),
        reg.acked(id, role, cmd, now).sessions.dom() == reg.sessions.dom(),
        other != id ==> reg.polled(id, role, now).sessions[other] == reg.sessions[other],
        other != id ==> reg.acked(id, role, cmd, now).sessions[other] == reg.sessions[other],
        other_role != role ==> {
            let before = reg.sessions[id].queues;
            let polled = reg.polled(id, role, now).sessions[id].queues;
            let acked = reg.acked(id, role, cmd, now).sessions[id].queues;
            &&& polled.contains_key(other_role) == before.contains_key(other_role)
            &&& polled[other_role] == before[other_role]
            &&& acked.contains_key(other_role) == before.contains_key(other_role)
            &&& acked[other_role] == before[other_role]
        },
{
    assert(reg.polled(id, role, now).sessions.dom() =~= reg.sessions.dom());
    assert(reg.acked(id, role, cmd, now).sessions.dom() =~= reg.sessions.dom());
}

/// Handshakes, polls, acknowledgements, the removal of dead sessions and the
/// commands of others leave a waiting adapter waiting on the same channel.
pub proof fn law_waiting_is_kept(
    reg: RegistryState,
    id: Seq<char>,
    cmd: u64,
    hs: Handshake,
    other: Seq<char>,
    role: Role,
    other_cmd: Command,
    sender: Sender<CommandResult>,
    now: u128,
)
    requires
        reg.pending.contains_key((id, cmd)),
        (other, other_cmd.id) != (id, cmd),
    ensures
        reg.upserted(hs, now).pending == reg.pending,
        reg.polled(other, role, now).pending == reg.pending,
        reg.acked(other, role, other_cmd.id, now).pending == reg.pending,
        reg.reaped(now).pending == reg.pending,
        reg.submitted(other, other_cmd, sender, now).pending.contains_key((id, cmd)),
        reg.submitted(other, other_cmd, sender, now).pending[(id, cmd)] == reg.pending[(id, cmd)],
        reg.settled(other, other_cmd.id).pending.contains_key((id, cmd)),
        reg.settled(other, other_cmd.id).pending[(id, cmd)] == reg.pending[(id, cmd)],
{
}

/// A result that comes a second time, or after the adapter gave up, finds
/// nobody waiting and changes nothing.
pub proof fn law_result_counts_once(reg: RegistryState, id: Seq<char>, cmd: u64)
    ensures
        !reg.settled(id, cmd).pending.contains_key((id, cmd)),
        reg.settled(id, cmd).settled(id, cmd) == reg.settled(id, cmd),
{
    assert(reg.settled(id, cmd).settled(id, cmd) =~= reg.settled(id, cmd));
}

/// The listing of a session says that a role is live exactly where the broker
/// counts it as live.
pub proof fn law_listing_agrees_on_liveness(info: SessionInfo, s: SessionState, now: u128)
    requires
        describes(info, s, now),
    ensures
        live(info) <==> s.has_live_role(now),
        forall|role: Role| #[trigger]
            role_live(info, role) <==> s.queues.contains_key(role) && s.silence(role, now)
                < STALE_AFTER,
{
    let a = s.listed_role(Role::Client, now);
    let b = s.listed_role(Role::Plugin, now);
    let c = s.listed_role(Role::Server, now);
    let all = s.role_infos(now);
    assert forall|role: Role| #[trigger] role_live(info, role) <==> s.queues.contains_key(role)
        && s.silence(role, now) < STALE_AFTER by {
        if role_live(info, role) {
            let i = choose|i: int|
                0 <= i < info.roles@.len() && (#[trigger] info.roles@[i]).role == role
                    && info.roles@[i].state == LiveState::Live;
            assert(all[i] == s.role_info(role, now));
        }
        if s.queues.contains_key(role) && s.silence(role, now) < STALE_AFTER {
            let i: int = match role {
                Role::Client => 0,
                Role::Plugin => a.len() as int,
                Role::Server => (a.len() + b.len()) as int,
            };
            assert(all[i] == s.role_info(role, now));
            assert(info.roles@[i].role == role);
        }
    }
    if live(info) {
        let i = choose|i: int|
            0 <= i < info.roles@.len() && (#[trigger] info.roles@[i]).state == LiveState::Live;
        let role = info.roles@[i].role;
        assert(role_live(info, role));
        assert(s.queues.contains_key(role));
    }
    if s.has_live_role(now) {
        let role = choose|role: Role| #[trigger]
            s.queues.contains_key(role) && s.silence(role, now) < STALE_AFTER;
        assert(role_live(info, role));
        let i = choose|i: int|
            0 <= i < info.roles@.len() && (#[trigger] info.roles@[i]).role == role
                && info.roles@[i].state == LiveState::Live;
        assert(info.roles@[i].state == LiveState::Live);
    }
}

/// The last port that is tried, if the search starts at `port` and the attempt
/// on each port ends as `outcomes` says.
pub open spec fn settled_port(outcomes: Map<u16, BindOutcome>, port: u16) -> u16
    decreases PORT_LAST - port,
{
    if outcomes[port] is InUse && port < PORT_LAST {
        settled_port(outcomes, (port + 1) as u16)
    } else {
        port
    }
}

/// The broker serves on the first port of the range that it can bind, it tries
/// no port after one that fails otherwise, and it gives up only when every port
/// is in use.
pub proof fn law_first_free_port_is_served(
    outcomes: Map<u16, BindOutcome>,
    start: u16,
    step: BindStep,
)
    requires
        PORT_FIRST <= start <= PORT_LAST,
        follows(
            settled_port(outcomes, start),
            outcomes[settled_port(outcomes, start)],
            step,
        ),
    ensures
        start <= settled_port(outcomes, start) <= PORT_LAST,
        forall|p: u16|
            start <= p < settled_port(outcomes, start) ==> (#[trigger] outcomes[p]) is InUse,
        !(step is Try),
        step matches BindStep::Serve(p) ==> p == settled_port(outcomes, start) && outcomes[p]
            is Bound,
        step matches BindStep::GiveUp(m) ==> m@ == no_free_port_text() && forall|p: u16|
            start <= p <= PORT_LAST ==> (#[trigger] outcomes[p]) is InUse,
        step matches BindStep::Fail(m) ==> m@ == binding_text(settled_port(outcomes, start)),
    decreases PORT_LAST - start,
{
    if outcomes[start] is InUse && start < PORT_LAST {
        law_first_free_port_is_served(outcomes, (start + 1) as u16, step);
    }
}

} // verus!
