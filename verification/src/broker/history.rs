//! What holds of the broker over every course of events.
//!
//! An [`Event`] is one step of a request handler or of the upkeep: the arrival
//! of a poll is a [`Event::Greet`], each look of it at its queue a
//! [`Event::Poll`], the arrival of a command a [`Event::Submit`], a posted
//! result an [`Event::Answer`], a wait whose time is up a [`Event::GiveUp`], and
//! a round of upkeep a [`Event::Reap`].
use crate::broker::queue::{
    elapsed, first_with_id, last_with_id, lemma_filter_by_id, lemma_first_found,
    lemma_first_iff_last, lemma_first_of_push, lemma_last_found, QueueState, REDELIVER_AFTER,
};
use crate::broker::registry::{
    law_poll_keeps_well_formed, law_reap_keeps_well_formed, law_registry_stays_well_formed,
    law_submit_keeps_well_formed, Registry, RegistryState,
};
use crate::broker::session::SessionState;
use crate::protocol::{Command, CommandResult, Handshake, Role};
use serde_json::Value;
use tokio::sync::oneshot::Sender;
use tokio::sync::Notify;
use vstd::prelude::*;

verus! {

/// One step of the broker, by session id.
pub enum Event {
    /// A poll arrives with its handshake.
    Greet { hs: Handshake, now: u128 },
    /// A poll looks at its queue.
    Poll { id: Seq<char>, role: Role, now: u128 },
    /// An adapter sends a command and waits on this channel.
    Submit {
        id: Seq<char>,
        tool: String,
        args: Value,
        role: Role,
        sender: Sender<CommandResult>,
        now: u128,
    },
    /// A role posts the result of a command.
    Answer { id: Seq<char>, role: Role, cmd: u64, now: u128 },
    /// An adapter waits no longer for a command.
    GiveUp { id: Seq<char>, cmd: u64 },
    /// The dead sessions are removed.
    Reap { now: u128 },
}

/// The command that an adapter's request becomes.
pub open spec fn numbered_command(
    reg: RegistryState,
    id: Seq<char>,
    tool: String,
    args: Value,
    role: Role,
) -> Command {
    Command { id: reg.sessions[id].next_id, tool, args, target_role: role }
}

/// The registry after an event.
pub open spec fn step(reg: RegistryState, e: Event) -> RegistryState {
    match e {
        Event::Greet { hs, now } => reg.upserted(hs, now),
        Event::Poll { id, role, now } => reg.polled(id, role, now),
        Event::Submit { id, tool, args, role, sender, now } => if reg.sessions.contains_key(id) {
            reg.submitted(id, numbered_command(reg, id, tool, args, role), sender, now)
        } else {
            reg
        },
        Event::Answer { id, role, cmd, now } => reg.acked(id, role, cmd, now).settled(id, cmd),
        Event::GiveUp { id, cmd } => reg.settled(id, cmd),
        Event::Reap { now } => reg.reaped(now),
    }
}

/// The registry after events, in their order.
pub open spec fn after(reg: RegistryState, events: Seq<Event>) -> RegistryState
    decreases events.len(),
{
    if events.len() == 0 {
        reg
    } else {
        step(after(reg, events.drop_last()), events.last())
    }
}

/// Whether the session is there all along.
pub open spec fn stays(reg: RegistryState, events: Seq<Event>, id: Seq<char>) -> bool
    decreases events.len(),
{
    &&& after(reg, events).sessions.contains_key(id)
    &&& events.len() > 0 ==> stays(reg, events.drop_last(), id)
}

proof fn lemma_step_well_formed(reg: RegistryState, e: Event)
    requires
        reg.wf(),
    ensures
        step(reg, e).wf(),
{
    match e {
        Event::Greet { hs, now } => {
            law_registry_stays_well_formed(reg, hs, hs.session_id@, hs.role, 0, now);
        },
        Event::Poll { id, role, now } => {
            law_poll_keeps_well_formed(reg, id, role, now);
        },
        Event::Submit { id, tool, args, role, sender, now } => {
            if reg.sessions.contains_key(id) {
                let cmd = numbered_command(reg, id, tool, args, role);
                law_submit_keeps_well_formed(reg, id, cmd, sender, now);
            }
        },
        Event::Answer { id, role, cmd, now } => {
            law_registry_stays_well_formed(reg, arbitrary(), id, role, cmd, now);
        },
        Event::GiveUp { id, cmd } => {},
        Event::Reap { now } => {
            law_reap_keeps_well_formed(reg, now);
        },
    }
}

/// A registry is well formed after any events.
pub proof fn law_always_well_formed(events: Seq<Event>)
    ensures
        after(RegistryState::empty(), events).wf(),
    decreases events.len(),
{
    if events.len() > 0 {
        law_always_well_formed(events.drop_last());
        lemma_step_well_formed(
            after(RegistryState::empty(), events.drop_last()),
            events.last(),
        );
    }
}

/// Whether every command of the queue of this role has the property.
pub open spec fn queue_has(q: QueueState, role: Role, p: spec_fn(Role, Command) -> bool) -> bool {
    &&& forall|i: int| 0 <= i < q.undelivered.len() ==> p(role, #[trigger] q.undelivered[i])
    &&& forall|k: u64| #[trigger]
        q.inflight.contains_key(k) ==> p(role, q.inflight[k].0)
}

/// Whether every command of the session has the property in the queue it is in.
pub open spec fn session_has(s: SessionState, p: spec_fn(Role, Command) -> bool) -> bool {
    forall|role: Role| #[trigger]
        s.queues.contains_key(role) ==> queue_has(s.queues[role], role, p)
}

proof fn lemma_queue_keeps(
    q: QueueState,
    role: Role,
    p: spec_fn(Role, Command) -> bool,
    id: u64,
    now: u128,
)
    requires
        queue_has(q, role, p),
    ensures
        queue_has(q.polled(now), role, p),
        queue_has(q.acked(id), role, p),
{
    let polled = q.polled(now);
    assert forall|k: u64| #[trigger] polled.inflight.contains_key(k) implies p(
        role,
        polled.inflight[k].0,
    ) by {
        lemma_last_found(q.undelivered, k);
        if last_with_id(q.undelivered, k) is Some {
            let c = last_with_id(q.undelivered, k)->0;
            let i = q.undelivered.index_of(c);
            assert(p(role, q.undelivered[i]));
        } else {
            assert(q.inflight.contains_key(k));
        }
    }
    let acked = q.acked(id);
    assert forall|i: int| 0 <= i < acked.undelivered.len() implies p(
        role,
        #[trigger] acked.undelivered[i],
    ) by {
        let c = acked.undelivered[i];
        assert(acked.undelivered.contains(c));
        q.undelivered.lemma_filter_contains_rev(|c: Command| c.id != id, c);
        let j = q.undelivered.index_of(c);
        assert(p(role, q.undelivered[j]));
    }
    assert forall|k: u64| #[trigger] acked.inflight.contains_key(k) implies p(
        role,
        acked.inflight[k].0,
    ) by {
        assert(q.inflight.contains_key(k));
    }
}

proof fn lemma_batch_has(
    q: QueueState,
    role: Role,
    p: spec_fn(Role, Command) -> bool,
    now: u128,
    batch: Seq<Command>,
)
    requires
        queue_has(q, role, p),
        q.is_batch(now, batch),
    ensures
        forall|i: int| 0 <= i < batch.len() ==> p(role, #[trigger] batch[i]),
{
    assert forall|i: int| 0 <= i < batch.len() implies p(role, #[trigger] batch[i]) by {
        let c = batch[i];
        assert(batch.contains(c));
        lemma_first_found(q.undelivered, c.id);
        if first_with_id(q.undelivered, c.id) is Some {
            let j = q.undelivered.index_of(c);
            assert(p(role, q.undelivered[j]));
        } else {
            assert(q.inflight.contains_key(c.id));
        }
    }
}

/// An event leaves the commands of a session with a property, if the command
/// that it adds has it.
proof fn lemma_step_keeps(
    reg: RegistryState,
    e: Event,
    id: Seq<char>,
    p: spec_fn(Role, Command) -> bool,
)
    requires
        reg.sessions.contains_key(id) ==> session_has(reg.sessions[id], p),
        e matches Event::Submit { id: sid, tool, args, role, .. } ==> sid == id
            && reg.sessions.contains_key(id) ==> p(
            role,
            numbered_command(reg, id, tool, args, role),
        ),
    ensures
        step(reg, e).sessions.contains_key(id) ==> session_has(step(reg, e).sessions[id], p),
{
    if step(reg, e).sessions.contains_key(id) {
        let new = step(reg, e).sessions[id];
        match e {
            Event::Greet { hs, now } => {
                assert forall|r: Role| #[trigger] new.queues.contains_key(r) implies queue_has(
                    new.queues[r],
                    r,
                    p,
                ) by {
                    if reg.sessions.contains_key(id) {
                        assert(session_has(reg.sessions[id], p));
                        if reg.sessions[id].queues.contains_key(r) {
                            assert(queue_has(reg.sessions[id].queues[r], r, p));
                        }
                    }
                }
            },
            Event::Poll { id: sid, role, now } => {
                assert forall|r: Role| #[trigger] new.queues.contains_key(r) implies queue_has(
                    new.queues[r],
                    r,
                    p,
                ) by {
                    let q = reg.sessions[id].queue(r, now);
                    assert(reg.sessions[id].queues.contains_key(r) ==> queue_has(q, r, p));
                    assert(queue_has(q, r, p) || !reg.sessions[id].queues.contains_key(r));
                    assert(queue_has(q, r, p));
                    lemma_queue_keeps(q, r, p, 0, now);
                }
            },
            Event::Submit { id: sid, tool, args, role, sender, now } => {
                assert forall|r: Role| #[trigger] new.queues.contains_key(r) implies queue_has(
                    new.queues[r],
                    r,
                    p,
                ) by {
                    let q = reg.sessions[id].queue(r, now);
                    assert(reg.sessions[id].queues.contains_key(r) ==> queue_has(q, r, p));
                    assert(queue_has(q, r, p));
                }
            },
            Event::Answer { id: sid, role, cmd, now } => {
                assert forall|r: Role| #[trigger] new.queues.contains_key(r) implies queue_has(
                    new.queues[r],
                    r,
                    p,
                ) by {
                    let q = reg.sessions[id].queue(r, now);
                    assert(reg.sessions[id].queues.contains_key(r) ==> queue_has(q, r, p));
                    assert(queue_has(q, r, p));
                    lemma_queue_keeps(q, r, p, cmd, now);
                }
            },
            Event::GiveUp { id: sid, cmd } => {},
            Event::Reap { now } => {},
        }
    }
}

/// Whether an adapter sent this command, but for its number, to the session.
pub open spec fn was_sent(events: Seq<Event>, id: Seq<char>, c: Command) -> bool {
    exists|i: int| 0 <= i < events.len() && sends(#[trigger] events[i], id, c)
}

/// Whether the event sends this command, but for its number, to the session.
pub open spec fn sends(e: Event, id: Seq<char>, c: Command) -> bool {
    e matches Event::Submit { id: sid, tool, args, role, .. } && sid == id && tool == c.tool
        && args == c.args && role == c.target_role
}

/// Whether every queue of the session holds commands for its own role alone.
pub open spec fn routed(s: SessionState) -> bool {
    session_has(s, |role: Role, c: Command| c.target_role == role)
}

proof fn lemma_routing(events: Seq<Event>, id: Seq<char>)
    ensures
        after(RegistryState::empty(), events).sessions.contains_key(id) ==> session_has(
            after(RegistryState::empty(), events).sessions[id],
            |role: Role, c: Command| c.target_role == role && was_sent(events, id, c),
        ),
    decreases events.len(),
{
    if events.len() > 0 {
        let front = events.drop_last();
        let e = events.last();
        let reg = after(RegistryState::empty(), front);
        let p = |role: Role, c: Command| c.target_role == role && was_sent(events, id, c);
        lemma_routing(front, id);
        assert forall|c: Command| was_sent(front, id, c) implies #[trigger] was_sent(
            events,
            id,
            c,
        ) by {
            let i = choose|i: int| 0 <= i < front.len() && sends(#[trigger] front[i], id, c);
            assert(sends(events[i], id, c));
        }
        if reg.sessions.contains_key(id) {
            assert(session_has(reg.sessions[id], p)) by {
                let s = reg.sessions[id];
                let was = |role: Role, c: Command| c.target_role == role && was_sent(front, id, c);
                assert(session_has(s, was));
                assert forall|r: Role| #[trigger] s.queues.contains_key(r) implies queue_has(
                    s.queues[r],
                    r,
                    p,
                ) by {
                    let q = s.queues[r];
                    assert(queue_has(q, r, was));
                    assert forall|i: int| 0 <= i < q.undelivered.len() implies p(
                        r,
                        #[trigger] q.undelivered[i],
                    ) by {
                        assert(was(r, q.undelivered[i]));
                    }
                    assert forall|k: u64| #[trigger] q.inflight.contains_key(k) implies p(
                        r,
                        q.inflight[k].0,
                    ) by {
                        assert(was(r, q.inflight[k].0));
                    }
                }
            }
        }
        if let Event::Submit { id: sid, tool, args, role, .. } = e {
            if sid == id {
                let c = numbered_command(reg, id, tool, args, role);
                assert(sends(events[events.len() - 1], id, c));
            }
        }
        lemma_step_keeps(reg, e, id, p);
    }
}

/// After any events every queue holds commands for its own role alone, and a
/// poll hands out nothing but commands that were sent to its session for its
/// role: no command crosses roles or sessions.
pub proof fn law_commands_stay_on_their_route(
    events: Seq<Event>,
    id: Seq<char>,
    role: Role,
    now: u128,
    batch: Seq<Command>,
)
    requires
        after(RegistryState::empty(), events).is_batch(id, role, now, batch),
    ensures
        after(RegistryState::empty(), events).sessions.contains_key(id) ==> routed(
            after(RegistryState::empty(), events).sessions[id],
        ),
        forall|i: int|
            0 <= i < batch.len() ==> (#[trigger] batch[i]).target_role == role && was_sent(
                events,
                id,
                batch[i],
            ),
{
    let reg = after(RegistryState::empty(), events);
    if reg.sessions.contains_key(id) {
        let s = reg.sessions[id];
        let p = |r: Role, c: Command| c.target_role == r && was_sent(events, id, c);
        lemma_routing(events, id);
        assert forall|r: Role| #[trigger] s.queues.contains_key(r) implies queue_has(
            s.queues[r],
            r,
            |x: Role, c: Command| c.target_role == x,
        ) by {
            let q = s.queues[r];
            assert(queue_has(q, r, p));
            assert forall|i: int| 0 <= i < q.undelivered.len() implies (
            #[trigger] q.undelivered[i]).target_role == r by {
                assert(p(r, q.undelivered[i]));
            }
            assert forall|k: u64| #[trigger] q.inflight.contains_key(k) implies q.inflight[
                k
            ].0.target_role == r by {
                assert(p(r, q.inflight[k].0));
            }
        }
        let q = s.queue(role, now);
        assert(s.queues.contains_key(role) ==> queue_has(q, role, p));
        assert(queue_has(q, role, p));
        lemma_batch_has(q, role, p, now, batch);
        assert forall|i: int| 0 <= i < batch.len() implies (#[trigger] batch[i]).target_role
            == role && was_sent(events, id, batch[i]) by {
            assert(p(role, batch[i]));
        }
    }
}

/// The ids of a session count up: after any events fewer than there are ids,
/// every command of a session has an id below the next one.
pub proof fn law_ids_count_up(events: Seq<Event>, id: Seq<char>)
    requires
        events.len() < u64::MAX - 1,
        after(RegistryState::empty(), events).sessions.contains_key(id),
    ensures
        1 <= after(RegistryState::empty(), events).sessions[id].next_id <= events.len() + 1,
        session_has(
            after(RegistryState::empty(), events).sessions[id],
            |role: Role, c: Command|
                c.id < after(RegistryState::empty(), events).sessions[id].next_id,
        ),
    decreases events.len(),
{
    if events.len() > 0 {
        let front = events.drop_last();
        let e = events.last();
        let reg = after(RegistryState::empty(), front);
        let new = step(reg, e);
        let n = new.sessions[id].next_id;
        let p = |role: Role, c: Command| c.id < n;
        if reg.sessions.contains_key(id) {
            law_ids_count_up(front, id);
            let s = reg.sessions[id];
            let was = |role: Role, c: Command|
                c.id < after(RegistryState::empty(), front).sessions[id].next_id;
            assert(s.next_id <= n);
            assert forall|r: Role| #[trigger] s.queues.contains_key(r) implies queue_has(
                s.queues[r],
                r,
                p,
            ) by {
                let q = s.queues[r];
                assert(queue_has(q, r, was));
                assert forall|i: int| 0 <= i < q.undelivered.len() implies p(
                    r,
                    #[trigger] q.undelivered[i],
                ) by {
                    assert(was(r, q.undelivered[i]));
                }
                assert forall|k: u64| #[trigger] q.inflight.contains_key(k) implies p(
                    r,
                    q.inflight[k].0,
                ) by {
                    assert(was(r, q.inflight[k].0));
                }
            }
        }
        lemma_step_keeps(reg, e, id, p);
    }
}

/// When the role first polls in these events.
pub open spec fn first_look(events: Seq<Event>, id: Seq<char>, role: Role) -> Option<u128>
    decreases events.len(),
{
    if events.len() == 0 {
        None
    } else if first_look(events.drop_last(), id, role) is Some {
        first_look(events.drop_last(), id, role)
    } else {
        match events.last() {
            Event::Poll { id: sid, role: r, now } => if sid == id && r == role {
                Some(now)
            } else {
                None
            },
            _ => None,
        }
    }
}

/// Whether the event is the result of this command, posted by this role.
pub open spec fn answers(e: Event, id: Seq<char>, role: Role, cmd: u64) -> bool {
    e matches Event::Answer { id: sid, role: r, cmd: n, .. } && sid == id && r == role && n == cmd
}

/// Whether the role posted the result of this command.
pub open spec fn was_answered(events: Seq<Event>, id: Seq<char>, role: Role, cmd: u64) -> bool {
    exists|i: int| 0 <= i < events.len() && answers(#[trigger] events[i], id, role, cmd)
}

/// Whether the event ends the wait for this command: a result of it, whoever
/// posted it, or the end of the adapter's patience.
pub open spec fn ends_wait(e: Event, id: Seq<char>, cmd: u64) -> bool {
    match e {
        Event::Answer { id: sid, cmd: n, .. } => sid == id && n == cmd,
        Event::GiveUp { id: sid, cmd: n } => sid == id && n == cmd,
        _ => false,
    }
}

/// Whether the wait for this command has ended.
pub open spec fn wait_is_over(events: Seq<Event>, id: Seq<char>, cmd: u64) -> bool {
    exists|i: int| 0 <= i < events.len() && ends_wait(#[trigger] events[i], id, cmd)
}

proof fn lemma_one_more(events: Seq<Event>, id: Seq<char>, role: Role, cmd: u64)
    requires
        events.len() > 0,
    ensures
        was_answered(events, id, role, cmd) <==> was_answered(events.drop_last(), id, role, cmd)
            || answers(events.last(), id, role, cmd),
        wait_is_over(events, id, cmd) <==> wait_is_over(events.drop_last(), id, cmd) || ends_wait(
            events.last(),
            id,
            cmd,
        ),
{
    let front = events.drop_last();
    let n = events.len() - 1;
    if was_answered(events, id, role, cmd) {
        let i = choose|i: int|
            0 <= i < events.len() && answers(#[trigger] events[i], id, role, cmd);
        if i < n {
            assert(answers(front[i], id, role, cmd));
        }
    }
    if was_answered(front, id, role, cmd) {
        let i = choose|i: int| 0 <= i < front.len() && answers(#[trigger] front[i], id, role, cmd);
        assert(answers(events[i], id, role, cmd));
    }
    if answers(events.last(), id, role, cmd) {
        assert(answers(events[n], id, role, cmd));
    }
    if wait_is_over(events, id, cmd) {
        let i = choose|i: int| 0 <= i < events.len() && ends_wait(#[trigger] events[i], id, cmd);
        if i < n {
            assert(ends_wait(front[i], id, cmd));
        }
    }
    if wait_is_over(front, id, cmd) {
        let i = choose|i: int| 0 <= i < front.len() && ends_wait(#[trigger] front[i], id, cmd);
        assert(ends_wait(events[i], id, cmd));
    }
    if ends_wait(events.last(), id, cmd) {
        assert(ends_wait(events[n], id, cmd));
    }
}

/// Whether no other command has the id of this one, and this one is in the
/// queue of its role if anywhere.
pub open spec fn alone(s: SessionState, cmd: Command) -> bool {
    session_has(s, |r: Role, c: Command| c.id == cmd.id ==> c == cmd && r == cmd.target_role)
}

/// Whether no command of the session has this id.
pub open spec fn absent(s: SessionState, id: u64) -> bool {
    session_has(s, |r: Role, c: Command| c.id != id)
}

/// Whether a command of this id waits in the queue for its first poll, or is in
/// flight since that poll.
pub open spec fn under_way(q: QueueState, id: u64, look: Option<u128>) -> bool {
    match look {
        None => first_with_id(q.undelivered, id) is Some,
        Some(since) => {
            &&& first_with_id(q.undelivered, id) is None
            &&& q.inflight.contains_key(id)
            &&& q.inflight[id].1 == since
        },
    }
}

/// Whether the event gives this number to a command of the session.
pub open spec fn numbers(reg: RegistryState, e: Event, id: Seq<char>, n: u64) -> bool {
    e matches Event::Submit { id: sid, .. } && sid == id && reg.sessions.contains_key(id)
        && reg.sessions[id].next_id == n
}

/// Whether one of the events gives this number to a command of the session.
pub open spec fn number_returns(
    reg: RegistryState,
    events: Seq<Event>,
    id: Seq<char>,
    n: u64,
) -> bool
    decreases events.len(),
{
    &&& events.len() > 0
    &&& {
        ||| number_returns(reg, events.drop_last(), id, n)
        ||| numbers(after(reg, events.drop_last()), events.last(), id, n)
    }
}

/// Whether one of the events opens the session again once it was removed.
pub open spec fn reopened(reg: RegistryState, events: Seq<Event>, id: Seq<char>) -> bool
    decreases events.len(),
{
    &&& events.len() > 0
    &&& {
        ||| reopened(reg, events.drop_last(), id)
        ||| {
            &&& !after(reg, events.drop_last()).sessions.contains_key(id)
            &&& events.last() matches Event::Greet { hs, .. } && hs.session_id@ == id
        }
    }
}

proof fn lemma_under_way(
    reg: RegistryState,
    e: Event,
    id: Seq<char>,
    role: Role,
    cmd: u64,
    look: Option<u128>,
)
    requires
        reg.sessions.contains_key(id),
        step(reg, e).sessions.contains_key(id),
        reg.sessions[id].queues.contains_key(role),
        under_way(reg.sessions[id].queues[role], cmd, look),
        !numbers(reg, e, id, cmd),
        !answers(e, id, role, cmd),
    ensures
        step(reg, e).sessions[id].queues.contains_key(role),
        under_way(
            step(reg, e).sessions[id].queues[role],
            cmd,
            if look is Some {
                look
            } else {
                first_look(seq![e], id, role)
            },
        ),
{
    let q = reg.sessions[id].queues[role];
    assert(seq![e].drop_last() =~= Seq::<Event>::empty());
    assert(seq![e].last() == e);
    assert(first_look(Seq::<Event>::empty(), id, role) is None);
    match e {
        Event::Greet { hs, now } => {},
        Event::Poll { id: sid, role: r, now } => {
            lemma_first_iff_last(q.undelivered, cmd);
            assert(first_with_id(Seq::<Command>::empty(), cmd) is None);
        },
        Event::Submit { id: sid, tool, args, role: r, sender, now } => {
            let new = numbered_command(reg, id, tool, args, r);
            lemma_first_of_push(q.undelivered, new, cmd);
        },
        Event::Answer { id: sid, role: r, cmd: n, now } => {
            lemma_filter_by_id(q.undelivered, n);
        },
        Event::GiveUp { id: sid, cmd: n } => {},
        Event::Reap { now } => {},
    }
}

proof fn lemma_first_look_extends(events: Seq<Event>, id: Seq<char>, role: Role)
    requires
        events.len() > 0,
    ensures
        first_look(events, id, role) == (if first_look(events.drop_last(), id, role) is Some {
            first_look(events.drop_last(), id, role)
        } else {
            first_look(seq![events.last()], id, role)
        }),
{
    let one = seq![events.last()];
    assert(one.drop_last() =~= Seq::<Event>::empty());
    assert(first_look(Seq::<Event>::empty(), id, role) is None);
}

/// A request for a command, by the session that it is sent to.
pub struct Request {
    /// The id of the session.
    pub id: Seq<char>,
    /// The name of the command.
    pub tool: String,
    /// Its arguments.
    pub args: Value,
    /// The role that carries it out.
    pub role: Role,
    /// The channel on which the adapter waits.
    pub sender: Sender<CommandResult>,
    /// When it arrives.
    pub now: u128,
}

impl Request {
    /// The arrival of the request.
    pub open spec fn arrival(self) -> Event {
        Event::Submit {
            id: self.id,
            tool: self.tool,
            args: self.args,
            role: self.role,
            sender: self.sender,
            now: self.now,
        }
    }

    /// The command that the request becomes.
    pub open spec fn command(self, reg: RegistryState) -> Command {
        numbered_command(reg, self.id, self.tool, self.args, self.role)
    }

    /// The key under which the adapter waits.
    pub open spec fn key(self, reg: RegistryState) -> (Seq<char>, u64) {
        (self.id, self.command(reg).id)
    }

    /// Whether the session is there, and no command of it has the number that the
    /// request is about to get.
    pub open spec fn is_welcome(self, reg: RegistryState) -> bool {
        &&& reg.wf()
        &&& reg.sessions.contains_key(self.id)
        &&& absent(reg.sessions[self.id], self.command(reg).id)
    }

    /// The registry once the request and then these events have come.
    pub open spec fn followed_by(self, reg: RegistryState, events: Seq<Event>) -> RegistryState {
        after(step(reg, self.arrival()), events)
    }

    /// Whether the session is there all along these events.
    pub open spec fn keeps_session(self, reg: RegistryState, events: Seq<Event>) -> bool {
        stays(step(reg, self.arrival()), events, self.id)
    }

    /// Whether the number of the command goes to no other command of the session
    /// in these events.
    pub open spec fn keeps_number(self, reg: RegistryState, events: Seq<Event>) -> bool {
        !number_returns(step(reg, self.arrival()), events, self.id, self.command(reg).id)
    }

    /// Whether a poll at this time, after these events, hands the command out: the
    /// session was there all along, the role has not posted the result, and the
    /// poll is the role's first one or comes at least [`REDELIVER_AFTER`] after
    /// that one.
    pub open spec fn is_handed_out(
        self,
        reg: RegistryState,
        events: Seq<Event>,
        now: u128,
    ) -> bool {
        &&& self.keeps_session(reg, events)
        &&& !was_answered(events, self.id, self.role, self.command(reg).id)
        &&& match first_look(events, self.id, self.role) {
            None => true,
            Some(since) => elapsed(now, since) >= REDELIVER_AFTER,
        }
    }
}

/// The state of a command once further events have come.
proof fn lemma_life(reg0: RegistryState, req: Request, events: Seq<Event>)
    requires
        req.is_welcome(reg0),
        req.keeps_number(reg0, events),
    ensures
        ({
            let cmd = req.command(reg0);
            let reg = req.followed_by(reg0, events);
            let s = reg.sessions[req.id];
            let here = req.keeps_session(reg0, events);
            let answered = was_answered(events, req.id, req.role, cmd.id);
            &&& reg.wf()
            &&& reg.sessions.contains_key(req.id) ==> alone(s, cmd)
            &&& reg.sessions.contains_key(req.id) && (!here || answered) ==> absent(s, cmd.id)
            &&& here && !answered ==> s.queues.contains_key(req.role) && under_way(
                s.queues[req.role],
                cmd.id,
                first_look(events, req.id, req.role),
            )
        }),
    decreases events.len(),
{
    let id = req.id;
    let role = req.role;
    let cmd = req.command(reg0);
    let start = step(reg0, req.arrival());
    let unique = |r: Role, c: Command| c.id == cmd.id ==> c == cmd && r == cmd.target_role;
    let gone = |r: Role, c: Command| c.id != cmd.id;
    if events.len() == 0 {
        let s = reg0.sessions[id];
        assert(session_has(s, unique)) by {
            assert forall|r: Role| #[trigger] s.queues.contains_key(r) implies queue_has(
                s.queues[r],
                r,
                unique,
            ) by {
                let q = s.queues[r];
                assert(queue_has(q, r, gone));
                assert forall|i: int| 0 <= i < q.undelivered.len() implies unique(
                    r,
                    #[trigger] q.undelivered[i],
                ) by {
                    assert(gone(r, q.undelivered[i]));
                }
                assert forall|k: u64| #[trigger] q.inflight.contains_key(k) implies unique(
                    r,
                    q.inflight[k].0,
                ) by {
                    assert(gone(r, q.inflight[k].0));
                }
            }
        }
        lemma_step_keeps(reg0, req.arrival(), id, unique);
        lemma_first_of_push(s.queue(role, req.now).undelivered, cmd, cmd.id);
        lemma_step_well_formed(reg0, req.arrival());
    } else {
        let front = events.drop_last();
        let e = events.last();
        let reg = after(start, front);
        lemma_life(reg0, req, front);
        lemma_step_well_formed(reg, e);
        lemma_one_more(events, id, role, cmd.id);
        lemma_step_keeps(reg, e, id, unique);
        lemma_first_look_extends(events, id, role);
        let here = stays(start, front, id);
        if !here || was_answered(front, id, role, cmd.id) {
            lemma_step_keeps(reg, e, id, gone);
        } else if !step(reg, e).sessions.contains_key(id) {
        } else if answers(e, id, role, cmd.id) {
            let s = reg.sessions[id];
            let new = step(reg, e).sessions[id];
            assert forall|r: Role| #[trigger] new.queues.contains_key(r) implies queue_has(
                new.queues[r],
                r,
                gone,
            ) by {
                let q = new.queues[r];
                assert(queue_has(q, r, unique));
                if r == role {
                    lemma_filter_by_id(s.queues[role].undelivered, cmd.id);
                    lemma_first_found(q.undelivered, cmd.id);
                }
                assert forall|i: int| 0 <= i < q.undelivered.len() implies gone(
                    r,
                    #[trigger] q.undelivered[i],
                ) by {
                    assert(unique(r, q.undelivered[i]));
                }
                assert forall|k: u64| #[trigger] q.inflight.contains_key(k) implies gone(
                    r,
                    q.inflight[k].0,
                ) by {
                    assert(unique(r, q.inflight[k].0));
                }
            }
        } else {
            lemma_under_way(reg, e, id, role, cmd.id, first_look(front, id, role));
        }
    }
}

/// A request that comes after any events finds its number free, and the number
/// goes to no other command of the session in what follows, as long as there are
/// fewer events than numbers and a session that is removed is not opened again.
pub proof fn law_number_is_not_reused(past: Seq<Event>, req: Request, events: Seq<Event>)
    requires
        after(RegistryState::empty(), past).sessions.contains_key(req.id),
        past.len() + events.len() < u64::MAX - 2,
        !reopened(
            step(after(RegistryState::empty(), past), req.arrival()),
            events,
            req.id,
        ),
    ensures
        req.is_welcome(after(RegistryState::empty(), past)),
        req.keeps_number(after(RegistryState::empty(), past), events),
{
    let reg = after(RegistryState::empty(), past);
    let s = reg.sessions[req.id];
    let n = req.command(reg).id;
    law_always_well_formed(past);
    law_ids_count_up(past, req.id);
    let below = |r: Role, c: Command|
        c.id < after(RegistryState::empty(), past).sessions[req.id].next_id;
    let gone = |r: Role, c: Command| c.id != n;
    assert forall|r: Role| #[trigger] s.queues.contains_key(r) implies queue_has(
        s.queues[r],
        r,
        gone,
    ) by {
        let q = s.queues[r];
        assert(queue_has(q, r, below));
        assert forall|i: int| 0 <= i < q.undelivered.len() implies gone(
            r,
            #[trigger] q.undelivered[i],
        ) by {
            assert(below(r, q.undelivered[i]));
        }
        assert forall|k: u64| #[trigger] q.inflight.contains_key(k) implies gone(
            r,
            q.inflight[k].0,
        ) by {
            assert(below(r, q.inflight[k].0));
        }
    }
    lemma_numbers_move_on(step(reg, req.arrival()), events, req.id, n);
}

proof fn lemma_numbers_move_on(
    start: RegistryState,
    events: Seq<Event>,
    id: Seq<char>,
    n: u64,
)
    requires
        start.sessions.contains_key(id),
        n < start.sessions[id].next_id,
        start.sessions[id].next_id + events.len() <= u64::MAX,
        !reopened(start, events, id),
    ensures
        !number_returns(start, events, id, n),
        after(start, events).sessions.contains_key(id) ==> n < after(
            start,
            events,
        ).sessions[id].next_id <= start.sessions[id].next_id + events.len(),
    decreases events.len(),
{
    if events.len() > 0 {
        lemma_numbers_move_on(start, events.drop_last(), id, n);
    }
}

/// An adapter that sent a command waits for it until the first of two things: a
/// result of the command is posted, or the adapter gives up. A result that comes
/// while it waits is addressed to the very channel that it waits on, whatever
/// happened in between, be it that the session was removed; and afterwards
/// nobody waits.
///
/// It holds as long as the number goes to no other command of the session.
pub proof fn law_adapter_waits_until_the_end(
    reg: RegistryState,
    req: Request,
    events: Seq<Event>,
)
    requires
        reg.sessions.contains_key(req.id),
        req.keeps_number(reg, events),
    ensures
        ({
            let pending = req.followed_by(reg, events).pending;
            if wait_is_over(events, req.id, req.command(reg).id) {
                !pending.contains_key(req.key(reg))
            } else {
                pending.contains_key(req.key(reg)) && pending[req.key(reg)] == req.sender
            }
        }),
    decreases events.len(),
{
    if events.len() > 0 {
        law_adapter_waits_until_the_end(reg, req, events.drop_last());
        lemma_one_more(events, req.id, req.role, req.command(reg).id);
    }
}

/// A command is handed out to the polls of its role in its session, as it was
/// sent and under an id of its own: to the first of them, and again to each one
/// that comes at least [`REDELIVER_AFTER`] after the first, until the role posts
/// its result or the session is removed. From then on it is handed out no more.
/// That the adapter gives up changes nothing here.
///
/// It holds as long as the number goes to no other command of the session.
pub proof fn law_command_is_handed_out_until_answered(
    reg: RegistryState,
    req: Request,
    events: Seq<Event>,
    polling: Role,
    later: u128,
    batch: Seq<Command>,
)
    requires
        req.is_welcome(reg),
        req.keeps_number(reg, events),
        req.followed_by(reg, events).is_batch(req.id, polling, later, batch),
    ensures
        forall|i: int|
            0 <= i < batch.len() && (#[trigger] batch[i]).id == req.command(reg).id ==> batch[i]
                == req.command(reg),
        batch.contains(req.command(reg)) <==> polling == req.role && req.is_handed_out(
            reg,
            events,
            later,
        ),
{
    let cmd = req.command(reg);
    let role = req.role;
    let end = req.followed_by(reg, events);
    let unique = |r: Role, c: Command| c.id == cmd.id ==> c == cmd && r == cmd.target_role;
    let gone = |r: Role, c: Command| c.id != cmd.id;
    lemma_life(reg, req, events);
    if end.sessions.contains_key(req.id) {
        let s = end.sessions[req.id];
        let q = s.queue(polling, later);
        assert(s.queues.contains_key(polling) ==> queue_has(q, polling, unique));
        assert(queue_has(q, polling, unique));
        lemma_batch_has(q, polling, unique, later, batch);
        assert forall|i: int|
            0 <= i < batch.len() && (#[trigger] batch[i]).id == cmd.id implies batch[i]
            == cmd by {
            assert(unique(polling, batch[i]));
        }
        if batch.contains(cmd) {
            let i = batch.index_of(cmd);
            assert(unique(polling, batch[i]));
        }
        if !req.keeps_session(reg, events) || was_answered(events, req.id, role, cmd.id) {
            assert(s.queues.contains_key(polling) ==> queue_has(q, polling, gone));
            assert(queue_has(q, polling, gone));
            lemma_batch_has(q, polling, gone, later, batch);
            if batch.contains(cmd) {
                let i = batch.index_of(cmd);
                assert(gone(polling, batch[i]));
            }
        } else if polling == role {
            lemma_first_found(q.undelivered, cmd.id);
            if first_look(events, req.id, role) is None {
                let c = first_with_id(q.undelivered, cmd.id)->0;
                let i = q.undelivered.index_of(c);
                assert(unique(role, q.undelivered[i]));
                assert(q.owed(later, cmd.id) == Some(cmd));
            } else {
                assert(q.inflight[cmd.id].0.id == cmd.id);
                assert(unique(role, q.inflight[cmd.id].0));
            }
        }
    }
}

proof fn lemma_number_stays_returned(
    reg: RegistryState,
    first: Seq<Event>,
    second: Seq<Event>,
    id: Seq<char>,
    n: u64,
)
    requires
        number_returns(reg, first, id, n),
    ensures
        number_returns(reg, first + second, id, n),
    decreases second.len(),
{
    if second.len() == 0 {
        assert(first + second =~= first);
    } else {
        lemma_number_stays_returned(reg, first, second.drop_last(), id, n);
        assert((first + second).drop_last() =~= first + second.drop_last());
    }
}

/// The round trip of a command. The first poll of its role, whenever it comes
/// while the session is there, is handed the command as the adapter sent it and
/// no other of its number. A result that the role posts then, while the adapter
/// waits, is addressed to the adapter's channel, whatever came in between, be it
/// that the session was removed. Afterwards nobody waits for the command, and
/// whatever comes then, no poll is handed it again.
///
/// It holds as long as the number goes to no other command of the session.
pub proof fn law_command_round_trip(
    reg: RegistryState,
    req: Request,
    before: Seq<Event>,
    seen: u128,
    batch: Seq<Command>,
    between: Seq<Event>,
    answered: u128,
    since: Seq<Event>,
    polling: Role,
    later: u128,
    later_batch: Seq<Command>,
)
    requires
        req.is_welcome(reg),
        req.keeps_session(reg, before),
        first_look(before, req.id, req.role) is None,
        !was_answered(before, req.id, req.role, req.command(reg).id),
        req.followed_by(reg, before).is_batch(req.id, req.role, seen, batch),
        ({
            let n = req.command(reg).id;
            let look = Event::Poll { id: req.id, role: req.role, now: seen };
            let answer = Event::Answer { id: req.id, role: req.role, cmd: n, now: answered };
            let waiting = before.push(look) + between;
            let all = waiting.push(answer) + since;
            &&& !wait_is_over(waiting, req.id, n)
            &&& req.keeps_number(reg, all)
            &&& req.followed_by(reg, all).is_batch(req.id, polling, later, later_batch)
        }),
    ensures
        ({
            let cmd = Command {
                id: reg.sessions[req.id].next_id,
                tool: req.tool,
                args: req.args,
                target_role: req.role,
            };
            let look = Event::Poll { id: req.id, role: req.role, now: seen };
            let answer = Event::Answer { id: req.id, role: req.role, cmd: cmd.id, now: answered };
            let waiting = before.push(look) + between;
            let all = waiting.push(answer) + since;
            &&& batch.contains(cmd)
            &&& forall|i: int|
                0 <= i < batch.len() && (#[trigger] batch[i]).id == cmd.id ==> batch[i] == cmd
            &&& req.followed_by(reg, waiting).pending.contains_key((req.id, cmd.id))
            &&& req.followed_by(reg, waiting).pending[(req.id, cmd.id)] == req.sender
            &&& !req.followed_by(reg, all).pending.contains_key((req.id, cmd.id))
            &&& forall|i: int|
                0 <= i < later_batch.len() ==> (#[trigger] later_batch[i]).id != cmd.id
        }),
{
    let cmd = req.command(reg);
    let start = step(reg, req.arrival());
    let look = Event::Poll { id: req.id, role: req.role, now: seen };
    let answer = Event::Answer { id: req.id, role: req.role, cmd: cmd.id, now: answered };
    let waiting = before.push(look) + between;
    let told = waiting.push(answer);
    let all = told + since;
    assert(waiting =~= before + (seq![look] + between));
    assert(all =~= before + (seq![look] + between + seq![answer] + since));
    assert(all =~= waiting + (seq![answer] + since));
    if number_returns(start, before, req.id, cmd.id) {
        lemma_number_stays_returned(
            start,
            before,
            seq![look] + between + seq![answer] + since,
            req.id,
            cmd.id,
        );
    }
    if number_returns(start, waiting, req.id, cmd.id) {
        lemma_number_stays_returned(start, waiting, seq![answer] + since, req.id, cmd.id);
    }
    law_command_is_handed_out_until_answered(reg, req, before, req.role, seen, batch);
    law_adapter_waits_until_the_end(reg, req, waiting);
    let n: int = waiting.len() as int;
    assert(all[n] == answer);
    assert(answers(all[n], req.id, req.role, cmd.id));
    assert(ends_wait(all[n], req.id, cmd.id));
    law_adapter_waits_until_the_end(reg, req, all);
    law_command_is_handed_out_until_answered(reg, req, all, polling, later, later_batch);
    assert(was_answered(all, req.id, req.role, cmd.id));
    assert forall|i: int| 0 <= i < later_batch.len() implies (#[trigger] later_batch[i]).id
        != cmd.id by {
        if later_batch[i].id == cmd.id {
            assert(later_batch.contains(later_batch[i]));
        }
    }
}

/// A poll is held on the signal that the commands for its role give: as long as
/// every step keeps the signal of the role, the signal that the last step gives
/// is the one that the poll was handed in the first.
pub proof fn law_command_wakes_held_poll(
    steps: Seq<Registry>,
    id: Seq<char>,
    role: Role,
    held: Notify,
    given: Notify,
)
    requires
        steps.len() > 0,
        steps[0].signal(id, role) == Some(held),
        forall|i: int|
            0 < i < steps.len() ==> (steps[i - 1].signal(id, role) is Some
                ==> #[trigger] steps[i].signal(id, role) == steps[i - 1].signal(id, role)),
        steps.last().signal(id, role) == Some(given),
    ensures
        given == held,
    decreases steps.len(),
{
    if steps.len() > 1 {
        let n = steps.len() - 1;
        let front = steps.drop_last();
        lemma_signal_is_kept(front, id, role);
        assert(front.last() == steps[n - 1]);
        assert(steps[n].signal(id, role) == steps[n - 1].signal(id, role));
    }
}

proof fn lemma_signal_is_kept(steps: Seq<Registry>, id: Seq<char>, role: Role)
    requires
        steps.len() > 0,
        steps[0].signal(id, role) is Some,
        forall|i: int|
            0 < i < steps.len() ==> (steps[i - 1].signal(id, role) is Some
                ==> #[trigger] steps[i].signal(id, role) == steps[i - 1].signal(id, role)),
    ensures
        steps.last().signal(id, role) == steps[0].signal(id, role),
    decreases steps.len(),
{
    if steps.len() > 1 {
        let n = steps.len() - 1;
        let front = steps.drop_last();
        assert forall|i: int| 0 < i < front.len() implies (front[i - 1].signal(id, role) is Some
            ==> #[trigger] front[i].signal(id, role) == front[i - 1].signal(id, role)) by {
            assert(steps[i].signal(id, role) == front[i].signal(id, role));
        }
        lemma_signal_is_kept(front, id, role);
        assert(front.last() == steps[n - 1]);
        assert(steps[n].signal(id, role) == steps[n - 1].signal(id, role));
    }
}

/// A call that concerns the waiting adapters, by session id and command id.
pub enum WaiterCall {
    /// [`Registry::register_pending`], which makes this sender.
    Register { id: Seq<char>, cmd: u64, sender: Sender<CommandResult> },
    /// [`Registry::cancel_pending`].
    Cancel { id: Seq<char>, cmd: u64 },
    /// [`Registry::complete`].
    Complete { id: Seq<char>, cmd: u64 },
}

/// The registry after such calls, in their order.
pub open spec fn after_calls(reg: RegistryState, calls: Seq<WaiterCall>) -> RegistryState
    decreases calls.len(),
{
    if calls.len() == 0 {
        reg
    } else {
        let before = after_calls(reg, calls.drop_last());
        match calls.last() {
            WaiterCall::Register { id, cmd, sender } => before.waiting(id, cmd, sender),
            WaiterCall::Cancel { id, cmd } => before.settled(id, cmd),
            WaiterCall::Complete { id, cmd } => before.settled(id, cmd),
        }
    }
}

/// Whether the call registers this sender for the command.
pub open spec fn registers(
    c: WaiterCall,
    id: Seq<char>,
    cmd: u64,
    sender: Sender<CommandResult>,
) -> bool {
    c == (WaiterCall::Register { id, cmd, sender })
}

/// Whether the call is about this command.
pub open spec fn concerns(c: WaiterCall, id: Seq<char>, cmd: u64) -> bool {
    match c {
        WaiterCall::Register { id: i, cmd: n, .. } => i == id && n == cmd,
        WaiterCall::Cancel { id: i, cmd: n } => i == id && n == cmd,
        WaiterCall::Complete { id: i, cmd: n } => i == id && n == cmd,
    }
}

/// Whether the last call about the command registered this sender.
pub open spec fn waits(
    calls: Seq<WaiterCall>,
    id: Seq<char>,
    cmd: u64,
    sender: Sender<CommandResult>,
) -> bool {
    exists|i: int|
        0 <= i < calls.len() && registers(#[trigger] calls[i], id, cmd, sender) && forall|j: int|
            i < j < calls.len() ==> !concerns(#[trigger] calls[j], id, cmd)
}

/// Exactly the adapters wait that registered and were neither cancelled nor
/// completed nor replaced since, each under its own session and command and on
/// its own channel, whatever calls there were about others. A completion sends
/// its result to that channel, and a second one finds nobody.
pub proof fn law_registered_wait_until_completed(
    calls: Seq<WaiterCall>,
    id: Seq<char>,
    cmd: u64,
    sender: Sender<CommandResult>,
)
    ensures
        ({
            let pending = after_calls(RegistryState::empty(), calls).pending;
            pending.contains_key((id, cmd)) && pending[(id, cmd)] == sender
        }) <==> waits(calls, id, cmd, sender),
    decreases calls.len(),
{
    if calls.len() > 0 {
        let front = calls.drop_last();
        let n = calls.len() - 1;
        law_registered_wait_until_completed(front, id, cmd, sender);
        if concerns(calls.last(), id, cmd) {
            if registers(calls.last(), id, cmd, sender) {
                assert(registers(calls[n], id, cmd, sender));
            }
            if waits(calls, id, cmd, sender) {
                let i = choose|i: int|
                    0 <= i < calls.len() && registers(#[trigger] calls[i], id, cmd, sender)
                        && forall|j: int|
                        i < j < calls.len() ==> !concerns(#[trigger] calls[j], id, cmd);
                assert(concerns(calls[n], id, cmd));
                assert(i == n);
            }
        } else {
            if waits(calls, id, cmd, sender) {
                let i = choose|i: int|
                    0 <= i < calls.len() && registers(#[trigger] calls[i], id, cmd, sender)
                        && forall|j: int|
                        i < j < calls.len() ==> !concerns(#[trigger] calls[j], id, cmd);
                assert(i < n);
                assert(registers(front[i], id, cmd, sender));
                assert forall|j: int| i < j < front.len() implies !concerns(
                    #[trigger] front[j],
                    id,
                    cmd,
                ) by {
                    assert(!concerns(calls[j], id, cmd));
                }
            }
            if waits(front, id, cmd, sender) {
                let i = choose|i: int|
                    0 <= i < front.len() && registers(#[trigger] front[i], id, cmd, sender)
                        && forall|j: int|
                        i < j < front.len() ==> !concerns(#[trigger] front[j], id, cmd);
                assert(registers(calls[i], id, cmd, sender));
                assert forall|j: int| i < j < calls.len() implies !concerns(
                    #[trigger] calls[j],
                    id,
                    cmd,
                ) by {
                    if j < n {
                        assert(!concerns(front[j], id, cmd));
                    }
                }
            }
        }
    }
}

} // verus!
