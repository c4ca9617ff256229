//! What the handlers of the broker's requests do.
use crate::broker::channel::receiver_of;
use crate::broker::queue::QueueState;
use crate::broker::registry::Delivery;
use crate::broker::routes::{
    authorize, command_begin, command_finish, health, poll_begin, poll_step, result,
    result_delivery, sessions, shutdown, CommandRequest, Credentials, HeldPoll, PollStep, Refusal,
    ResultAnswer, ResultRequest, ShutdownAnswer, WaitOutcome, WaitingCommand, POLL_HOLD,
    STATUS_NO_CONTENT,
};
use crate::broker::AppState;
use crate::protocol::{Command, CommandResult, Handshake, Health, Role, SessionInfo};
use vstd::prelude::*;

verus! {

/// Whether the headers present this token: in the `authorization` header after
/// `Bearer `, or, where that header has no such beginning, in the other one.
pub open spec fn presents(c: Credentials, token: Seq<char>) -> bool {
    if c.authorization is Some && "Bearer "@.is_prefix_of(c.authorization->0@) {
        c.authorization->0@ == "Bearer "@ + token
    } else {
        c.broker_token is Some && c.broker_token->0@ == token
    }
}

proof fn lemma_presents(c: Credentials, token: Seq<char>)
    ensures
        c.token() == Some(token) <==> presents(c, token),
{
    let n = "Bearer "@.len() as int;
    if c.authorization is Some && "Bearer "@.is_prefix_of(c.authorization->0@) {
        let text = c.authorization->0@;
        assert(text =~= "Bearer "@ + text.skip(n));
        assert(("Bearer "@ + token).skip(n) =~= token);
    }
}

/// Whether an adapter without the right token is answered as it should be.
pub open spec fn turned_away(r: Refusal) -> bool {
    r.status == 401 && r.message@ == "invalid or missing broker token"@
}

/// An adapter is let in exactly where it presents the broker's token. Its
/// activity is recorded then, and nothing changes otherwise.
pub proof fn law_authorize(st: &mut AppState, c: &Credentials, now: u128, r: Result<(), Refusal>)
    requires
        call_ensures(authorize, (st, c, now), r),
    ensures
        r is Ok <==> presents(*c, old(st).token@),
        r is Ok ==> final(st).last_activity == now,
        r is Err ==> final(st).last_activity == old(st).last_activity && turned_away(r->Err_0),
        final(st).registry == old(st).registry,
        final(st).token@ == old(st).token@,
        final(st).health == old(st).health,
        final(st).shutdown == old(st).shutdown,
{
    lemma_presents(*c, old(st).token@);
}

/// Anyone is told what the broker is.
pub proof fn law_health(st: &AppState, r: Health)
    requires
        call_ensures(health, (st,), r),
    ensures
        r.protocol == st.health.protocol,
        r.broker_uuid == st.health.broker_uuid,
        r.port == st.health.port,
{
}

/// A poll that arrives is held for twenty-five seconds on the signal of its role,
/// and its handshake is taken in. Nothing else changes.
pub proof fn law_poll_begin(st: &mut AppState, hs: &Handshake, now: u128, r: HeldPoll)
    requires
        old(st).wf(),
        now + POLL_HOLD <= u128::MAX,
        call_ensures(poll_begin, (st, hs, now), r),
    ensures
        r.deadline == now + 25_000_000_000,
        final(st).registry.signal(hs.session_id@, hs.role) == Some(*r.notify),
        final(st).registry@ == old(st).registry@.upserted(*hs, now),
        final(st).wf(),
        final(st).token@ == old(st).token@,
        final(st).health == old(st).health,
        final(st).last_activity == old(st).last_activity,
        final(st).shutdown == old(st).shutdown,
{
}

/// A look of a poll at its queue answers with what the queue owes, if that is
/// anything; else it goes on waiting for what is left until the deadline, and
/// answers that there is nothing once that is over.
pub proof fn law_poll_step(
    st: &mut AppState,
    session_id: &str,
    role: Role,
    deadline: u128,
    now: u128,
    r: PollStep,
)
    requires
        old(st).wf(),
        call_ensures(poll_step, (st, session_id, role, deadline, now), r),
    ensures
        ({
            let known = old(st).registry@.sessions.contains_key(session_id@);
            let queues = old(st).registry@.sessions[session_id@].queues;
            let queue = if known && queues.contains_key(role) {
                queues[role]
            } else {
                QueueState::fresh(now)
            };
            match r {
                PollStep::Answer(p) => {
                    &&& p.commands@.len() > 0
                    &&& queue.is_batch(now, p.commands@)
                },
                PollStep::NoContent => {
                    &&& queue.is_batch(now, Seq::empty())
                    &&& now >= deadline
                },
                PollStep::Wait(t) => {
                    &&& queue.is_batch(now, Seq::empty())
                    &&& t > 0
                    &&& now + t == deadline
                },
            }
        }),
        final(st).registry@ == old(st).registry@.polled(session_id@, role, now),
        final(st).wf(),
        final(st).token@ == old(st).token@,
        final(st).health == old(st).health,
        final(st).last_activity == old(st).last_activity,
        final(st).shutdown == old(st).shutdown,
{
    let none = QueueState::fresh(now);
    assert forall|c: Command| #[trigger] Seq::<Command>::empty().contains(c) <==> none.owed(
        now,
        c.id,
    ) == Some(c) by {}
}

/// A result that is posted reaches the adapter that waits under its session and
/// number, unchanged, if one does, is acknowledged in the queue of the role that
/// posted it, and is answered with success in any case.
pub proof fn law_result(
    addressed: &mut AppState,
    answered: &mut AppState,
    req: ResultRequest,
    now: u128,
    delivery: Option<Delivery>,
    answer: ResultAnswer,
)
    requires
        old(addressed).wf(),
        old(answered).wf(),
        call_ensures(result_delivery, (addressed, req, now), delivery),
        call_ensures(result, (answered, req, now), answer),
    ensures
        answer.status == 200,
        answer.sending is Some <==> old(answered).registry@.pending.contains_key(
            (req.session_id@, req.result.id),
        ),
        answer.sending is Some ==> answer.sending->0.result() == req.result
            && answer.sending->0.sender() == old(answered).registry@.pending[
            (req.session_id@, req.result.id)
        ],
        delivery is Some <==> old(addressed).registry@.pending.contains_key(
            (req.session_id@, req.result.id),
        ),
        delivery is Some ==> delivery->0.result == req.result && delivery->0.sender == old(addressed).registry@.pending[(req.session_id@, req.result.id)],
        final(answered).registry@.sessions == old(answered).registry@.acked(
            req.session_id@,
            req.role,
            req.result.id,
            now,
        ).sessions,
        final(answered).registry@.pending == old(answered).registry@.pending.remove(
            (req.session_id@, req.result.id),
        ),
        final(addressed).registry@.sessions == old(addressed).registry@.acked(
            req.session_id@,
            req.role,
            req.result.id,
            now,
        ).sessions,
        final(addressed).registry@.pending == old(addressed).registry@.pending.remove(
            (req.session_id@, req.result.id),
        ),
        final(answered).token@ == old(answered).token@,
        final(answered).health == old(answered).health,
        final(answered).last_activity == old(answered).last_activity,
        final(answered).shutdown == old(answered).shutdown,
{
}

/// An adapter that presents the token is given the listing, and no other is.
pub proof fn law_sessions(
    st: &mut AppState,
    c: &Credentials,
    now: u128,
    r: Result<Vec<SessionInfo>, Refusal>,
)
    requires
        call_ensures(sessions, (st, c, now), r),
    ensures
        r is Ok <==> presents(*c, old(st).token@),
        r is Ok ==> old(st).registry@.is_listing(now, r->Ok_0@) && final(st).last_activity == now,
        r is Err ==> turned_away(r->Err_0) && final(st).last_activity == old(st).last_activity,
        final(st).registry == old(st).registry,
        final(st).token@ == old(st).token@,
        final(st).health == old(st).health,
        final(st).shutdown == old(st).shutdown,
{
    lemma_presents(*c, old(st).token@);
}

/// A request waits for its result for as many milliseconds as it says, and for
/// thirty seconds where it does not say.
pub proof fn law_wait_is_as_asked(req: CommandRequest)
    ensures
        req.timeout_ms is Some ==> req.timeout() == req.timeout_ms->0 * 1_000_000,
        req.timeout_ms is None ==> req.timeout() == 30_000_000_000,
{
}

/// A command request is accepted exactly where its adapter presents the token and
/// its session is there. It then waits for as many milliseconds as it says, or
/// for thirty seconds where it does not, and the command that it becomes is the
/// last in the queue of its role, under the session's next number and with the
/// tool and the arguments of the request; the role is given its signal.
pub proof fn law_command_begin(
    st: &mut AppState,
    c: &Credentials,
    req: CommandRequest,
    now: u128,
    r: Result<WaitingCommand, Refusal>,
)
    requires
        old(st).wf(),
        call_ensures(command_begin, (st, c, req, now), r),
    ensures
        r is Ok <==> presents(*c, old(st).token@) && old(st).registry@.sessions.contains_key(
            req.session_id@,
        ),
        r is Ok ==> {
            let w = r->Ok_0;
            let before = old(st).registry@.sessions[req.session_id@];
            let after = final(st).registry@.sessions[req.session_id@];
            let had = if before.queues.contains_key(req.target_role) {
                before.queues[req.target_role].undelivered
            } else {
                Seq::empty()
            };
            &&& w.session_id == req.session_id
            &&& w.id == before.next_id
            &&& req.timeout_ms is Some ==> w.timeout == req.timeout_ms->0 * 1_000_000
            &&& req.timeout_ms is None ==> w.timeout == 30_000_000_000
            &&& after.queues[req.target_role].undelivered == had.push(
                Command {
                    id: w.id,
                    tool: req.tool,
                    args: req.args,
                    target_role: req.target_role,
                },
            )
            &&& forall|x: Role| #[trigger]
                after.queues.contains_key(x) && x != req.target_role
                    ==> before.queues.contains_key(x) && after.queues[x] == before.queues[x]
            &&& after.meta == before.meta
            &&& final(st).registry@.pending.contains_key((req.session_id@, w.id))
            &&& receiver_of(final(st).registry@.pending[(req.session_id@, w.id)]) == w.receiver
            &&& final(st).registry.signal(req.session_id@, req.target_role) == Some(
                w.wake.signal(),
            )
            &&& final(st).last_activity == now
        },
        r is Err && !presents(*c, old(st).token@) ==> turned_away(r->Err_0) && final(st).last_activity == old(st).last_activity,
        r is Err && presents(*c, old(st).token@) ==> r->Err_0.status == 404
            && r->Err_0.message@ == "no session "@ + req.session_id@ && final(st).last_activity
            == now,
        r is Err ==> final(st).registry@ == old(st).registry@,
        final(st).token@ == old(st).token@,
        final(st).health == old(st).health,
        final(st).shutdown == old(st).shutdown,
{
    lemma_presents(*c, old(st).token@);
}

/// A result that arrived is passed on unchanged. A request whose time is up, and
/// that alone, waits no longer; each of the two ways to get no result has its
/// own answer. The sessions stay as they are.
pub proof fn law_command_finish(
    st: &mut AppState,
    session_id: &str,
    id: u64,
    outcome: WaitOutcome,
    r: Result<CommandResult, Refusal>,
)
    requires
        call_ensures(command_finish, (st, session_id, id, outcome), r),
    ensures
        outcome is Answered <==> r is Ok,
        r is Ok ==> r->Ok_0 == outcome->Answered_0,
        outcome is Dropped ==> r->Err_0.status == 500 && r->Err_0.message@
            == "result channel dropped"@,
        outcome is TimedOut ==> r->Err_0.status == 504 && r->Err_0.message@
            == "timed out waiting for plugin result"@,
        outcome is TimedOut ==> final(st).registry@.pending == old(st).registry@.pending.remove(
            (session_id@, id),
        ),
        !(outcome is TimedOut) ==> final(st).registry@.pending == old(st).registry@.pending,
        final(st).registry@.sessions == old(st).registry@.sessions,
        final(st).token@ == old(st).token@,
        final(st).health == old(st).health,
        final(st).last_activity == old(st).last_activity,
        final(st).shutdown == old(st).shutdown,
{
}

/// The shutdown signal is given for an adapter that presents the token, and for
/// no other.
pub proof fn law_shutdown(
    st: &mut AppState,
    c: &Credentials,
    now: u128,
    r: Result<ShutdownAnswer, Refusal>,
)
    requires
        call_ensures(shutdown, (st, c, now), r),
    ensures
        r is Ok <==> presents(*c, old(st).token@),
        r is Ok ==> r->Ok_0.status == 202 && r->Ok_0.wake.signal() == *old(st).shutdown && final(st).last_activity == now,
        r is Err ==> turned_away(r->Err_0) && final(st).last_activity == old(st).last_activity,
        final(st).registry == old(st).registry,
        final(st).token@ == old(st).token@,
        final(st).health == old(st).health,
        final(st).shutdown == old(st).shutdown,
{
    lemma_presents(*c, old(st).token@);
}

/// A poll without commands is answered that there is no content.
pub proof fn law_no_content_status()
    ensures
        STATUS_NO_CONTENT == 204,
{
}

} // verus!
