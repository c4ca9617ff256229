//! The rules of the broker's HTTP endpoints.
//!
//! `/health` is open to everyone, `/poll` and `/result` to the participants on
//! the loopback interface, and `/sessions`, `/command` and `/shutdown` to
//! adapters that present the broker's token.
use crate::broker::channel::{receiver_of, send_result, Sending};
use crate::broker::queue::time_since;
use crate::broker::registry::Delivery;
use crate::broker::session::NANOS_PER_MILLI;
use crate::broker::signal::{wake_waiters, Wake};
use crate::broker::AppState;
use crate::protocol::{
    Command, CommandResult, Handshake, Health, PollResponse, Role, SessionInfo,
};
use crate::text::{same_text, strip_prefix};
use serde_json::Value;
use std::sync::Arc;
use tokio::sync::oneshot::Receiver;
use tokio::sync::Notify;
use vstd::prelude::*;

verus! {

/// How long a poll is held open.
pub const POLL_HOLD: u128 = 25_000_000_000;

/// How long a command waits for its result, unless the request says otherwise.
pub const DEFAULT_COMMAND_TIMEOUT: u128 = 30_000_000_000;

pub const STATUS_OK: u16 = 200;

pub const STATUS_ACCEPTED: u16 = 202;

pub const STATUS_NO_CONTENT: u16 = 204;

pub const STATUS_UNAUTHORIZED: u16 = 401;

pub const STATUS_NOT_FOUND: u16 = 404;

pub const STATUS_INTERNAL_SERVER_ERROR: u16 = 500;

pub const STATUS_GATEWAY_TIMEOUT: u16 = 504;

/// A request that is refused.
pub struct Refusal {
    /// The HTTP status of the answer.
    pub status: u16,
    /// The body of the answer.
    pub message: String,
}

impl Refusal {
    /// Whether the refusal has this status and this body.
    pub open spec fn says(self, status: u16, message: Seq<char>) -> bool {
        self.status == status && self.message@ == message
    }
}

/// The headers by which an adapter authenticates itself.
pub struct Credentials {
    /// The text of the `authorization` header.
    pub authorization: Option<String>,
    /// The text of the `x-broker-token` header.
    pub broker_token: Option<String>,
}

impl Credentials {
    /// The token that the headers present: what follows `Bearer ` in the
    /// `authorization` header, else the `x-broker-token` header.
    pub open spec fn token(self) -> Option<Seq<char>> {
        if self.authorization is Some && "Bearer "@.is_prefix_of(self.authorization->0@) {
            Some(self.authorization->0@.skip("Bearer "@.len() as int))
        } else {
            match self.broker_token {
                Some(t) => Some(t@),
                None => None,
            }
        }
    }
}

/// The answer to an adapter without the right token.
pub open spec fn unauthorized(r: Refusal) -> bool {
    r.says(STATUS_UNAUTHORIZED, "invalid or missing broker token"@)
}

/// Lets an adapter with the right token in and records its activity.
pub fn authorize(st: &mut AppState, credentials: &Credentials, now: u128) -> (r: Result<
    (),
    Refusal,
>)
    ensures
        final(st).registry == old(st).registry,
        final(st).shutdown == old(st).shutdown,
        match r {
            Ok(_) => credentials.token() == Some(old(st)@.token) && final(st)@ == old(st)@.active(
                now,
            ),
            Err(e) => credentials.token() != Some(old(st)@.token) && final(st)@ == old(st)@
                && unauthorized(e),
        },
{
    let mut provided: Option<&str> = None;
    if let Some(text) = &credentials.authorization {
        provided = strip_prefix(text.as_str(), "Bearer ");
        proof {
            if provided is Some {
                assert(text@.skip("Bearer "@.len() as int) =~= provided->0@);
                assert("Bearer "@.is_prefix_of(text@));
            }
        }
    }
    if provided.is_none() {
        if let Some(text) = &credentials.broker_token {
            provided = Some(text.as_str());
        }
    }
    let granted = match provided {
        Some(t) => same_text(t, st.token.as_str()),
        None => false,
    };
    if granted {
        st.last_activity = now;
        Ok(())
    } else {
        Err(
            Refusal {
                status: STATUS_UNAUTHORIZED,
                message: "invalid or missing broker token".to_string(),
            },
        )
    }
}

/// `GET /health`: what the broker says of itself.
pub fn health(st: &AppState) -> (r: Health)
    ensures
        r == st@.health,
{
    Health {
        protocol: st.health.protocol,
        broker_uuid: st.health.broker_uuid.clone(),
        port: st.health.port,
    }
}

/// A poll that is held open.
pub struct HeldPoll {
    /// The signal that wakes the poll.
    pub notify: Arc<Notify>,
    /// When the poll ends without commands.
    pub deadline: u128,
}

/// `POST /poll`, on arrival: takes in the handshake.
pub fn poll_begin(st: &mut AppState, hs: &Handshake, now: u128) -> (r: HeldPoll)
    requires
        old(st).wf(),
        now + POLL_HOLD <= u128::MAX,
    ensures
        final(st).wf(),
        final(st)@ == old(st)@.with_registry(old(st)@.registry.upserted(*hs, now)),
        final(st).shutdown == old(st).shutdown,
        old(st).registry.keeps_signals(&final(st).registry),
        final(st).registry.signal(hs.session_id@, hs.role) == Some(*r.notify),
        r.deadline == now + POLL_HOLD,
{
    let notify = st.registry.upsert(hs, now);
    proof {
        crate::broker::registry::law_registry_stays_well_formed(
            old(st)@.registry,
            *hs,
            hs.session_id@,
            hs.role,
            0,
            now,
        );
    }
    HeldPoll { notify, deadline: now + POLL_HOLD }
}

/// What to do with a held poll.
pub enum PollStep {
    /// Answer with these commands.
    Answer(PollResponse),
    /// Answer that there are none.
    NoContent,
    /// Wait for the signal for this long.
    Wait(u128),
}

/// `POST /poll`, on arrival and whenever the signal is given: answers with the
/// commands that the role is owed, or goes on waiting until the deadline.
pub fn poll_step(
    st: &mut AppState,
    session_id: &str,
    role: Role,
    deadline: u128,
    now: u128,
) -> (r: PollStep)
    requires
        old(st).wf(),
    ensures
        final(st).wf(),
        final(st)@ == old(st)@.with_registry(
            old(st)@.registry.polled(session_id@, role, now),
        ),
        final(st).shutdown == old(st).shutdown,
        old(st).registry.keeps_signals(&final(st).registry),
        match r {
            PollStep::Answer(p) => p.commands@.len() > 0 && old(st)@.registry.is_batch(
                session_id@,
                role,
                now,
                p.commands@,
            ),
            PollStep::NoContent => old(st)@.registry.is_batch(
                session_id@,
                role,
                now,
                Seq::empty(),
            ) && deadline <= now,
            PollStep::Wait(t) => old(st)@.registry.is_batch(session_id@, role, now, Seq::empty())
                && now < deadline && t == deadline - now,
        },
{
    let batch = st.registry.take_for_poll(session_id, role, now);
    proof {
        crate::broker::registry::law_poll_keeps_well_formed(
            old(st)@.registry,
            session_id@,
            role,
            now,
        );
    }
    if batch.len() > 0 {
        return PollStep::Answer(PollResponse { commands: batch });
    }
    assert(batch@ =~= Seq::<Command>::empty());
    let remaining = time_since(deadline, now);
    if remaining == 0 {
        PollStep::NoContent
    } else {
        PollStep::Wait(remaining)
    }
}

/// The body of `POST /result`.
pub struct ResultRequest {
    pub session_id: String,
    pub role: Role,
    pub result: CommandResult,
}

/// `POST /result`, up to the delivery: acknowledges the command in the role's
/// queue and addresses the result to the adapter that waits for it.
pub fn result_delivery(st: &mut AppState, req: ResultRequest, now: u128) -> (r: Option<Delivery>)
    requires
        old(st).wf(),
    ensures
        final(st).wf(),
        final(st)@ == old(st)@.with_registry(
            old(st)@.registry.acked(req.session_id@, req.role, req.result.id, now).settled(
                req.session_id@,
                req.result.id,
            ),
        ),
        final(st).shutdown == old(st).shutdown,
        old(st).registry.keeps_signals(&final(st).registry),
        match r {
            Some(d) => {
                &&& old(st)@.registry.pending.contains_key((req.session_id@, req.result.id))
                &&& d.sender == old(st)@.registry.pending[(req.session_id@, req.result.id)]
                &&& d.result == req.result
            },
            None => !old(st)@.registry.pending.contains_key((req.session_id@, req.result.id)),
        },
{
    let id = req.result.id;
    st.registry.ack(req.session_id.as_str(), req.role, id, now);
    st.registry.address(req.session_id.as_str(), req.result)
}

/// The answer to `POST /result`.
pub struct ResultAnswer {
    /// The HTTP status.
    pub status: u16,
    /// What was sent to the adapter that waited, if one did.
    pub sending: Option<Sending>,
}

/// `POST /result`: makes the delivery of [`result_delivery`], if there is one.
pub fn result(st: &mut AppState, req: ResultRequest, now: u128) -> (r: ResultAnswer)
    requires
        old(st).wf(),
    ensures
        final(st).wf(),
        final(st)@ == old(st)@.with_registry(
            old(st)@.registry.acked(req.session_id@, req.role, req.result.id, now).settled(
                req.session_id@,
                req.result.id,
            ),
        ),
        final(st).shutdown == old(st).shutdown,
        old(st).registry.keeps_signals(&final(st).registry),
        r.status == STATUS_OK,
        match r.sending {
            Some(s) => {
                &&& old(st)@.registry.pending.contains_key((req.session_id@, req.result.id))
                &&& s.sender() == old(st)@.registry.pending[(req.session_id@, req.result.id)]
                &&& s.result() == req.result
            },
            None => !old(st)@.registry.pending.contains_key((req.session_id@, req.result.id)),
        },
{
    let sending = match result_delivery(st, req, now) {
        Some(delivery) => Some(send_result(delivery.sender, delivery.result)),
        None => None,
    };
    ResultAnswer { status: STATUS_OK, sending }
}

/// `GET /sessions`: lists the sessions for an adapter.
pub fn sessions(st: &mut AppState, credentials: &Credentials, now: u128) -> (r: Result<
    Vec<SessionInfo>,
    Refusal,
>)
    ensures
        final(st).registry == old(st).registry,
        final(st).shutdown == old(st).shutdown,
        match r {
            Ok(list) => {
                &&& credentials.token() == Some(old(st)@.token)
                &&& final(st)@ == old(st)@.active(now)
                &&& old(st)@.registry.is_listing(now, list@)
            },
            Err(e) => credentials.token() != Some(old(st)@.token) && final(st)@ == old(st)@
                && unauthorized(e),
        },
{
    match authorize(st, credentials, now) {
        Ok(_) => Ok(st.registry.list(now)),
        Err(e) => Err(e),
    }
}

/// The body of `POST /command`.
pub struct CommandRequest {
    pub session_id: String,
    pub tool: String,
    pub args: Value,
    pub target_role: Role,
    pub timeout_ms: Option<u64>,
}

impl CommandRequest {
    /// How long the request waits for its result.
    pub open spec fn timeout(self) -> u128 {
        match self.timeout_ms {
            Some(ms) => (ms * NANOS_PER_MILLI) as u128,
            None => DEFAULT_COMMAND_TIMEOUT,
        }
    }
}

/// A command request that waits for its result.
pub struct WaitingCommand {
    /// The session of the command.
    pub session_id: String,
    /// The id of the command.
    pub id: u64,
    /// Where the result arrives.
    pub receiver: Receiver<CommandResult>,
    /// How long to wait.
    pub timeout: u128,
    /// The signal that was given to the polls of the command's role.
    pub wake: Wake,
}

/// `POST /command`, on arrival: puts a command for a session in the queue of
/// its role, gives the polls of that role their signal and waits for the result.
pub fn command_begin(
    st: &mut AppState,
    credentials: &Credentials,
    req: CommandRequest,
    now: u128,
) -> (r: Result<WaitingCommand, Refusal>)
    requires
        old(st).wf(),
    ensures
        final(st).wf(),
        final(st).shutdown == old(st).shutdown,
        old(st).registry.keeps_signals(&final(st).registry),
        match r {
            Ok(w) => {
                let sender = final(st)@.registry.pending[(req.session_id@, w.id)];
                let cmd = Command {
                    id: w.id,
                    tool: req.tool,
                    args: req.args,
                    target_role: req.target_role,
                };
                &&& credentials.token() == Some(old(st)@.token)
                &&& old(st)@.registry.sessions.contains_key(req.session_id@)
                &&& w.session_id == req.session_id
                &&& w.id == old(st)@.registry.sessions[req.session_id@].next_id
                &&& w.receiver == receiver_of(sender)
                &&& w.timeout == req.timeout()
                &&& final(st).registry.signal(req.session_id@, req.target_role) == Some(
                    w.wake.signal(),
                )
                &&& final(st)@ == old(st)@.active(now).with_registry(
                    old(st)@.registry.submitted(req.session_id@, cmd, sender, now),
                )
            },
            Err(e) => if credentials.token() != Some(old(st)@.token) {
                unauthorized(e) && final(st)@ == old(st)@
            } else {
                &&& !old(st)@.registry.sessions.contains_key(req.session_id@)
                &&& e.says(STATUS_NOT_FOUND, "no session "@ + req.session_id@)
                &&& final(st)@ == old(st)@.active(now)
            },
        },
{
    match authorize(st, credentials, now) {
        Ok(_) => {},
        Err(e) => {
            return Err(e);
        },
    }
    let timeout: u128 = match req.timeout_ms {
        Some(ms) => ms as u128 * NANOS_PER_MILLI,
        None => DEFAULT_COMMAND_TIMEOUT,
    };
    match st.registry.submit(
        req.session_id.as_str(),
        req.tool,
        req.args,
        req.target_role,
        now,
    ) {
        Some(submission) => {
            proof {
                crate::broker::registry::law_submit_keeps_well_formed(
                    old(st)@.registry,
                    req.session_id@,
                    Command {
                        id: submission.id,
                        tool: req.tool,
                        args: req.args,
                        target_role: req.target_role,
                    },
                    st@.registry.pending[(req.session_id@, submission.id)],
                    now,
                );
            }
            Ok(
                WaitingCommand {
                    session_id: req.session_id,
                    id: submission.id,
                    receiver: submission.receiver,
                    timeout,
                    wake: submission.wake,
                },
            )
        },
        None => {
            let message = "no session ".to_string().concat(req.session_id.as_str());
            Err(Refusal { status: STATUS_NOT_FOUND, message })
        },
    }
}

/// How the wait for a result ended.
pub enum WaitOutcome {
    /// The result arrived.
    Answered(CommandResult),
    /// The sending end went away.
    Dropped,
    /// The time was up.
    TimedOut,
}

/// `POST /command`, after the wait: answers with the result, or says why there
/// is none. A request whose time is up waits no longer.
pub fn command_finish(
    st: &mut AppState,
    session_id: &str,
    id: u64,
    outcome: WaitOutcome,
) -> (r: Result<CommandResult, Refusal>)
    ensures
        old(st).wf() ==> final(st).wf(),
        final(st).shutdown == old(st).shutdown,
        old(st).registry.keeps_signals(&final(st).registry),
        match outcome {
            WaitOutcome::Answered(result) => {
                &&& r == Ok::<CommandResult, Refusal>(result)
                &&& final(st)@ == old(st)@
            },
            WaitOutcome::Dropped => r is Err && r->Err_0.says(
                STATUS_INTERNAL_SERVER_ERROR,
                "result channel dropped"@,
            ) && final(st)@ == old(st)@,
            WaitOutcome::TimedOut => r is Err && r->Err_0.says(
                STATUS_GATEWAY_TIMEOUT,
                "timed out waiting for plugin result"@,
            ) && final(st)@ == old(st)@.with_registry(
                old(st)@.registry.settled(session_id@, id),
            ),
        },
{
    match outcome {
        WaitOutcome::Answered(result) => Ok(result),
        WaitOutcome::Dropped => Err(
            Refusal {
                status: STATUS_INTERNAL_SERVER_ERROR,
                message: "result channel dropped".to_string(),
            },
        ),
        WaitOutcome::TimedOut => {
            st.registry.cancel_pending(session_id, id);
            Err(
                Refusal {
                    status: STATUS_GATEWAY_TIMEOUT,
                    message: "timed out waiting for plugin result".to_string(),
                },
            )
        },
    }
}

/// The answer to `POST /shutdown` where it is granted.
pub struct ShutdownAnswer {
    /// The HTTP status.
    pub status: u16,
    /// The signal that was given to the broker.
    pub wake: Wake,
}

/// `POST /shutdown`: gives the broker's shutdown signal for an adapter.
pub fn shutdown(st: &mut AppState, credentials: &Credentials, now: u128) -> (r: Result<
    ShutdownAnswer,
    Refusal,
>)
    ensures
        final(st).registry == old(st).registry,
        final(st).shutdown == old(st).shutdown,
        match r {
            Ok(answer) => {
                &&& credentials.token() == Some(old(st)@.token)
                &&& final(st)@ == old(st)@.active(now)
                &&& answer.status == STATUS_ACCEPTED
                &&& answer.wake.signal() == *old(st).shutdown
            },
            Err(e) => credentials.token() != Some(old(st)@.token) && final(st)@ == old(st)@
                && unauthorized(e),
        },
{
    match authorize(st, credentials, now) {
        Ok(_) => {
            let wake = wake_waiters(Arc::clone(&st.shutdown));
            Ok(ShutdownAnswer { status: STATUS_ACCEPTED, wake })
        },
        Err(e) => Err(e),
    }
}

} // verus!
