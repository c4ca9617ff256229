//! The broker daemon: the process that owns the loopback port, the session
//! registry and the routing of commands.
pub mod channel;
pub mod history;
pub mod identity;
pub mod laws;
pub mod queue;
pub mod registry;
pub mod routes;
pub mod session;
pub mod signal;
pub mod table;

pub use registry::Registry;

use crate::broker::identity::{is_hyphenated_uuid, random_uuid};
use crate::broker::queue::{elapsed, time_since};
use crate::broker::registry::{law_reap_keeps_well_formed, RegistryState};
use crate::broker::signal::{new_notify, wake_waiters, Wake};
use crate::protocol::{BrokerInfo, Health, Role, PROTOCOL_VERSION};
use crate::text::{decimal, decimal_text};
use std::sync::Arc;
use tokio::sync::Notify;
use vstd::prelude::*;

verus! {

/// The first loopback port that the broker tries.
pub const PORT_FIRST: u16 = 1801;

/// The last loopback port that the broker tries.
pub const PORT_LAST: u16 = 1803;

/// How long the broker stays up without adapter activity and live sessions,
/// unless it is told otherwise.
pub const DEFAULT_IDLE_TIMEOUT: u128 = 600_000_000_000;

/// The time between two rounds of upkeep.
pub const MAINTENANCE_INTERVAL: u128 = 15_000_000_000;

/// The nanoseconds of a second.
pub const NANOS_PER_SEC: u128 = 1_000_000_000;

/// The state of the broker.
#[verifier::ext_equal]
pub struct BrokerState {
    /// The sessions and the waiting adapters.
    pub registry: RegistryState,
    /// What the broker says of itself.
    pub health: Health,
    /// The secret that adapters present.
    pub token: Seq<char>,
    /// When an adapter was last active.
    pub last_activity: u128,
}

impl BrokerState {
    /// The broker once an adapter was active at `now`.
    pub open spec fn active(self, now: u128) -> BrokerState {
        BrokerState { last_activity: now, ..self }
    }

    /// The broker with this registry.
    pub open spec fn with_registry(self, registry: RegistryState) -> BrokerState {
        BrokerState { registry, ..self }
    }

    /// Whether the broker shuts down in a round of upkeep at `now`: there is a
    /// limit, adapters have been inactive for it, and no session is live.
    pub open spec fn is_idle(self, idle_timeout: Option<u128>, now: u128) -> bool {
        match idle_timeout {
            Some(limit) => elapsed(now, self.last_activity) >= limit
                && self.registry.live_sessions(now).len() == 0,
            None => false,
        }
    }
}

/// What every request handler shares.
pub struct AppState {
    /// The sessions and the waiting adapters.
    pub registry: Registry,
    /// What the broker says of itself.
    pub health: Health,
    /// The secret that adapters present.
    pub token: String,
    /// When an adapter was last active.
    pub last_activity: u128,
    /// Signalled when the broker is to shut down.
    pub shutdown: Arc<Notify>,
}

impl View for AppState {
    type V = BrokerState;

    open spec fn view(&self) -> BrokerState {
        BrokerState {
            registry: self.registry@,
            health: self.health,
            token: self.token@,
            last_activity: self.last_activity,
        }
    }
}

impl AppState {
    /// The registry is well formed.
    pub open spec fn wf(&self) -> bool {
        self.registry@.wf()
    }

    /// A broker without sessions.
    pub fn new(token: String, broker_uuid: String, port: u16, now: u128) -> (r: Self)
        ensures
            r.wf(),
            r@ == (BrokerState {
                registry: RegistryState::empty(),
                health: Health { protocol: PROTOCOL_VERSION, broker_uuid, port },
                token: token@,
                last_activity: now,
            }),
    {
        AppState {
            registry: Registry::new(),
            health: Health { protocol: PROTOCOL_VERSION, broker_uuid, port },
            token,
            last_activity: now,
            shutdown: Arc::new(new_notify()),
        }
    }

    /// What the broker leaves for adapters in its rendezvous file.
    pub fn broker_info(&self, pid: u32) -> (r: BrokerInfo)
        ensures
            r.port == self@.health.port,
            r.pid == pid,
            r.token@ == self@.token,
            r.protocol == PROTOCOL_VERSION,
            r.broker_uuid == self@.health.broker_uuid,
    {
        BrokerInfo {
            port: self.health.port,
            pid,
            token: self.token.clone(),
            protocol: PROTOCOL_VERSION,
            broker_uuid: self.health.broker_uuid.clone(),
        }
    }
}

/// How a broker is run.
pub struct BrokerConfig {
    /// How long the broker stays up without adapter activity and live sessions;
    /// `None` keeps it up.
    pub idle_timeout: Option<u128>,
}

impl Default for BrokerConfig {
    fn default() -> (r: Self)
        ensures
            r.idle_timeout == Some(DEFAULT_IDLE_TIMEOUT),
    {
        BrokerConfig { idle_timeout: Some(DEFAULT_IDLE_TIMEOUT) }
    }
}

impl BrokerConfig {
    /// The configuration for a limit in seconds, where zero stands for none.
    pub fn from_idle_secs(secs: u64) -> (r: Self)
        ensures
            r.idle_timeout == (if secs == 0 {
                None::<u128>
            } else {
                Some((secs * NANOS_PER_SEC) as u128)
            }),
    {
        if secs == 0 {
            BrokerConfig { idle_timeout: None }
        } else {
            BrokerConfig { idle_timeout: Some(secs as u128 * NANOS_PER_SEC) }
        }
    }
}

/// The state of a new broker on a bound port, under a random identifier.
pub fn build_app(token: String, port: u16, now: u128) -> (r: AppState)
    ensures
        r.wf(),
        r@.registry == RegistryState::empty(),
        r@.health.protocol == PROTOCOL_VERSION,
        r@.health.port == port,
        is_hyphenated_uuid(r@.health.broker_uuid@),
        r@.token == token@,
        r@.last_activity == now,
{
    AppState::new(token, random_uuid(), port, now)
}

/// What became of an attempt to bind a port.
pub enum BindOutcome {
    /// The port is bound.
    Bound,
    /// Somebody else has the port.
    InUse,
    /// The attempt failed otherwise.
    Failed,
}

/// What to do after an attempt to bind a port.
pub enum BindStep {
    /// Serve on this port.
    Serve(u16),
    /// Try this port next.
    Try(u16),
    /// Give up, with this message.
    GiveUp(String),
    /// Pass the error on, with this message about what was tried.
    Fail(String),
}

/// The message of a broker that found every port taken.
pub open spec fn no_free_port_text() -> Seq<char> {
    "no free port in "@ + decimal(PORT_FIRST as nat) + "..="@ + decimal(PORT_LAST as nat)
        + "; another broker or process owns them all"@
}

/// The message about a port that could not be bound.
pub open spec fn binding_text(port: u16) -> Seq<char> {
    "binding 127.0.0.1:"@ + decimal(port as nat)
}

/// Whether `step` is what follows this outcome on this port.
pub open spec fn follows(port: u16, outcome: BindOutcome, step: BindStep) -> bool {
    match outcome {
        BindOutcome::Bound => step == BindStep::Serve(port),
        BindOutcome::InUse => if port < PORT_LAST {
            step == BindStep::Try((port + 1) as u16)
        } else {
            step matches BindStep::GiveUp(m) && m@ == no_free_port_text()
        },
        BindOutcome::Failed => step matches BindStep::Fail(m) && m@ == binding_text(port),
    }
}

/// The step after an attempt to bind `port`: a port in use makes way for the
/// next one of the range, and any other failure is final.
pub fn bind_step(port: u16, outcome: BindOutcome) -> (r: BindStep)
    ensures
        follows(port, outcome, r),
{
    match outcome {
        BindOutcome::Bound => BindStep::Serve(port),
        BindOutcome::InUse => {
            if port < PORT_LAST {
                BindStep::Try(port + 1)
            } else {
                let m = "no free port in ".to_string().concat(
                    decimal_text(PORT_FIRST as u64).as_str(),
                ).concat("..=").concat(decimal_text(PORT_LAST as u64).as_str()).concat(
                    "; another broker or process owns them all",
                );
                BindStep::GiveUp(m)
            }
        },
        BindOutcome::Failed => {
            let m = "binding 127.0.0.1:".to_string().concat(decimal_text(port as u64).as_str());
            BindStep::Fail(m)
        },
    }
}

/// What a round of upkeep did.
pub struct Upkeep {
    /// How many dead sessions were removed.
    pub reaped: usize,
    /// Whether the broker shuts down.
    pub shut_down: bool,
    /// The shutdown signal, where it was given.
    pub wake: Option<Wake>,
}

/// One round of upkeep: removes the dead sessions, and gives the shutdown signal
/// of an idle broker.
pub fn maintain(st: &mut AppState, idle_timeout: Option<u128>, now: u128) -> (r: Upkeep)
    ensures
        final(st)@ == old(st)@.with_registry(old(st)@.registry.reaped(now)),
        r.reaped == old(st)@.registry.dead_sessions(now).len(),
        old(st).wf() ==> final(st).wf(),
        r.shut_down == final(st)@.is_idle(idle_timeout, now),
        r.wake is Some <==> r.shut_down,
        r.wake is Some ==> r.wake->0.signal() == *old(st).shutdown,
        final(st).shutdown == old(st).shutdown,
        forall|id: Seq<char>, role: Role|
            !old(st)@.registry.dead_sessions(now).contains(id)
                ==> #[trigger] final(st).registry.signal(id, role) == old(st).registry.signal(
                id,
                role,
            ),
{
    let reaped = st.registry.reap(now);
    proof {
        if old(st).wf() {
            law_reap_keeps_well_formed(old(st)@.registry, now);
        }
    }
    let shut_down = match idle_timeout {
        Some(limit) => time_since(now, st.last_activity) >= limit
            && st.registry.live_session_count(now) == 0,
        None => false,
    };
    let wake = if shut_down {
        Some(wake_waiters(Arc::clone(&st.shutdown)))
    } else {
        None
    };
    Upkeep { reaped, shut_down, wake }
}

} // verus!
