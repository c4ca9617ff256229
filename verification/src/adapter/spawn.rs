//! Attaching to a running broker, or starting one.
//!
//! An adapter reads the rendezvous file and asks the broker named there what it
//! is. Only a broker with the same identifier and protocol will do: the file may
//! be stale, and somebody else may have the port.
use crate::protocol::{BrokerInfo, Health, PROTOCOL_VERSION};
use vstd::prelude::*;

verus! {

/// How long to wait for a new broker to come up.
pub const SPAWN_TIMEOUT: u128 = 10_000_000_000;

/// The time between two looks for a new broker.
pub const POLL_INTERVAL: u128 = 200_000_000;

/// Whether the answer shows that the broker is the one in the rendezvous file.
pub open spec fn recognized(info: BrokerInfo, health: Option<Health>) -> bool {
    health is Some && health->0.broker_uuid@ == info.broker_uuid@ && health->0.protocol
        == PROTOCOL_VERSION
}

/// Computes [`recognized`]; a broker that gave no answer is not recognized.
pub fn health_ok(info: &BrokerInfo, health: &Option<Health>) -> (r: bool)
    ensures
        r == recognized(*info, *health),
{
    match health {
        Some(h) => h.broker_uuid == info.broker_uuid && h.protocol == PROTOCOL_VERSION,
        None => false,
    }
}

/// What an adapter does when it starts.
pub enum EnsureStep {
    /// Use this broker.
    Attach(BrokerInfo),
    /// Start a broker.
    Fork,
}

/// Settles whether to use the broker in the rendezvous file, given its answer.
pub fn ensure_broker(found: Option<BrokerInfo>, health: &Option<Health>) -> (r: EnsureStep)
    ensures
        match r {
            EnsureStep::Attach(info) => found == Some(info) && recognized(info, *health),
            EnsureStep::Fork => found is Some ==> !recognized(found->0, *health),
        },
{
    match found {
        Some(info) => if health_ok(&info, health) {
            EnsureStep::Attach(info)
        } else {
            EnsureStep::Fork
        },
        None => EnsureStep::Fork,
    }
}

/// When the wait for a new broker that starts at `now` is over.
pub fn spawn_deadline(now: u128) -> (r: u128)
    requires
        now + SPAWN_TIMEOUT <= u128::MAX,
    ensures
        r == now + SPAWN_TIMEOUT,
{
    now + SPAWN_TIMEOUT
}

/// What an adapter that waits for a new broker does next.
pub enum SpawnStep {
    /// Use this broker.
    Up(BrokerInfo),
    /// Give up, with this message.
    TimedOut(String),
    /// Look again after this long.
    Sleep(u128),
}

/// The message of an adapter that waited in vain.
pub open spec fn spawn_timeout_text() -> Seq<char> {
    "forked broker did not become healthy within 10s"@
}

/// One look for a new broker: a recognized one is used even after the deadline.
pub fn wait_for_broker(
    found: Option<BrokerInfo>,
    health: &Option<Health>,
    deadline: u128,
    now: u128,
) -> (r: SpawnStep)
    ensures
        match r {
            SpawnStep::Up(info) => found == Some(info) && recognized(info, *health),
            SpawnStep::TimedOut(m) => (found is Some ==> !recognized(found->0, *health)) && deadline
                <= now && m@ == spawn_timeout_text(),
            SpawnStep::Sleep(t) => (found is Some ==> !recognized(found->0, *health)) && now
                < deadline && t == POLL_INTERVAL,
        },
{
    match ensure_broker(found, health) {
        EnsureStep::Attach(info) => SpawnStep::Up(info),
        EnsureStep::Fork => if now >= deadline {
            SpawnStep::TimedOut("forked broker did not become healthy within 10s".to_string())
        } else {
            SpawnStep::Sleep(POLL_INTERVAL)
        },
    }
}

} // verus!
