//! What attaching to a broker or starting one does.
use crate::adapter::spawn::{
    ensure_broker, health_ok, spawn_deadline, wait_for_broker, EnsureStep, SpawnStep,
    SPAWN_TIMEOUT,
};
use crate::protocol::{BrokerInfo, Health};
use vstd::prelude::*;

verus! {

/// Whether a broker that answered is the one that was found: it has the same
/// identifier and speaks the first protocol.
pub open spec fn is_the_one(found: Option<BrokerInfo>, health: Option<Health>) -> bool {
    &&& found is Some
    &&& health is Some
    &&& health->0.broker_uuid@ == found->0.broker_uuid@
    &&& health->0.protocol == 1
}

/// A broker is taken for the one that was found exactly where its answer says so.
pub proof fn law_health_ok(info: BrokerInfo, health: Option<Health>, r: bool)
    requires
        call_ensures(health_ok, (&info, &health), r),
    ensures
        r <==> is_the_one(Some(info), health),
{
}

/// The broker that was found is used where it answered as itself, and a new one
/// is started otherwise.
pub proof fn law_attach_or_fork(
    found: Option<BrokerInfo>,
    health: Option<Health>,
    r: EnsureStep,
)
    requires
        call_ensures(ensure_broker, (found, &health), r),
    ensures
        r is Attach <==> is_the_one(found, health),
        r is Attach ==> r->Attach_0 == found->0,
{
}

/// A new broker is waited for ten seconds: one that answers as itself is used
/// whenever it does; else the adapter looks again every fifth of a second until
/// the time is up.
pub proof fn law_wait_for_broker(
    start: u128,
    deadline: u128,
    found: Option<BrokerInfo>,
    health: Option<Health>,
    now: u128,
    r: SpawnStep,
)
    requires
        start + SPAWN_TIMEOUT <= u128::MAX,
        call_ensures(spawn_deadline, (start,), deadline),
        call_ensures(wait_for_broker, (found, &health, deadline, now), r),
    ensures
        deadline == start + 10_000_000_000,
        r is Up <==> is_the_one(found, health),
        r is Up ==> r->Up_0 == found->0,
        r is TimedOut <==> !is_the_one(found, health) && now >= start + 10_000_000_000,
        r is TimedOut ==> r->TimedOut_0@ == "forked broker did not become healthy within 10s"@,
        r is Sleep ==> r->Sleep_0 == 200_000_000,
{
}

} // verus!
