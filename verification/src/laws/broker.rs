//! What the running of the broker does.
use crate::broker::identity::{all_hex, generate_token, is_hex, is_simple_uuid, token_of};
use crate::broker::{
    bind_step, build_app, maintain, AppState, BindOutcome, BindStep, BrokerConfig, Upkeep,
    MAINTENANCE_INTERVAL,
};
use crate::laws::registry::{heard_lately, lemma_nobody_live, lemma_reaped, long_silent};
use crate::laws::text::{base_ten, law_decimal_stands_for_its_number, plain_digits};
use crate::protocol::{BrokerInfo, CommandResult, PROTOCOL_VERSION};
use crate::text::decimal;
use serde_json::Value;
use vstd::prelude::*;

verus! {

/// A new broker has no sessions, is active since it was made, and has the port,
/// the token and the identifier that it is given.
pub proof fn law_new_broker(token: String, uuid: String, port: u16, now: u128, r: AppState)
    requires
        call_ensures(AppState::new, (token, uuid, port, now), r),
    ensures
        r.health.port == port,
        r.health.protocol == 1,
        r.health.broker_uuid == uuid,
        r.token@ == token@,
        r.last_activity == now,
        forall|id: Seq<char>| !(#[trigger] r.registry@.sessions.contains_key(id)),
        forall|key: (Seq<char>, u64)| !(#[trigger] r.registry@.pending.contains_key(key)),
{
}

/// A broker that is built has the port and the token that it is given.
pub proof fn law_built_broker(token: String, port: u16, now: u128, r: AppState)
    requires
        call_ensures(build_app, (token, port, now), r),
    ensures
        r.health.port == port,
        r.health.protocol == 1,
        r.health.broker_uuid@.len() == 36,
        r.health.broker_uuid@[8] == '-',
        r.health.broker_uuid@[13] == '-',
        r.health.broker_uuid@[18] == '-',
        r.health.broker_uuid@[23] == '-',
        r.token@ == token@,
        r.last_activity == now,
        forall|id: Seq<char>| !(#[trigger] r.registry@.sessions.contains_key(id)),
{
}

/// What the broker leaves for adapters is what it is.
pub proof fn law_broker_info(st: &AppState, pid: u32, r: BrokerInfo)
    requires
        call_ensures(AppState::broker_info, (st, pid), r),
    ensures
        r.port == st.health.port,
        r.pid == pid,
        r.token@ == st.token@,
        r.protocol == 1,
        r.broker_uuid == st.health.broker_uuid,
        PROTOCOL_VERSION == 1,
{
}

/// A success has its value and no message, a failure its message and no value,
/// and each has the number of its command.
pub proof fn law_results(
    id: u64,
    value: Value,
    error: String,
    ok: CommandResult,
    err: CommandResult,
)
    requires
        call_ensures(CommandResult::ok, (id, value), ok),
        call_ensures(CommandResult::err, (id, error), err),
    ensures
        ok.id == id && ok.ok,
        ok.result == Some(value) && ok.error is None,
        err.id == id && !err.ok,
        err.result is None && err.error == Some(error),
{
}

/// A limit in seconds is that many seconds, and zero is no limit.
pub proof fn law_idle_limit(secs: u64, r: BrokerConfig)
    requires
        call_ensures(BrokerConfig::from_idle_secs, (secs,), r),
    ensures
        secs == 0 <==> r.idle_timeout is None,
        secs > 0 ==> r.idle_timeout->0 == secs * 1_000_000_000,
{
}

/// A token is its two parts, one after the other.
pub proof fn law_token(first: &str, second: &str, whole: String, random: String)
    requires
        call_ensures(token_of, (first, second), whole),
        call_ensures(generate_token, (), random),
    ensures
        whole@.len() == first@.len() + second@.len(),
        whole@.take(first@.len() as int) == first@,
        whole@.skip(first@.len() as int) == second@,
        random@.len() == 64,
        forall|i: int|
            0 <= i < 64 ==> {
                ||| '0' <= #[trigger] random@[i] && random@[i] <= '9'
                ||| 'a' <= random@[i] && random@[i] <= 'f'
            },
        random@[12] == '4',
        random@[44] == '4',
{
    assert(whole@.take(first@.len() as int) =~= first@);
    assert(whole@.skip(first@.len() as int) =~= second@);
    assert(random@.subrange(0, 32)[12] == random@[12]);
    assert(random@.subrange(32, 64)[12] == random@[44]);
    assert(all_hex(random@));
    assert forall|i: int| 0 <= i < 64 implies {
        ||| '0' <= #[trigger] random@[i] && random@[i] <= '9'
        ||| 'a' <= random@[i] && random@[i] <= 'f'
    } by {
        assert(is_hex(random@[i]));
    }
    assert(is_simple_uuid(random@.subrange(0, 32)));
}

/// A port that is bound is served. One that is in use makes way for the next one
/// up to the last, after which the broker gives up. Any other failure is final
/// and names the port.
pub proof fn law_bind_step(port: u16, outcome: BindOutcome, r: BindStep)
    requires
        call_ensures(bind_step, (port, outcome), r),
    ensures
        outcome is Bound <==> r is Serve,
        r is Serve ==> r->Serve_0 == port,
        r is Try <==> outcome is InUse && port < 1803,
        r is Try ==> r->Try_0 == port + 1,
        r is GiveUp <==> outcome is InUse && port >= 1803,
        r is GiveUp ==> exists|first: Seq<char>, last: Seq<char>|
            #![trigger plain_digits(first), plain_digits(last)]
            {
                &&& plain_digits(first) && base_ten(first) == 1801
                &&& plain_digits(last) && base_ten(last) == 1803
                &&& r->GiveUp_0@ == "no free port in "@ + first + "..="@ + last
                    + "; another broker or process owns them all"@
            },
        r is Fail <==> outcome is Failed,
        r is Fail ==> {
            let n = "binding 127.0.0.1:"@.len() as int;
            let text = r->Fail_0@;
            &&& text.len() > n
            &&& text.take(n) == "binding 127.0.0.1:"@
            &&& plain_digits(text.skip(n))
            &&& base_ten(text.skip(n)) == port
        },
{
    law_decimal_stands_for_its_number(1801);
    law_decimal_stands_for_its_number(1803);
    assert(plain_digits(decimal(1801)) && plain_digits(decimal(1803)));
    if r is Fail {
        let n = "binding 127.0.0.1:"@.len() as int;
        let text = r->Fail_0@;
        law_decimal_stands_for_its_number(port as nat);
        assert(text.take(n) =~= "binding 127.0.0.1:"@);
        assert(text.skip(n) =~= decimal(port as nat));
    }
}

/// A round of upkeep removes exactly the sessions all of whose roles have been
/// silent for two minutes. The broker shuts down, and its signal is given,
/// exactly where there is a limit, adapters were inactive for that long, and no
/// role of any session was heard of in the last forty seconds.
pub proof fn law_upkeep(
    st: &mut AppState,
    idle_timeout: Option<u128>,
    now: u128,
    r: Upkeep,
    id: Seq<char>,
)
    requires
        old(st).wf(),
        call_ensures(maintain, (st, idle_timeout, now), r),
    ensures
        final(st).registry@.sessions.contains_key(id) <==> old(st).registry@.sessions.contains_key(
            id,
        ) && !long_silent(old(st).registry@.sessions[id], now),
        final(st).registry@.sessions.contains_key(id) ==> final(st).registry@.sessions[id] == old(st).registry@.sessions[id],
        final(st).registry@.pending == old(st).registry@.pending,
        r.reaped == old(st).registry@.sessions.dom().filter(
            |x: Seq<char>| long_silent(old(st).registry@.sessions[x], now),
        ).len(),
        r.shut_down <==> {
            &&& idle_timeout is Some
            &&& if old(st).last_activity <= now {
                now - old(st).last_activity >= idle_timeout->0
            } else {
                idle_timeout->0 == 0
            }
            &&& forall|x: Seq<char>| #[trigger]
                old(st).registry@.sessions.contains_key(x) ==> !heard_lately(
                    old(st).registry@.sessions[x],
                    now,
                )
        },
        r.wake is Some <==> r.shut_down,
        r.wake is Some ==> r.wake->0.signal() == *old(st).shutdown,
        final(st).wf(),
        final(st).token@ == old(st).token@,
        final(st).health == old(st).health,
        final(st).last_activity == old(st).last_activity,
        final(st).shutdown == old(st).shutdown,
        MAINTENANCE_INTERVAL == 15_000_000_000,
{
    let reg = old(st).registry@;
    lemma_reaped(reg, now, id);
    lemma_nobody_live(reg, now);
}

} // verus!
