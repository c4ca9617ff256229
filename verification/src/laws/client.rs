//! What the adapter's requests to the broker are.
use crate::adapter::broker_client::{
    command_answer, command_refusal, is_success, refused_message, status_reason, wire_role,
    BrokerClient, HttpRequest, Method,
};
use crate::json::{json_of, Json};
use crate::laws::json::{entry, has_only};
use crate::laws::text::{base_ten, law_decimal_stands_for_its_number, plain_digits};
use crate::protocol::{BrokerInfo, Role};
use crate::text::decimal;
use serde_json::Value;
use vstd::prelude::*;

verus! {

/// Each role has a text of its own in messages.
pub proof fn law_roles_are_told_apart(role: Role, other: Role, r: &'static str, o: &'static str)
    requires
        call_ensures(wire_role, (role,), r),
        call_ensures(wire_role, (other,), o),
    ensures
        role is Plugin ==> r@ == "plugin"@,
        role is Server ==> r@ == "server"@,
        role is Client ==> r@ == "client"@,
        role == other <==> r@ == o@,
{
    reveal_strlit("plugin");
    reveal_strlit("server");
    reveal_strlit("client");
    assert("plugin"@[0] != "server"@[0]);
    assert("plugin"@[0] != "client"@[0]);
    assert("server"@[0] != "client"@[0]);
}

/// Whether the text is the address of a path on this port of this machine.
pub open spec fn is_local_url(url: Seq<char>, port: u16, path: Seq<char>) -> bool {
    exists|digits: Seq<char>| #[trigger]
        plain_digits(digits) && base_ten(digits) == port && url == "http://127.0.0.1:"@ + digits
            + path
}

/// The questions to a broker go to its port on this machine, by the method, with
/// the token and for the time that each has.
pub proof fn law_questions(
    info: &BrokerInfo,
    client: BrokerClient,
    health: HttpRequest,
    list: HttpRequest,
    shutdown: HttpRequest,
)
    requires
        call_ensures(BrokerClient::new, (info,), client),
        call_ensures(BrokerClient::health, (&client,), health),
        call_ensures(BrokerClient::list_sessions, (&client,), list),
        call_ensures(BrokerClient::shutdown, (&client,), shutdown),
    ensures
        health.method == Method::Get,
        is_local_url(health.url@, info.port, "/health"@),
        health.bearer is None,
        health.timeout == 2_000_000_000,
        health.body is None,
        list.method == Method::Get,
        is_local_url(list.url@, info.port, "/sessions"@),
        list.bearer is Some && list.bearer->0@ == info.token@,
        list.timeout == 5_000_000_000,
        list.body is None,
        shutdown.method == Method::Post,
        is_local_url(shutdown.url@, info.port, "/shutdown"@),
        shutdown.bearer is Some && shutdown.bearer->0@ == info.token@,
        shutdown.timeout == 2_000_000_000,
        shutdown.body is None,
{
    law_decimal_stands_for_its_number(info.port as nat);
    assert(plain_digits(decimal(info.port as nat)));
}

/// Whether the body is that of a command request with these contents.
pub open spec fn asks_for(
    body: Value,
    session_id: Seq<char>,
    tool: Seq<char>,
    args: Json,
    role: Role,
    timeout_ms: u64,
) -> bool {
    &&& has_only(
        body,
        set!["sessionId"@, "tool"@, "args"@, "targetRole"@, "timeoutMs"@],
    )
    &&& entry(body, "sessionId"@) == Some(Json::Text(session_id))
    &&& entry(body, "tool"@) == Some(Json::Text(tool))
    &&& entry(body, "args"@) == Some(args)
    &&& entry(body, "targetRole"@) == Some(
        Json::Text(
            match role {
                Role::Plugin => "plugin"@,
                Role::Server => "server"@,
                Role::Client => "client"@,
            },
        ),
    )
    &&& entry(body, "timeoutMs"@) == Some(Json::Int(timeout_ms as int))
}

/// The keys of a command request differ.
pub proof fn lemma_command_keys()
    ensures
        "sessionId"@ != "tool"@,
        "sessionId"@ != "args"@,
        "sessionId"@ != "targetRole"@,
        "sessionId"@ != "timeoutMs"@,
        "tool"@ != "args"@,
        "tool"@ != "targetRole"@,
        "tool"@ != "timeoutMs"@,
        "args"@ != "targetRole"@,
        "args"@ != "timeoutMs"@,
        "targetRole"@ != "timeoutMs"@,
{
    reveal_strlit("sessionId");
    reveal_strlit("tool");
    reveal_strlit("args");
    reveal_strlit("targetRole");
    reveal_strlit("timeoutMs");
    assert("sessionId"@[0] != "tool"@[0]);
    assert("sessionId"@[0] != "args"@[0]);
    assert("sessionId"@[0] != "targetRole"@[0]);
    assert("sessionId"@[0] != "timeoutMs"@[0]);
    assert("tool"@[0] != "args"@[0]);
    assert("tool"@.len() != "targetRole"@.len());
    assert("tool"@.len() != "timeoutMs"@.len());
    assert("args"@[0] != "targetRole"@[0]);
    assert("args"@[0] != "timeoutMs"@[0]);
    assert("targetRole"@.len() != "timeoutMs"@.len());
}

/// A command request carries exactly the session, the command, its arguments,
/// the role and the time limit that it is made for, and is waited for five
/// seconds longer than that limit.
pub proof fn law_command_request(
    info: &BrokerInfo,
    client: BrokerClient,
    session_id: &str,
    tool: &str,
    args: Value,
    role: Role,
    timeout_ms: u64,
    r: HttpRequest,
)
    requires
        call_ensures(BrokerClient::new, (info,), client),
        call_ensures(
            BrokerClient::command,
            (&client, session_id, tool, args, role, timeout_ms),
            r,
        ),
    ensures
        r.method == Method::Post,
        is_local_url(r.url@, info.port, "/command"@),
        r.bearer is Some && r.bearer->0@ == info.token@,
        r.timeout == timeout_ms * 1_000_000 + 5_000_000_000,
        r.body is Some,
        asks_for(r.body->0, session_id@, tool@, json_of(args), role, timeout_ms),
{
    law_decimal_stands_for_its_number(info.port as nat);
    assert(plain_digits(decimal(info.port as nat)));
    lemma_command_keys();
}

/// The statuses from 200 to 299 are successes. The body of a success is passed
/// on; any other answer becomes a message with the status, in digits and in
/// words, and the body.
pub proof fn law_command_answer(
    status: u16,
    body: String,
    same: &str,
    success: bool,
    answer: Result<String, String>,
    refusal: String,
)
    requires
        100 <= status <= 999,
        same@ == body@,
        call_ensures(is_success, (status,), success),
        call_ensures(command_answer, (status, body), answer),
        call_ensures(command_refusal, (status, same), refusal),
    ensures
        success <==> 200 <= status && status < 300,
        success <==> answer is Ok,
        answer is Ok ==> answer->Ok_0 == body,
        answer is Err ==> answer->Err_0@ == refusal@,
        exists|digits: Seq<char>| #[trigger]
            plain_digits(digits) && base_ten(digits) == status && refusal@
                == "broker /command returned "@ + (digits + " "@ + status_reason(status)) + ": "@
                + body@,
{
    law_decimal_stands_for_its_number(status as nat);
    assert(plain_digits(decimal(status as nat)));
}

/// The message about a refused request has the status and the body in it.
pub proof fn law_refused_message(status: &str, body: &str, r: String)
    requires
        call_ensures(refused_message, (status, body), r),
    ensures
        r@ == "broker /command returned "@ + status@ + ": "@ + body@,
{
}

} // verus!
