//! What the tools of the MCP server do.
use crate::adapter::broker_client::{BrokerClient, HttpRequest, Method};
use crate::adapter::resolve::resolution;
use crate::adapter::server::{
    list_failure, server_live, session_with_id, stop_report, tool_reply, DustServer, PlaytestStop,
    SentCommand,
};
use crate::adapter::tools::ToolCall;
use crate::json::{json_of, no_entries, Json};
use crate::laws::client::{asks_for, lemma_command_keys};
use crate::laws::json::{entry, has_only};
use crate::laws::resolve::{first_by, goes_by, has_live, lemma_named, lemma_unnamed};
use crate::protocol::{CommandResult, LiveState, Role, SessionInfo};
use serde_json::Value;
use std::sync::Arc;
use vstd::prelude::*;

verus! {

/// Whether a call with this name for its session, or none, may be meant for the
/// session with this id: the first that goes by the name, or the only live one.
pub open spec fn meant(
    sessions: Seq<SessionInfo>,
    name: Option<Seq<char>>,
    id: Seq<char>,
) -> bool {
    match name {
        Some(n) => exists|i: int| #[trigger]
            first_by(sessions, n, i) && sessions[i].session_id@ == id,
        None => exists|i: int|
            0 <= i < sessions.len() && has_live(#[trigger] sessions[i])
                && sessions[i].session_id@ == id && forall|j: int|
                0 <= j < sessions.len() && j != i ==> !has_live(#[trigger] sessions[j]),
    }
}

/// Whether no session can be meant by a call with this name for its session, or
/// none: nothing goes by the name, or not exactly one is live.
pub open spec fn nobody_meant(sessions: Seq<SessionInfo>, name: Option<Seq<char>>) -> bool {
    match name {
        Some(n) => forall|i: int|
            0 <= i < sessions.len() ==> !goes_by(#[trigger] sessions[i], n),
        None => {
            ||| forall|i: int| 0 <= i < sessions.len() ==> !has_live(#[trigger] sessions[i])
            ||| exists|i: int, j: int|
                0 <= i < j < sessions.len() && has_live(#[trigger] sessions[i]) && has_live(
                    #[trigger] sessions[j],
                )
        },
    }
}

proof fn lemma_meant(sessions: Seq<SessionInfo>, name: Option<Seq<char>>)
    ensures
        match resolution(sessions, name) {
            Ok(id) => meant(sessions, name, id),
            Err(_) => nobody_meant(sessions, name),
        },
{
    match name {
        Some(n) => {
            lemma_named(sessions, n);
        },
        None => {
            lemma_unnamed(sessions);
        },
    }
}

/// A name with its characters.
pub open spec fn name_of(s: Option<String>) -> Option<Seq<char>> {
    if s is Some {
        Some(s->0@)
    } else {
        None
    }
}

/// Whether the request posts this command to the server's broker.
pub open spec fn posts(
    server: &DustServer,
    request: HttpRequest,
    session_id: Seq<char>,
    tool: Seq<char>,
    args: Json,
    role: Role,
    timeout_ms: u64,
) -> bool {
    &&& request.method == Method::Post
    &&& request.url@ == server.broker.base() + "/command"@
    &&& request.bearer is Some && request.bearer->0@ == server.broker.token()
    &&& request.timeout == timeout_ms * 1_000_000 + 5_000_000_000
    &&& request.body is Some
    &&& asks_for(request.body->0, session_id, tool, args, role, timeout_ms)
}

/// A tool call is sent to the session that it is meant for and to no other: the
/// first listed one that goes by the name it was given, live or not, or the only
/// live one where it was given none. Where no session can be meant, or the
/// broker does not answer, nothing is sent. What is sent is the command, with
/// the arguments, the role and the time limit of the call.
pub proof fn law_tool_call_is_sent_where_it_is_meant(
    server: &DustServer,
    call: ToolCall,
    listed: Result<Vec<SessionInfo>, String>,
    r: Result<SentCommand, String>,
)
    requires
        call_ensures(DustServer::run_tool, (server, call, listed), r),
    ensures
        r is Ok ==> {
            &&& listed is Ok
            &&& meant(listed->Ok_0@, name_of(call.session), r->Ok_0.session_id@)
            &&& r->Ok_0.role == call.role
            &&& posts(
                server,
                r->Ok_0.request,
                r->Ok_0.session_id@,
                call.tool@,
                json_of(call.args),
                call.role,
                call.timeout_ms,
            )
        },
        r is Err && listed is Ok ==> nobody_meant(listed->Ok_0@, name_of(call.session)),
        listed is Err ==> r is Err && r->Err_0@ == "failed to reach broker: "@
            + listed->Err_0@,
{
    lemma_command_keys();
    if listed is Ok {
        lemma_meant(listed->Ok_0@, name_of(call.session));
    }
}

/// A tool call that names a session is sent to a listed session with that id or
/// label, and is refused where no listed session has it.
pub proof fn law_named_call_reaches_that_session(
    server: &DustServer,
    call: ToolCall,
    sessions: Vec<SessionInfo>,
    r: Result<SentCommand, String>,
)
    requires
        call.session is Some,
        call_ensures(DustServer::run_tool, (server, call, Ok(sessions)), r),
    ensures
        r is Ok <==> exists|i: int|
            0 <= i < sessions@.len() && goes_by(#[trigger] sessions@[i], call.session->0@),
        r is Ok ==> exists|i: int|
            0 <= i < sessions@.len() && goes_by(#[trigger] sessions@[i], call.session->0@)
                && sessions@[i].session_id@ == r->Ok_0.session_id@,
{
    law_tool_call_is_sent_where_it_is_meant(server, call, Ok(sessions), r);
    if r is Ok {
        let i = choose|i: int| #[trigger]
            first_by(sessions@, call.session->0@, i) && sessions@[i].session_id@
                == r->Ok_0.session_id@;
        assert(goes_by(sessions@[i], call.session->0@));
    }
}

proof fn lemma_server_live(sessions: Seq<SessionInfo>, id: Seq<char>)
    ensures
        match session_with_id(sessions, id) {
            Some(s) => exists|i: int|
                0 <= i < sessions.len() && (#[trigger] sessions[i]).session_id@ == id
                    && sessions[i] == s && forall|j: int|
                    0 <= j < i ==> (#[trigger] sessions[j]).session_id@ != id,
            None => forall|i: int|
                0 <= i < sessions.len() ==> (#[trigger] sessions[i]).session_id@ != id,
        },
    decreases sessions.len(),
{
    if sessions.len() > 0 {
        if sessions[0].session_id@ != id {
            let rest = sessions.drop_first();
            lemma_server_live(rest, id);
            match session_with_id(rest, id) {
                Some(s) => {
                    let i = choose|i: int|
                        0 <= i < rest.len() && (#[trigger] rest[i]).session_id@ == id && rest[i]
                            == s && forall|j: int|
                            0 <= j < i ==> (#[trigger] rest[j]).session_id@ != id;
                    assert(sessions[i + 1] == s);
                    assert forall|j: int| 0 <= j < i + 1 implies (
                    #[trigger] sessions[j]).session_id@ != id by {
                        if j > 0 {
                            assert(rest[j - 1] == sessions[j]);
                        }
                    }
                },
                None => {
                    assert forall|i: int| 0 <= i < sessions.len() implies (
                    #[trigger] sessions[i]).session_id@ != id by {
                        if i > 0 {
                            assert(rest[i - 1] == sessions[i]);
                        }
                    }
                },
            }
        }
    }
}

/// Whether the server of the session is listed as live.
pub open spec fn has_live_server(s: SessionInfo) -> bool {
    exists|i: int|
        0 <= i < s.roles@.len() && (#[trigger] s.roles@[i]).role == Role::Server
            && s.roles@[i].state == LiveState::Live
}

/// To stop a playtest, the helpers of the session that is meant are removed in
/// any case, by its plugin; and the playtest is ended, by its server, exactly
/// where the first listed session of that id has a live one.
pub proof fn law_playtest_is_stopped(
    server: &DustServer,
    name: Option<&str>,
    listed: Result<Vec<SessionInfo>, String>,
    r: Result<PlaytestStop, String>,
)
    requires
        call_ensures(DustServer::stop_playtest, (server, name, listed), r),
    ensures
        ({
            let wanted = if name is Some {
                Some(name->0@)
            } else {
                None
            };
            &&& r is Ok ==> {
                let id = r->Ok_0.session_id@;
                &&& listed is Ok
                &&& meant(listed->Ok_0@, wanted, id)
                &&& posts(
                    server,
                    r->Ok_0.cleanup,
                    id,
                    "cleanup_helpers"@,
                    Json::Object(no_entries()),
                    Role::Plugin,
                    15_000,
                )
                &&& r->Ok_0.end is Some ==> posts(
                    server,
                    r->Ok_0.end->0,
                    id,
                    "end_playtest"@,
                    Json::Object(no_entries()),
                    Role::Server,
                    10_000,
                )
                &&& r->Ok_0.end is Some <==> exists|i: int|
                    0 <= i < listed->Ok_0@.len() && (#[trigger] listed->Ok_0@[i]).session_id@ == id
                        && has_live_server(listed->Ok_0@[i]) && forall|j: int|
                        0 <= j < i ==> (#[trigger] listed->Ok_0@[j]).session_id@ != id
            }
            &&& r is Err && listed is Ok ==> nobody_meant(listed->Ok_0@, wanted)
            &&& listed is Err ==> r is Err && r->Err_0@ == "failed to reach broker: "@
                + listed->Err_0@
        }),
{
    lemma_command_keys();
    if listed is Ok {
        let sessions = listed->Ok_0@;
        lemma_meant(
            sessions,
            if name is Some {
                Some(name->0@)
            } else {
                None
            },
        );
        if r is Ok {
            let id = r->Ok_0.session_id@;
            lemma_server_live(sessions, id);
            if server_live(sessions, id) {
                let i = choose|i: int|
                    0 <= i < sessions.len() && (#[trigger] sessions[i]).session_id@ == id
                        && sessions[i] == session_with_id(sessions, id)->0 && forall|j: int|
                        0 <= j < i ==> (#[trigger] sessions[j]).session_id@ != id;
                assert(has_live_server(sessions[i]));
            }
            if exists|i: int|
                0 <= i < sessions.len() && (#[trigger] sessions[i]).session_id@ == id
                    && has_live_server(sessions[i]) && forall|j: int|
                    0 <= j < i ==> (#[trigger] sessions[j]).session_id@ != id {
                let i = choose|i: int|
                    0 <= i < sessions.len() && (#[trigger] sessions[i]).session_id@ == id
                        && has_live_server(sessions[i]) && forall|j: int|
                        0 <= j < i ==> (#[trigger] sessions[j]).session_id@ != id;
                assert(session_with_id(sessions, id) is Some);
                let k = choose|k: int|
                    0 <= k < sessions.len() && (#[trigger] sessions[k]).session_id@ == id
                        && sessions[k] == session_with_id(sessions, id)->0 && forall|j: int|
                        0 <= j < k ==> (#[trigger] sessions[j]).session_id@ != id;
                assert(i == k) by {
                    if i < k {
                        assert(sessions[i].session_id@ != id);
                    } else if k < i {
                        assert(sessions[k].session_id@ != id);
                    }
                }
                assert(has_live_server(sessions[k]));
                assert(server_live(sessions, id));
            }
        }
    }
}

/// A server speaks to the broker that it is made for.
pub proof fn law_new_server(broker: Arc<BrokerClient>, r: DustServer)
    requires
        call_ensures(DustServer::new, (broker,), r),
    ensures
        r.broker.base() == broker.base(),
        r.broker.token() == broker.token(),
{
}

/// The first step of a tool call asks the server's broker for its sessions.
pub proof fn law_sessions_are_asked_for(server: &DustServer, r: HttpRequest)
    requires
        call_ensures(DustServer::list_sessions, (server,), r),
    ensures
        r.method == Method::Get,
        r.url@ == server.broker.base() + "/sessions"@,
        r.bearer is Some && r.bearer->0@ == server.broker.token(),
        r.timeout == 5_000_000_000,
        r.body is None,
{
}

/// A success is replied with the id of its session and its value, or null for
/// none, whatever the role: two roles with the same success reply the same.
pub proof fn law_success_is_replied_whole(
    session_id: &str,
    role: Role,
    other: Role,
    result: CommandResult,
    r: Result<Value, String>,
    o: Result<Value, String>,
)
    requires
        result.ok,
        call_ensures(tool_reply, (session_id, role, Ok(result)), r),
        call_ensures(tool_reply, (session_id, other, Ok(result)), o),
    ensures
        r is Ok,
        has_only(r->Ok_0, set!["sessionId"@, "result"@]),
        entry(r->Ok_0, "sessionId"@) == Some(Json::Text(session_id@)),
        result.result is Some ==> entry(r->Ok_0, "result"@) == Some(json_of(result.result->0)),
        result.result is None ==> entry(r->Ok_0, "result"@) == Some(Json::Null),
        o is Ok,
        json_of(o->Ok_0) == json_of(r->Ok_0),
{
    reveal_strlit("sessionId");
    reveal_strlit("result");
    assert("sessionId"@.len() != "result"@.len());
}

/// A failure is replied as a message: what the role says of it, under the role's
/// name, or why there is no answer.
pub proof fn law_failure_is_replied(
    session_id: &str,
    role: Role,
    answer: Result<CommandResult, String>,
    r: Result<Value, String>,
)
    requires
        call_ensures(tool_reply, (session_id, role, answer), r),
    ensures
        r is Ok <==> answer is Ok && answer->Ok_0.ok,
        answer is Err ==> r->Err_0@ == "command failed: "@ + answer->Err_0@,
        answer is Ok && !answer->Ok_0.ok ==> {
            let name = match role {
                Role::Plugin => "Plugin"@,
                Role::Server => "Server"@,
                Role::Client => "Client"@,
            };
            &&& answer->Ok_0.error is Some ==> r->Err_0@ == name + " helper returned an error: "@
                + answer->Ok_0.error->0@
            &&& answer->Ok_0.error is None ==> r->Err_0@ == name + " helper returned an error: "@
                + "unknown"@
        },
{
}

/// Whether the entry reports this answer to a command.
pub open spec fn reports(e: Option<Json>, answer: Result<CommandResult, String>) -> bool {
    &&& e matches Some(Json::Object(m))
    &&& match answer {
        Ok(a) => {
            &&& m.dom() == set!["ok"@, "result"@, "error"@]
            &&& m["ok"@] == Json::Bool(a.ok)
            &&& a.result is Some ==> m["result"@] == json_of(a.result->0)
            &&& a.result is None ==> m["result"@] == Json::Null
            &&& a.error is Some ==> m["error"@] == Json::Text(a.error->0@)
            &&& a.error is None ==> m["error"@] == Json::Null
        },
        Err(e) => {
            &&& m.dom() == set!["ok"@, "error"@]
            &&& m["ok"@] == Json::Bool(false)
            &&& m["error"@] == Json::Text(e@)
        },
    }
}

/// The report on a stopped playtest names the session and has each of the two
/// answers under its own key, or says that the end was not asked for.
pub proof fn law_playtest_is_reported(
    session_id: &str,
    end: Option<Result<CommandResult, String>>,
    cleanup: Result<CommandResult, String>,
    r: Value,
)
    requires
        call_ensures(stop_report, (session_id, end, cleanup), r),
    ensures
        has_only(r, set!["sessionId"@, "endPlaytest"@, "cleanup"@]),
        entry(r, "sessionId"@) == Some(Json::Text(session_id@)),
        reports(entry(r, "cleanup"@), cleanup),
        end is Some ==> reports(entry(r, "endPlaytest"@), end->0),
        end is None ==> {
            &&& entry(r, "endPlaytest"@) matches Some(Json::Object(m))
            &&& m.dom() == set!["skipped"@]
            &&& m["skipped"@] == Json::Text(
                "no live server helper — playtest not running, or injection/HTTP not ready"@,
            )
        },
{
    reveal_strlit("sessionId");
    reveal_strlit("endPlaytest");
    reveal_strlit("cleanup");
    reveal_strlit("ok");
    reveal_strlit("result");
    reveal_strlit("error");
    assert("sessionId"@.len() == 9 && "endPlaytest"@.len() == 11 && "cleanup"@.len() == 7);
    assert("ok"@.len() == 2 && "result"@.len() == 6 && "error"@.len() == 5);
    let m = json_of(r)->Object_0;
    let c = m["cleanup"@]->Object_0;
    let e = m["endPlaytest"@]->Object_0;
    match cleanup {
        Ok(a) => assert(c.dom() =~= set!["ok"@, "result"@, "error"@]),
        Err(x) => assert(c.dom() =~= set!["ok"@, "error"@]),
    }
    match end {
        Some(Ok(a)) => assert(e.dom() =~= set!["ok"@, "result"@, "error"@]),
        Some(Err(x)) => assert(e.dom() =~= set!["ok"@, "error"@]),
        None => assert(e.dom() =~= set!["skipped"@]),
    }
}

/// A listing that failed is told with its reason.
pub proof fn law_list_failure(error: &str, r: String)
    requires
        call_ensures(list_failure, (error,), r),
    ensures
        r@ == "failed to list sessions: "@ + error@,
{
}

} // verus!
