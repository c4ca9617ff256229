//! The MCP server: what a tool call asks of the broker, step by step, and what
//! the client is told in the end.
//!
//! A tool call asks the broker for its sessions, settles which one is meant,
//! sends a command there and turns the answer into a reply. Every failure is a
//! reply too: a message that the caller can read and act on.
use crate::adapter::broker_client::{
    command_body, BrokerClient, HttpRequest, Method, CLIENT_TIMEOUT_SLACK,
};
use crate::adapter::resolve::{
    is_role_live, resolution, resolve_session, role_live, text_option,
};
use crate::adapter::tools::ToolCall;
use crate::broker::session::NANOS_PER_MILLI;
use crate::broker::NANOS_PER_SEC;
use crate::json::{
    given, json_of, no_entries, or_null, text, text_or_null, value_or_null, Json, JsonObject,
};
use crate::protocol::{CommandResult, Role, SessionInfo};
use serde_json::Value;
use std::sync::Arc;
use vstd::prelude::*;

verus! {

/// How long the broker waits for the end of a playtest, in milliseconds.
pub const END_PLAYTEST_TIMEOUT_MS: u64 = 10_000;

/// How long the broker waits for the removal of the helpers, in milliseconds.
pub const CLEANUP_TIMEOUT_MS: u64 = 15_000;

/// How a role is written in replies.
pub open spec fn role_title(role: Role) -> Seq<char> {
    match role {
        Role::Plugin => "Plugin"@,
        Role::Server => "Server"@,
        Role::Client => "Client"@,
    }
}

fn title_of(role: Role) -> (r: &'static str)
    ensures
        r@ == role_title(role),
{
    match role {
        Role::Plugin => "Plugin",
        Role::Server => "Server",
        Role::Client => "Client",
    }
}

/// A string that may be missing, with its characters.
pub open spec fn selector_text(s: Option<String>) -> Option<Seq<char>> {
    match s {
        Some(t) => Some(t@),
        None => None,
    }
}

fn selector_str(s: &Option<String>) -> (r: Option<&str>)
    ensures
        text_option(r) == selector_text(*s),
{
    match s {
        Some(t) => Some(t.as_str()),
        None => None,
    }
}

/// The session that a call is meant for, given the broker's answer to the
/// question for its sessions, or the message for the caller.
pub open spec fn chosen(
    listed: Result<Vec<SessionInfo>, String>,
    selector: Option<Seq<char>>,
) -> Result<Seq<char>, Seq<char>> {
    match listed {
        Ok(sessions) => resolution(sessions@, selector),
        Err(e) => Err("failed to reach broker: "@ + e@),
    }
}

fn choose_session(
    listed: &Result<Vec<SessionInfo>, String>,
    selector: Option<&str>,
) -> (r: Result<String, String>)
    ensures
        match chosen(*listed, text_option(selector)) {
            Ok(id) => r is Ok && r->Ok_0@ == id,
            Err(m) => r is Err && r->Err_0@ == m,
        },
{
    match listed {
        Ok(sessions) => resolve_session(sessions.as_slice(), selector),
        Err(e) => Err("failed to reach broker: ".to_string().concat(e.as_str())),
    }
}

/// The first session with this id.
pub open spec fn session_with_id(sessions: Seq<SessionInfo>, id: Seq<char>) -> Option<SessionInfo>
    decreases sessions.len(),
{
    if sessions.len() == 0 {
        None
    } else if sessions[0].session_id@ == id {
        Some(sessions[0])
    } else {
        session_with_id(sessions.drop_first(), id)
    }
}

/// Whether the first session with this id has a live server.
pub open spec fn server_live(sessions: Seq<SessionInfo>, id: Seq<char>) -> bool {
    match session_with_id(sessions, id) {
        Some(s) => role_live(s, Role::Server),
        None => false,
    }
}

fn is_server_live(sessions: &Vec<SessionInfo>, id: &String) -> (r: bool)
    ensures
        r == server_live(sessions@, id@),
{
    assert(sessions@.skip(0) =~= sessions@);
    for i in 0..sessions.len()
        invariant
            session_with_id(sessions@, id@) == session_with_id(sessions@.skip(i as int), id@),
    {
        assert(sessions@.skip(i as int).drop_first() =~= sessions@.skip(i + 1));
        let s = &sessions[i];
        if s.session_id == *id {
            return is_role_live(s, Role::Server);
        }
    }
    false
}

/// A command that was sent for a tool call.
pub struct SentCommand {
    /// The session that it was sent to.
    pub session_id: String,
    /// The role that it was sent to.
    pub role: Role,
    /// The request that sends it.
    pub request: HttpRequest,
}

/// The two commands that stop a playtest.
pub struct PlaytestStop {
    /// The session of the playtest.
    pub session_id: String,
    /// The request that ends the playtest, where a server is live to do so.
    pub end: Option<HttpRequest>,
    /// The request that removes the helpers.
    pub cleanup: HttpRequest,
}

/// The MCP server, which speaks to one broker.
pub struct DustServer {
    /// The broker.
    pub broker: Arc<BrokerClient>,
}

impl DustServer {
    /// The server for this broker.
    pub fn new(broker: Arc<BrokerClient>) -> (r: Self)
        ensures
            r.broker == broker,
    {
        DustServer { broker }
    }

    /// Whether the request sends this command to the server's broker.
    pub open spec fn sends(
        &self,
        request: HttpRequest,
        session_id: Seq<char>,
        tool: Seq<char>,
        args: Json,
        role: Role,
        timeout_ms: u64,
    ) -> bool {
        request.sends(
            Method::Post,
            self.broker.base() + "/command"@,
            Some(self.broker.token()),
            timeout_ms * NANOS_PER_MILLI + CLIENT_TIMEOUT_SLACK,
            command_body(session_id, tool, args, role, timeout_ms),
        )
    }

    /// Asks the broker for its sessions: the first step of every tool call.
    pub fn list_sessions(&self) -> (r: HttpRequest)
        ensures
            r.asks(
                Method::Get,
                self.broker.base() + "/sessions"@,
                Some(self.broker.token()),
                5 * NANOS_PER_SEC,
            ),
    {
        self.broker.list_sessions()
    }

    /// The second step of a tool call: settles which session is meant and sends
    /// the command there, or says why there is none to send it to.
    pub fn run_tool(&self, call: ToolCall, listed: Result<Vec<SessionInfo>, String>) -> (r: Result<
        SentCommand,
        String,
    >)
        ensures
            match chosen(listed, selector_text(call.session)) {
                Ok(id) => {
                    &&& r is Ok
                    &&& r->Ok_0.session_id@ == id
                    &&& r->Ok_0.role == call.role
                    &&& self.sends(
                        r->Ok_0.request,
                        id,
                        call.tool@,
                        json_of(call.args),
                        call.role,
                        call.timeout_ms,
                    )
                },
                Err(m) => r is Err && r->Err_0@ == m,
            },
    {
        let selector = selector_str(&call.session);
        match choose_session(&listed, selector) {
            Ok(session_id) => {
                let request = self.broker.command(
                    session_id.as_str(),
                    call.tool.as_str(),
                    call.args,
                    call.role,
                    call.timeout_ms,
                );
                Ok(SentCommand { session_id, role: call.role, request })
            },
            Err(m) => Err(m),
        }
    }

    /// The second step of the tool that stops a playtest: ends it where a server
    /// is live to do so, and removes the helpers in any case.
    pub fn stop_playtest(
        &self,
        selector: Option<&str>,
        listed: Result<Vec<SessionInfo>, String>,
    ) -> (r: Result<PlaytestStop, String>)
        ensures
            match chosen(listed, text_option(selector)) {
                Ok(id) => {
                    &&& r is Ok
                    &&& r->Ok_0.session_id@ == id
                    &&& r->Ok_0.end is Some <==> server_live(listed->Ok_0@, id)
                    &&& r->Ok_0.end is Some ==> self.sends(
                        r->Ok_0.end->0,
                        id,
                        "end_playtest"@,
                        Json::Object(no_entries()),
                        Role::Server,
                        END_PLAYTEST_TIMEOUT_MS,
                    )
                    &&& self.sends(
                        r->Ok_0.cleanup,
                        id,
                        "cleanup_helpers"@,
                        Json::Object(no_entries()),
                        Role::Plugin,
                        CLEANUP_TIMEOUT_MS,
                    )
                },
                Err(m) => r is Err && r->Err_0@ == m,
            },
    {
        let session_id = match choose_session(&listed, selector) {
            Ok(id) => id,
            Err(m) => {
                return Err(m);
            },
        };
        let running = match &listed {
            Ok(sessions) => is_server_live(sessions, &session_id),
            Err(_) => false,
        };
        let end = if running {
            Some(
                self.broker.command(
                    session_id.as_str(),
                    "end_playtest",
                    JsonObject::new().build(),
                    Role::Server,
                    END_PLAYTEST_TIMEOUT_MS,
                ),
            )
        } else {
            None
        };
        let cleanup = self.broker.command(
            session_id.as_str(),
            "cleanup_helpers",
            JsonObject::new().build(),
            Role::Plugin,
            CLEANUP_TIMEOUT_MS,
        );
        Ok(PlaytestStop { session_id, end, cleanup })
    }
}

/// The message where the broker does not say which sessions it has.
pub fn list_failure(error: &str) -> (r: String)
    ensures
        r@ == "failed to list sessions: "@ + error@,
{
    "failed to list sessions: ".to_string().concat(error)
}

/// The message of a role that failed, or a stand-in for a missing one.
pub open spec fn error_text(result: CommandResult) -> Seq<char> {
    match result.error {
        Some(e) => e@,
        None => "unknown"@,
    }
}

/// What the caller of a tool is told: the session and the value of a success,
/// or the message of a failure.
pub open spec fn reply(
    session_id: Seq<char>,
    role: Role,
    answer: Result<CommandResult, String>,
) -> Result<Json, Seq<char>> {
    match answer {
        Ok(result) => if result.ok {
            Ok(
                Json::Object(
                    no_entries().insert("sessionId"@, Json::Text(session_id)).insert(
                        "result"@,
                        or_null(given(result.result)),
                    ),
                ),
            )
        } else {
            Err(role_title(role) + " helper returned an error: "@ + error_text(result))
        },
        Err(e) => Err("command failed: "@ + e@),
    }
}

/// The last step of a tool call: turns the answer to its command into a reply.
pub fn tool_reply(session_id: &str, role: Role, answer: Result<CommandResult, String>) -> (r: Result<
    Value,
    String,
>)
    ensures
        match reply(session_id@, role, answer) {
            Ok(json) => r is Ok && json_of(r->Ok_0) == json,
            Err(m) => r is Err && r->Err_0@ == m,
        },
{
    match answer {
        Ok(result) => {
            if result.ok {
                Ok(
                    JsonObject::new().with_text("sessionId", session_id).with(
                        "result",
                        value_or_null(result.result),
                    ).build(),
                )
            } else {
                let error = match result.error {
                    Some(e) => e,
                    None => "unknown".to_string(),
                };
                Err(
                    title_of(role).to_string().concat(" helper returned an error: ").concat(
                        error.as_str(),
                    ),
                )
            }
        },
        Err(e) => Err("command failed: ".to_string().concat(e.as_str())),
    }
}

/// How an answer stands in the report on a stopped playtest.
pub open spec fn answer_report(answer: Result<CommandResult, String>) -> Json {
    match answer {
        Ok(r) => Json::Object(
            no_entries().insert("ok"@, Json::Bool(r.ok)).insert(
                "result"@,
                or_null(given(r.result)),
            ).insert("error"@, or_null(text(r.error))),
        ),
        Err(e) => Json::Object(
            no_entries().insert("ok"@, Json::Bool(false)).insert("error"@, Json::Text(e@)),
        ),
    }
}

fn answer_value(answer: Result<CommandResult, String>) -> (r: Value)
    ensures
        json_of(r) == answer_report(answer),
{
    match answer {
        Ok(r) => JsonObject::new().with_flag("ok", r.ok).with(
            "result",
            value_or_null(r.result),
        ).with("error", text_or_null(&r.error)).build(),
        Err(e) => JsonObject::new().with_flag("ok", false).with_text("error", e.as_str()).build(),
    }
}

/// How the end of a playtest stands in the report, where it may not have been
/// asked for.
pub open spec fn end_report(end: Option<Result<CommandResult, String>>) -> Json {
    match end {
        Some(answer) => answer_report(answer),
        None => Json::Object(
            no_entries().insert(
                "skipped"@,
                Json::Text(
                    "no live server helper — playtest not running, or injection/HTTP not ready"@,
                ),
            ),
        ),
    }
}

/// The last step of the tool that stops a playtest: reports on both commands.
pub fn stop_report(
    session_id: &str,
    end: Option<Result<CommandResult, String>>,
    cleanup: Result<CommandResult, String>,
) -> (r: Value)
    ensures
        json_of(r) == Json::Object(
            no_entries().insert("sessionId"@, Json::Text(session_id@)).insert(
                "endPlaytest"@,
                end_report(end),
            ).insert("cleanup"@, answer_report(cleanup)),
        ),
{
    let end_value = match end {
        Some(answer) => answer_value(answer),
        None => JsonObject::new().with_text(
            "skipped",
            "no live server helper — playtest not running, or injection/HTTP not ready",
        ).build(),
    };
    JsonObject::new().with_text("sessionId", session_id).with("endPlaytest", end_value).with(
        "cleanup",
        answer_value(cleanup),
    ).build()
}

} // verus!
