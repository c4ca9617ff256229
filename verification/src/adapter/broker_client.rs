//! The adapter's requests to the broker, and what its answers mean.
use crate::broker::session::NANOS_PER_MILLI;
use crate::broker::NANOS_PER_SEC;
use crate::json::{json_of, no_entries, Json, JsonObject};
use crate::protocol::{BrokerInfo, Role};
use crate::text::{decimal, decimal_text};
use reqwest::StatusCode;
use serde_json::Value;
use vstd::prelude::*;

verus! {

/// How much longer than the broker the adapter waits for a command.
pub const CLIENT_TIMEOUT_SLACK: u128 = 5_000_000_000;

/// The method of an HTTP request.
#[derive(Clone, Copy, Debug, PartialEq, Eq, Structural)]
pub enum Method {
    Get,
    Post,
}

/// An HTTP request to the broker.
pub struct HttpRequest {
    pub method: Method,
    pub url: String,
    /// The token of the `authorization` header, after `Bearer `.
    pub bearer: Option<String>,
    /// How long to wait for the answer.
    pub timeout: u128,
    /// The JSON body.
    pub body: Option<Value>,
}

impl HttpRequest {
    /// Whether the request is this one, without a body.
    pub open spec fn asks(
        self,
        method: Method,
        url: Seq<char>,
        bearer: Option<Seq<char>>,
        timeout: int,
    ) -> bool {
        &&& self.method == method
        &&& self.url@ == url
        &&& match bearer {
            Some(t) => self.bearer is Some && self.bearer->0@ == t,
            None => self.bearer is None,
        }
        &&& self.timeout == timeout
        &&& self.body is None
    }

    /// Whether the request is this one, with this JSON object as its body.
    pub open spec fn sends(
        self,
        method: Method,
        url: Seq<char>,
        bearer: Option<Seq<char>>,
        timeout: int,
        body: Map<Seq<char>, Json>,
    ) -> bool {
        &&& (HttpRequest { body: None, ..self }).asks(method, url, bearer, timeout)
        &&& self.body is Some
        &&& json_of(self.body->0) == Json::Object(body)
    }
}

/// How a role is written in messages.
pub open spec fn wire_name(role: Role) -> Seq<char> {
    match role {
        Role::Plugin => "plugin"@,
        Role::Server => "server"@,
        Role::Client => "client"@,
    }
}

/// Writes a role as in messages.
pub fn wire_role(role: Role) -> (r: &'static str)
    ensures
        r@ == wire_name(role),
{
    match role {
        Role::Plugin => "plugin",
        Role::Server => "server",
        Role::Client => "client",
    }
}

/// The JSON body of a command request.
pub open spec fn command_body(
    session_id: Seq<char>,
    tool: Seq<char>,
    args: Json,
    role: Role,
    timeout_ms: u64,
) -> Map<Seq<char>, Json> {
    no_entries().insert("sessionId"@, Json::Text(session_id)).insert(
        "tool"@,
        Json::Text(tool),
    ).insert("args"@, args).insert("targetRole"@, Json::Text(wire_name(role))).insert(
        "timeoutMs"@,
        Json::Int(timeout_ms as int),
    )
}

/// The adapter's side of the broker's HTTP interface.
pub struct BrokerClient {
    base: String,
    token: String,
}

impl BrokerClient {
    /// Where the broker listens.
    pub closed spec fn base(&self) -> Seq<char> {
        self.base@
    }

    /// The secret that the adapter presents.
    pub closed spec fn token(&self) -> Seq<char> {
        self.token@
    }

    /// The client for the broker that left this behind.
    pub fn new(info: &BrokerInfo) -> (r: Self)
        ensures
            r.base() == "http://127.0.0.1:"@ + decimal(info.port as nat),
            r.token() == info.token@,
    {
        BrokerClient {
            base: "http://127.0.0.1:".to_string().concat(
                decimal_text(info.port as u64).as_str(),
            ),
            token: info.token.clone(),
        }
    }

    /// Asks the broker what it is.
    pub fn health(&self) -> (r: HttpRequest)
        ensures
            r.asks(Method::Get, self.base() + "/health"@, None, 2 * NANOS_PER_SEC),
    {
        HttpRequest {
            method: Method::Get,
            url: self.base.clone().concat("/health"),
            bearer: None,
            timeout: 2 * NANOS_PER_SEC,
            body: None,
        }
    }

    /// Asks the broker for its sessions.
    pub fn list_sessions(&self) -> (r: HttpRequest)
        ensures
            r.asks(
                Method::Get,
                self.base() + "/sessions"@,
                Some(self.token()),
                5 * NANOS_PER_SEC,
            ),
    {
        HttpRequest {
            method: Method::Get,
            url: self.base.clone().concat("/sessions"),
            bearer: Some(self.token.clone()),
            timeout: 5 * NANOS_PER_SEC,
            body: None,
        }
    }

    /// Sends a command for a role of a session.
    pub fn command(
        &self,
        session_id: &str,
        tool: &str,
        args: Value,
        target_role: Role,
        timeout_ms: u64,
    ) -> (r: HttpRequest)
        ensures
            r.sends(
                Method::Post,
                self.base() + "/command"@,
                Some(self.token()),
                timeout_ms * NANOS_PER_MILLI + CLIENT_TIMEOUT_SLACK,
                command_body(session_id@, tool@, json_of(args), target_role, timeout_ms),
            ),
    {
        let body = JsonObject::new().with_text("sessionId", session_id).with_text(
            "tool",
            tool,
        ).with("args", args).with_text("targetRole", wire_role(target_role)).with_number(
            "timeoutMs",
            timeout_ms,
        ).build();
        HttpRequest {
            method: Method::Post,
            url: self.base.clone().concat("/command"),
            bearer: Some(self.token.clone()),
            timeout: timeout_ms as u128 * NANOS_PER_MILLI + CLIENT_TIMEOUT_SLACK,
            body: Some(body),
        }
    }

    /// Asks the broker to shut down.
    pub fn shutdown(&self) -> (r: HttpRequest)
        ensures
            r.asks(
                Method::Post,
                self.base() + "/shutdown"@,
                Some(self.token()),
                2 * NANOS_PER_SEC,
            ),
    {
        HttpRequest {
            method: Method::Post,
            url: self.base.clone().concat("/shutdown"),
            bearer: Some(self.token.clone()),
            timeout: 2 * NANOS_PER_SEC,
            body: None,
        }
    }
}

/// The words that `http` has for a status code.
pub uninterp spec fn status_reason(code: u16) -> Seq<char>;

/// `StatusCode::from_u16`, displayed: the code, a space and the words that the
/// crate has for it. A code below 100 or above 999 is no status.
#[verifier::external_body]
pub(crate) fn status_text(code: u16) -> (r: String)
    requires
        100 <= code <= 999,
    ensures
        r@ == decimal(code as nat) + " "@ + status_reason(code),
{
    StatusCode::from_u16(code).unwrap().to_string()
}

/// Whether the status says that the request succeeded.
pub fn is_success(status: u16) -> (r: bool)
    ensures
        r == (200 <= status <= 299),
{
    200 <= status && status <= 299
}

/// The message about a command request that the broker refused.
pub open spec fn refused_text(status: Seq<char>, body: Seq<char>) -> Seq<char> {
    "broker /command returned "@ + status + ": "@ + body
}

/// Writes the message about a refused command request, given its status as text.
pub fn refused_message(status: &str, body: &str) -> (r: String)
    ensures
        r@ == refused_text(status@, body@),
{
    "broker /command returned ".to_string().concat(status).concat(": ").concat(body)
}

/// The message about a command request that was refused with this status.
pub fn command_refusal(status: u16, body: &str) -> (r: String)
    requires
        100 <= status <= 999,
    ensures
        r@ == refused_text(decimal(status as nat) + " "@ + status_reason(status), body@),
{
    refused_message(status_text(status).as_str(), body)
}

/// What the answer to a command request comes to: its body where it succeeded,
/// and a message otherwise.
pub fn command_answer(status: u16, body: String) -> (r: Result<String, String>)
    requires
        100 <= status <= 999,
    ensures
        200 <= status <= 299 ==> r == Ok::<String, String>(body),
        !(200 <= status <= 299) ==> r is Err && r->Err_0@ == refused_text(
            decimal(status as nat) + " "@ + status_reason(status),
            body@,
        ),
{
    if is_success(status) {
        Ok(body)
    } else {
        Err(command_refusal(status, body.as_str()))
    }
}

} // verus!
