//! The calls that the tools of the MCP server come to.
//!
//! Each tool names a command, the role that carries it out and its arguments
//! as JSON. An argument that is left out is left out of the JSON too, unless
//! the tool has a default for it or sends a null.
pub mod edit;
pub mod inspect;
pub mod play;
pub mod script;
pub mod search;
pub mod session;

use crate::json::{
    given, json_of, no_entries, text, texts, texts_value, Entries, Json, JsonObject,
};
use crate::protocol::Role;
use serde_json::Value;
use vstd::prelude::*;

verus! {

/// How long the broker waits for the answer to a tool's command.
pub const COMMAND_TIMEOUT_MS: u64 = 30_000;

/// A command that a tool asks for.
pub struct ToolCall {
    /// The name of the command.
    pub tool: String,
    /// Its arguments.
    pub args: Value,
    /// The role that carries it out.
    pub role: Role,
    /// How long the broker waits for the answer, in milliseconds.
    pub timeout_ms: u64,
    /// The id or label of the session, where one was chosen.
    pub session: Option<String>,
}

impl ToolCall {
    /// Whether this is the named command for a role of the chosen session, with
    /// these arguments and the usual time limit.
    pub open spec fn calls(
        self,
        tool: Seq<char>,
        role: Role,
        session: Option<String>,
        args: Map<Seq<char>, Json>,
    ) -> bool {
        &&& self.tool@ == tool
        &&& json_of(self.args) == Json::Object(args)
        &&& self.role == role
        &&& self.timeout_ms == COMMAND_TIMEOUT_MS
        &&& self.session == session
    }
}

/// The call of a command with the usual time limit.
pub fn call(tool: &str, role: Role, args: JsonObject, session: Option<String>) -> (r: ToolCall)
    ensures
        r.calls(tool@, role, session, args@),
{
    ToolCall {
        tool: tool.to_string(),
        args: args.build(),
        role,
        timeout_ms: COMMAND_TIMEOUT_MS,
        session,
    }
}

/// The choice of a session, for tools that take nothing else.
pub struct SessionSelector {
    /// The id or label of the session; may be left out where one session is live.
    pub session: Option<String>,
}

/// An instance.
pub struct PathArgs {
    /// The id or label of the session; may be left out where one session is live.
    pub session: Option<String>,
    /// A dot-path, such as `game.Workspace.Part`.
    pub path: Option<String>,
    /// The handle of an instance, from an earlier result.
    pub handle: Option<String>,
}

/// An attribute of an instance.
pub struct AttrNameArgs {
    /// The id or label of the session; may be left out where one session is live.
    pub session: Option<String>,
    /// A dot-path, such as `game.Workspace.Part`.
    pub path: Option<String>,
    /// The handle of an instance, from an earlier result.
    pub handle: Option<String>,
    /// The name of the attribute.
    pub name: String,
}

/// The entries that say which instance is meant.
pub open spec fn target_entries(path: Option<String>, handle: Option<String>) -> Map<
    Seq<char>,
    Json,
> {
    no_entries().maybe("path"@, text(path)).maybe("handle"@, text(handle))
}

/// An object that says which instance is meant.
pub fn target(path: &Option<String>, handle: &Option<String>) -> (r: JsonObject)
    ensures
        r@ == target_entries(*path, *handle),
{
    JsonObject::new().maybe_text("path", path).maybe_text("handle", handle)
}

/// The number, or this one where it is missing.
pub open spec fn or_number(n: Option<u32>, default: u32) -> int {
    match n {
        Some(i) => i as int,
        None => default as int,
    }
}

/// Computes [`or_number`].
pub fn number_or(n: Option<u32>, default: u32) -> (r: u32)
    ensures
        r == or_number(n, default),
{
    match n {
        Some(i) => i,
        None => default,
    }
}

/// The flag, or this one where it is missing.
pub open spec fn or_flag(b: Option<bool>, default: bool) -> bool {
    match b {
        Some(x) => x,
        None => default,
    }
}

/// Computes [`or_flag`].
pub fn flag_or(b: Option<bool>, default: bool) -> (r: bool)
    ensures
        r == or_flag(b, default),
{
    match b {
        Some(x) => x,
        None => default,
    }
}

/// Strings that may be missing, as JSON.
pub open spec fn text_list(items: Option<Vec<String>>) -> Option<Json> {
    match items {
        Some(list) => Some(texts(list@)),
        None => None,
    }
}

/// Strings that may be missing, as a value.
pub fn text_list_value(items: &Option<Vec<String>>) -> (r: Option<Value>)
    ensures
        given(r) == text_list(*items),
{
    match items {
        Some(list) => Some(texts_value(list)),
        None => None,
    }
}

} // verus!
