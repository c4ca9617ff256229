//! The messages shared by the broker, the adapter and the Studio plugin.
use crate::json::clone_value;
use serde_json::Value;
use vstd::prelude::*;

verus! {

/// The version of the wire protocol.
pub const PROTOCOL_VERSION: u32 = 1;

/// The part that a participant plays in a Studio session.
#[derive(Clone, Copy, Debug, PartialEq, Eq, Hash, Structural)]
pub enum Role {
    Plugin,
    Server,
    Client,
}

/// How recently a participant was heard of.
#[derive(Clone, Copy, Debug, PartialEq, Eq, Structural)]
pub enum LiveState {
    Live,
    Stale,
    Dead,
}

/// What a participant says of itself with every poll.
#[derive(Clone, Debug)]
pub struct Handshake {
    pub session_id: String,
    pub role: Role,
    pub place_id: u64,
    pub game_id: u64,
    pub place_name: String,
    pub creator_id: u64,
    pub label: Option<String>,
    pub protocol: u32,
    pub ts: u64,
}

/// A command for a participant.
#[derive(Debug)]
pub struct Command {
    pub id: u64,
    pub tool: String,
    pub args: Value,
    pub target_role: Role,
}

impl Clone for Command {
    fn clone(&self) -> (r: Self)
        ensures
            r == *self,
    {
        Command {
            id: self.id,
            tool: self.tool.clone(),
            args: clone_value(&self.args),
            target_role: self.target_role,
        }
    }
}

/// A participant's answer to a command.
#[derive(Clone, Debug)]
pub struct CommandResult {
    pub id: u64,
    pub ok: bool,
    pub result: Option<Value>,
    pub error: Option<String>,
}

impl CommandResult {
    /// A success with its value.
    pub fn ok(id: u64, result: Value) -> (r: Self)
        ensures
            r == (CommandResult { id, ok: true, result: Some(result), error: None }),
    {
        CommandResult { id, ok: true, result: Some(result), error: None }
    }

    /// A failure with its message.
    pub fn err(id: u64, error: String) -> (r: Self)
        ensures
            r == (CommandResult { id, ok: false, result: None, error: Some(error) }),
    {
        CommandResult { id, ok: false, result: None, error: Some(error) }
    }
}

/// The commands that a poll hands out.
#[derive(Debug)]
pub struct PollResponse {
    pub commands: Vec<Command>,
}

/// What the broker says of itself to anyone.
#[derive(Clone, Debug)]
pub struct Health {
    pub protocol: u32,
    pub broker_uuid: String,
    pub port: u16,
}

/// What the broker leaves for adapters in its rendezvous file.
#[derive(Clone, Debug)]
pub struct BrokerInfo {
    pub port: u16,
    pub pid: u32,
    pub token: String,
    pub protocol: u32,
    pub broker_uuid: String,
}

/// The liveness of one role of a session.
#[derive(Clone, Debug)]
pub struct RoleInfo {
    pub role: Role,
    pub state: LiveState,
    pub last_seen_ms: u64,
}

/// A session as the broker lists it.
#[derive(Clone, Debug)]
pub struct SessionInfo {
    pub session_id: String,
    pub place_id: u64,
    pub game_id: u64,
    pub place_name: String,
    pub creator_id: u64,
    pub label: Option<String>,
    pub roles: Vec<RoleInfo>,
}

} // verus!
