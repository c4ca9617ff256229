//! Calls about the session itself.
use crate::adapter::tools::{call, SessionSelector, ToolCall};
use crate::json::{no_entries, Json, JsonObject};
use crate::protocol::Role;
use vstd::prelude::*;

verus! {

/// Reads the place and game of a session.
pub fn get_place_info(a: SessionSelector) -> (r: ToolCall)
    ensures
        r.calls("get_place_info"@, Role::Plugin, a.session, no_entries()),
{
    call("get_place_info", Role::Plugin, JsonObject::new(), a.session)
}

/// Checks that a session answers.
pub fn ping_session(a: SessionSelector) -> (r: ToolCall)
    ensures
        r.calls(
            "ping"@,
            Role::Plugin,
            a.session,
            no_entries().insert("hello"@, Json::Text("dust"@)),
        ),
{
    call("ping", Role::Plugin, JsonObject::new().with_text("hello", "dust"), a.session)
}

} // verus!
