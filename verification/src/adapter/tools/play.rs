//! Simulations, playtests and what runs in them.
use crate::adapter::tools::{
    call, flag_or, number_or, or_flag, or_number, SessionSelector, ToolCall,
};
use crate::json::{
    clone_value, flag, flag_or_null, given, json_of, list_value, no_entries, null_value,
    or_null, text, text_or_null, value_or_null, Entries, Json, JsonObject,
};
use crate::protocol::Role;
use serde_json::Value;
use vstd::prelude::*;

verus! {

/// What [`read_output`] takes.
pub struct ReadOutputArgs {
    /// The id or label of the session; may be left out where one session is live.
    pub session: Option<String>,
    /// The level of the lines: `output`, `info`, `warning` or `error`.
    pub level: Option<String>,
    /// How many of the last lines to return.
    pub limit: Option<u32>,
    /// Whether to empty the buffer afterwards.
    pub clear: Option<bool>,
}

/// What [`run_luau`] takes.
pub struct RunLuauArgs {
    /// The id or label of the session; may be left out where one session is live.
    pub session: Option<String>,
    /// The Luau source to run.
    pub code: String,
}

/// What [`run_server_code`] takes.
pub struct RunServerCodeArgs {
    /// The id or label of the session; may be left out where one session is live.
    pub session: Option<String>,
    /// The Luau source to run.
    pub code: String,
}

/// What [`read_server_output`] takes.
pub struct ReadServerOutputArgs {
    /// The id or label of the session; may be left out where one session is live.
    pub session: Option<String>,
    /// How many of the last lines to return.
    pub limit: Option<u32>,
}

/// What [`read_client_output`] takes.
pub struct ReadClientOutputArgs {
    /// The id or label of the session; may be left out where one session is live.
    pub session: Option<String>,
    /// How many of the last lines to return.
    pub limit: Option<u32>,
}

/// One event of the keyboard.
pub struct KeyEvent {
    /// The name of the key, such as `W` or `Space`.
    pub key: String,
    /// `down`, `up` or `tap`.
    pub action: Option<String>,
    /// For a tap, how many seconds the key is held.
    pub duration: Option<Value>,
}

/// A keyboard event, as JSON.
pub open spec fn key_event(k: KeyEvent) -> Json {
    Json::Object(
        no_entries().insert("key"@, Json::Text(k.key@)).insert(
            "action"@,
            or_null(text(k.action)),
        ).insert("duration"@, or_null(given(k.duration))),
    )
}

/// Keyboard events, as JSON.
pub open spec fn key_events(keys: Seq<KeyEvent>) -> Json {
    Json::List(keys.map_values(|k: KeyEvent| key_event(k)))
}

fn key_events_value(keys: &Vec<KeyEvent>) -> (r: Value)
    ensures
        json_of(r) == key_events(keys@),
{
    let mut list: Vec<Value> = Vec::new();
    for i in 0..keys.len()
        invariant
            list@.len() == i,
            forall|j: int| 0 <= j < i ==> json_of(#[trigger] list@[j]) == key_event(keys@[j]),
    {
        let k = &keys[i];
        let duration = match &k.duration {
            Some(d) => clone_value(d),
            None => null_value(),
        };
        let event = JsonObject::new()
            .with_text("key", k.key.as_str())
            .with("action", text_or_null(&k.action))
            .with("duration", duration);
        list.push(event.build());
    }
    assert(list@.map_values(|v: Value| json_of(v)) =~= keys@.map_values(
        |k: KeyEvent| key_event(k),
    ));
    list_value(list)
}

/// What [`keyboard_input`] takes.
pub struct KeyboardInputArgs {
    /// The id or label of the session; may be left out where one session is live.
    pub session: Option<String>,
    /// The events, in order.
    pub keys: Vec<KeyEvent>,
    /// Text to type after the events.
    pub text: Option<String>,
}

/// What [`mouse_input`] takes.
pub struct MouseInputArgs {
    /// The id or label of the session; may be left out where one session is live.
    pub session: Option<String>,
    /// `move`, `click`, `down` or `up`.
    pub action: String,
    /// The column, in pixels of the viewport.
    pub x: Option<Value>,
    /// The row, in pixels of the viewport.
    pub y: Option<Value>,
    /// `left` or `right`.
    pub button: Option<String>,
}

/// What [`character_navigation`] takes.
pub struct CharacterNavigationArgs {
    /// The id or label of the session; may be left out where one session is live.
    pub session: Option<String>,
    /// `move`, `move_to`, `jump` or `stop`.
    pub action: String,
    /// `forward`, `back`, `left` or `right`.
    pub direction: Option<String>,
    /// The first coordinate of a point or a direction.
    pub x: Option<Value>,
    /// The second coordinate of a point.
    pub y: Option<Value>,
    /// The third coordinate of a point or a direction.
    pub z: Option<Value>,
    /// How many seconds to move.
    pub duration: Option<Value>,
    /// Whether the direction is seen from the camera.
    pub relative_to_camera: Option<bool>,
}

/// Starts a simulation without a player.
pub fn start_simulation(a: SessionSelector) -> (r: ToolCall)
    ensures
        r.calls("start_simulation"@, Role::Plugin, a.session, no_entries()),
{
    call("start_simulation", Role::Plugin, JsonObject::new(), a.session)
}

/// Stops a simulation.
pub fn stop_simulation(a: SessionSelector) -> (r: ToolCall)
    ensures
        r.calls("stop_simulation"@, Role::Plugin, a.session, no_entries()),
{
    call("stop_simulation", Role::Plugin, JsonObject::new(), a.session)
}

/// Reads the last lines of the output window.
pub fn read_output(a: ReadOutputArgs) -> (r: ToolCall)
    ensures
        r.calls(
            "read_output"@,
            Role::Plugin,
            a.session,
            no_entries()
                .insert("limit"@, Json::Int(or_number(a.limit, 200)))
                .insert("clear"@, Json::Bool(or_flag(a.clear, false)))
                .maybe("level"@, text(a.level)),
        ),
{
    let args = JsonObject::new()
        .with_number("limit", number_or(a.limit, 200) as u64)
        .with_flag("clear", flag_or(a.clear, false))
        .maybe_text("level", &a.level);
    call("read_output", Role::Plugin, args, a.session)
}

/// Runs Luau in the edited place.
pub fn run_luau(a: RunLuauArgs) -> (r: ToolCall)
    ensures
        r.calls(
            "run_luau"@,
            Role::Plugin,
            a.session,
            no_entries().insert("code"@, Json::Text(a.code@)),
        ),
{
    let args = JsonObject::new().with_text("code", a.code.as_str());
    call("run_luau", Role::Plugin, args, a.session)
}

/// Prepares a playtest.
pub fn start_playtest(a: SessionSelector) -> (r: ToolCall)
    ensures
        r.calls("start_playtest"@, Role::Plugin, a.session, no_entries()),
{
    call("start_playtest", Role::Plugin, JsonObject::new(), a.session)
}

/// Runs Luau in the server of a playtest.
pub fn run_server_code(a: RunServerCodeArgs) -> (r: ToolCall)
    ensures
        r.calls(
            "run_server_code"@,
            Role::Server,
            a.session,
            no_entries().insert("code"@, Json::Text(a.code@)),
        ),
{
    let args = JsonObject::new().with_text("code", a.code.as_str());
    call("run_server_code", Role::Server, args, a.session)
}

/// Reads the state of the server of a playtest.
pub fn get_server_state(a: SessionSelector) -> (r: ToolCall)
    ensures
        r.calls("get_server_state"@, Role::Server, a.session, no_entries()),
{
    call("get_server_state", Role::Server, JsonObject::new(), a.session)
}

/// Reads the last lines that the server of a playtest wrote.
pub fn read_server_output(a: ReadServerOutputArgs) -> (r: ToolCall)
    ensures
        r.calls(
            "read_server_output"@,
            Role::Server,
            a.session,
            no_entries().insert("limit"@, Json::Int(or_number(a.limit, 200))),
        ),
{
    let args = JsonObject::new().with_number("limit", number_or(a.limit, 200) as u64);
    call("read_server_output", Role::Server, args, a.session)
}

/// Reads the last lines that the client of a playtest wrote.
pub fn read_client_output(a: ReadClientOutputArgs) -> (r: ToolCall)
    ensures
        r.calls(
            "read_client_output"@,
            Role::Client,
            a.session,
            no_entries().insert("limit"@, Json::Int(or_number(a.limit, 200))),
        ),
{
    let args = JsonObject::new().with_number("limit", number_or(a.limit, 200) as u64);
    call("read_client_output", Role::Client, args, a.session)
}

/// Reads the state of the client of a playtest.
pub fn get_client_state(a: SessionSelector) -> (r: ToolCall)
    ensures
        r.calls("get_client_state"@, Role::Client, a.session, no_entries()),
{
    call("get_client_state", Role::Client, JsonObject::new(), a.session)
}

/// Moves the character of the player.
pub fn character_navigation(a: CharacterNavigationArgs) -> (r: ToolCall)
    ensures
        r.calls(
            "character_navigation"@,
            Role::Client,
            a.session,
            no_entries()
                .insert("action"@, Json::Text(a.action@))
                .insert("direction"@, or_null(text(a.direction)))
                .insert("x"@, or_null(given(a.x)))
                .insert("y"@, or_null(given(a.y)))
                .insert("z"@, or_null(given(a.z)))
                .insert("duration"@, or_null(given(a.duration)))
                .insert("relativeToCamera"@, or_null(flag(a.relative_to_camera))),
        ),
{
    let args = JsonObject::new()
        .with_text("action", a.action.as_str())
        .with("direction", text_or_null(&a.direction))
        .with("x", value_or_null(a.x))
        .with("y", value_or_null(a.y))
        .with("z", value_or_null(a.z))
        .with("duration", value_or_null(a.duration))
        .with("relativeToCamera", flag_or_null(a.relative_to_camera));
    call("character_navigation", Role::Client, args, a.session)
}

/// Presses keys and types text in the client.
pub fn keyboard_input(a: KeyboardInputArgs) -> (r: ToolCall)
    ensures
        r.calls(
            "keyboard_input"@,
            Role::Client,
            a.session,
            no_entries()
                .insert("keys"@, key_events(a.keys@))
                .insert("text"@, or_null(text(a.text))),
        ),
{
    let args = JsonObject::new()
        .with("keys", key_events_value(&a.keys))
        .with("text", text_or_null(&a.text));
    call("keyboard_input", Role::Client, args, a.session)
}

/// Moves and clicks the mouse in the client.
pub fn mouse_input(a: MouseInputArgs) -> (r: ToolCall)
    ensures
        r.calls(
            "mouse_input"@,
            Role::Client,
            a.session,
            no_entries()
                .insert("action"@, Json::Text(a.action@))
                .insert("x"@, or_null(given(a.x)))
                .insert("y"@, or_null(given(a.y)))
                .insert("button"@, or_null(text(a.button))),
        ),
{
    let args = JsonObject::new()
        .with_text("action", a.action.as_str())
        .with("x", value_or_null(a.x))
        .with("y", value_or_null(a.y))
        .with("button", text_or_null(&a.button));
    call("mouse_input", Role::Client, args, a.session)
}

} // verus!
