//! What the tools ask for.
//!
//! Each tool becomes one command for one role. Its arguments stand in the JSON of
//! the command under keys of their own, each as it was given; what was left out
//! is left out there too, or has the default that the tool documents, or is null
//! for the tools that drive the client.
use crate::adapter::tools::edit::{
    add_tag, bulk_set_attributes, clone_object, create_object, create_ui_tree, delete_attribute,
    delete_object, mass_duplicate, mass_set_property, move_object, redo, remove_tag,
    rename_object, set_attribute, set_properties, set_property, smart_duplicate, undo,
    BulkAttrArgs, CloneArgs, CreateArgs, MassDupArgs, MassSetArgs, MoveArgs, RenameArgs,
    SetAttrArgs, SetPropArgs, SetPropsArgs, SmartDupArgs, TagArgs, UiTreeArgs,
};
use crate::adapter::tools::inspect::{
    compare_instances, get_attribute, get_attributes, get_class_info, get_connected_instances,
    get_descendants, get_file_tree, get_instance_children, get_instance_properties,
    get_project_structure, get_selection, get_services, get_tagged, get_tags, mass_get_property,
    ClassInfoArgs, CompareArgs, GetPropsArgs, GetTaggedArgs, MassGetArgs, PathLimitArgs,
    ProjectArgs,
};
use crate::adapter::tools::play::{
    character_navigation, get_client_state, get_server_state, keyboard_input, mouse_input,
    read_client_output, read_output, read_server_output, run_luau, run_server_code,
    start_playtest, start_simulation, stop_simulation, CharacterNavigationArgs, KeyEvent,
    KeyboardInputArgs, MouseInputArgs, ReadClientOutputArgs, ReadOutputArgs,
    ReadServerOutputArgs, RunLuauArgs, RunServerCodeArgs,
};
use crate::adapter::tools::script::{
    delete_script_lines, edit_script_lines, find_and_replace_in_scripts, get_script_analysis,
    insert_script_lines, set_script_source, DeleteLinesArgs, EditLinesArgs, FindReplaceArgs,
    InsertLinesArgs, SetSourceArgs,
};
use crate::adapter::tools::search::{
    get_script_source, grep_scripts, search_by_property, search_files, search_instances,
    search_objects, GetScriptSourceArgs, GrepArgs, SearchByPropertyArgs, SearchFilesArgs,
    SearchInstancesArgs, SearchObjArgs,
};
use crate::adapter::tools::session::{get_place_info, ping_session};
use crate::adapter::tools::{
    call, flag_or, number_or, target, text_list_value, AttrNameArgs, PathArgs, SessionSelector,
    ToolCall,
};
use crate::json::{json_of, Json, JsonObject};
use crate::laws::json::{entry, has_only};
use crate::protocol::Role;
use serde_json::Value;
use vstd::prelude::*;

verus! {

/// Whether the call is this command for this role, in the session that was named
/// and within thirty seconds.
pub open spec fn is_for(
    r: ToolCall,
    tool: Seq<char>,
    role: Role,
    session: Option<String>,
) -> bool {
    &&& r.tool@ == tool
    &&& r.role == role
    &&& r.timeout_ms == 30_000
    &&& r.session == session
}

/// A string, where there is one.
pub open spec fn opt_text(s: Option<String>) -> Option<Json> {
    if s is Some {
        Some(Json::Text(s->0@))
    } else {
        None
    }
}

/// A number, where there is one.
pub open spec fn opt_number(n: Option<u32>) -> Option<Json> {
    if n is Some {
        Some(Json::Int(n->0 as int))
    } else {
        None
    }
}

/// A flag, where there is one.
pub open spec fn opt_flag(b: Option<bool>) -> Option<Json> {
    if b is Some {
        Some(Json::Bool(b->0))
    } else {
        None
    }
}

/// A value, where there is one.
pub open spec fn opt_value(v: Option<Value>) -> Option<Json> {
    if v is Some {
        Some(json_of(v->0))
    } else {
        None
    }
}

/// Whether the entry is this one, or null where there is none.
pub open spec fn or_null_is(e: Option<Json>, given: Option<Json>) -> bool {
    if given is Some {
        e == given
    } else {
        e == Some(Json::Null)
    }
}

/// Whether the entry is a number: the given one, or this where none is given.
pub open spec fn number_is(e: Option<Json>, given: Option<u32>, default: u32) -> bool {
    if given is Some {
        e == Some(Json::Int(given->0 as int))
    } else {
        e == Some(Json::Int(default as int))
    }
}

/// Whether the entry is a flag: the given one, or false where none is given.
pub open spec fn flag_is(e: Option<Json>, given: Option<bool>) -> bool {
    if given is Some {
        e == Some(Json::Bool(given->0))
    } else {
        e == Some(Json::Bool(false))
    }
}

/// Whether the entry is the array of these strings.
pub open spec fn texts_are(e: Option<Json>, items: Seq<String>) -> bool {
    &&& e matches Some(Json::List(list))
    &&& list.len() == items.len()
    &&& forall|i: int|
        0 <= i < items.len() ==> #[trigger] list[i] == Json::Text(items[i]@)
}

/// Whether the JSON is that of a keyboard event.
pub open spec fn key_is(j: Json, k: KeyEvent) -> bool {
    &&& j matches Json::Object(m)
    &&& m.dom() == set!["key"@, "action"@, "duration"@]
    &&& m["key"@] == Json::Text(k.key@)
    &&& or_null_is(Some(m["action"@]), opt_text(k.action))
    &&& or_null_is(Some(m["duration"@]), opt_value(k.duration))
}

/// Whether the entry is the array of these keyboard events.
pub open spec fn keys_are(e: Option<Json>, keys: Seq<KeyEvent>) -> bool {
    &&& e matches Some(Json::List(list))
    &&& list.len() == keys.len()
    &&& forall|i: int| 0 <= i < keys.len() ==> key_is(#[trigger] list[i], keys[i])
}

/// A call has the command, the role, the arguments and the session that it is
/// made of, and half a minute.
pub proof fn law_call(
    tool: &str,
    role: Role,
    args: JsonObject,
    session: Option<String>,
    r: ToolCall,
)
    requires
        call_ensures(call, (tool, role, args, session), r),
    ensures
        is_for(r, tool@, role, session),
        json_of(r.args) == Json::Object(args@),
{
}

/// An instance is meant by its path, its handle, both or neither, as given.
pub proof fn law_target(path: Option<String>, handle: Option<String>, r: JsonObject)
    requires
        call_ensures(target, (&path, &handle), r),
    ensures
        r@.dom().subset_of(set!["path"@, "handle"@]),
        r@.contains_key("path"@) <==> path is Some,
        path is Some ==> r@["path"@] == Json::Text(path->0@),
        r@.contains_key("handle"@) <==> handle is Some,
        handle is Some ==> r@["handle"@] == Json::Text(handle->0@),
{
    reveal_strlit("path");
    reveal_strlit("handle");
    assert("path"@.len() == 4);
    assert("handle"@.len() == 6);
}

/// What is given is taken, and the default only where nothing is.
pub proof fn law_defaults(
    n: Option<u32>,
    default: u32,
    number: u32,
    b: Option<bool>,
    other: bool,
    flag: bool,
    items: Option<Vec<String>>,
    list: Option<Value>,
)
    requires
        call_ensures(number_or, (n, default), number),
        call_ensures(flag_or, (b, other), flag),
        call_ensures(text_list_value, (&items,), list),
    ensures
        n is Some ==> number == n->0,
        n is None ==> number == default,
        b is Some ==> flag == b->0,
        b is None ==> flag == other,
        list is Some <==> items is Some,
        items is Some ==> texts_are(Some(json_of(list->0)), items->0@),
{
}

/// Reads the place and game of a session: the command `get_place_info` for the plugin.
pub proof fn law_get_place_info(a: SessionSelector, r: ToolCall)
    requires
        call_ensures(get_place_info, (a,), r),
    ensures
        is_for(r, "get_place_info"@, Role::Plugin, a.session),
        has_only(r.args, Set::empty()),
{
}

/// Checks that a session answers: the command `ping` for the plugin.
pub proof fn law_ping_session(a: SessionSelector, r: ToolCall)
    requires
        call_ensures(ping_session, (a,), r),
    ensures
        is_for(r, "ping"@, Role::Plugin, a.session),
        has_only(r.args, set!["hello"@]),
        entry(r.args, "hello"@) == Some(Json::Text("dust"@)),
{
}

/// Searches the source of scripts: the command `grep` for the plugin, with its arguments.
pub proof fn law_grep_scripts(a: GrepArgs, r: ToolCall)
    requires
        call_ensures(grep_scripts, (a,), r),
    ensures
        is_for(r, "grep"@, Role::Plugin, a.session),
        has_only(
            r.args,
            set![
                "pattern"@,
                "plain"@,
                "ignoreCase"@,
                "limit"@,
                "contextLines"@,
                "classFilter"@,
                "root"@,
            ],
        ),
        entry(r.args, "pattern"@) == Some(Json::Text(a.pattern@)),
        flag_is(entry(r.args, "plain"@), a.plain),
        flag_is(entry(r.args, "ignoreCase"@), a.ignore_case),
        number_is(entry(r.args, "limit"@), a.limit, 200),
        number_is(entry(r.args, "contextLines"@), a.context_lines, 0),
        entry(r.args, "classFilter"@) == opt_text(a.class_filter),
        entry(r.args, "root"@) == opt_text(a.root),
{
    reveal_strlit("pattern");
    reveal_strlit("plain");
    reveal_strlit("ignoreCase");
    reveal_strlit("limit");
    reveal_strlit("contextLines");
    reveal_strlit("classFilter");
    reveal_strlit("root");
    assert("pattern"@.len() == 7);
    assert("plain"@.len() == 5);
    assert("ignoreCase"@.len() == 10);
    assert("limit"@.len() == 5);
    assert("contextLines"@.len() == 12);
    assert("classFilter"@.len() == 11);
    assert("root"@.len() == 4);
    assert("plain"@[0] != "limit"@[0]);
}

/// Searches the tree of instances: the command `search_instances` for the plugin, with
/// its arguments.
pub proof fn law_search_instances(a: SearchInstancesArgs, r: ToolCall)
    requires
        call_ensures(search_instances, (a,), r),
    ensures
        is_for(r, "search_instances"@, Role::Plugin, a.session),
        has_only(
            r.args,
            set![
                "limit"@,
                "className"@,
                "namePattern"@,
                "tag"@,
                "property"@,
                "value"@,
                "maxDepth"@,
                "root"@,
                "cursor"@,
            ],
        ),
        number_is(entry(r.args, "limit"@), a.limit, 100),
        entry(r.args, "className"@) == opt_text(a.class_name),
        entry(r.args, "namePattern"@) == opt_text(a.name_pattern),
        entry(r.args, "tag"@) == opt_text(a.tag),
        entry(r.args, "property"@) == opt_text(a.property),
        entry(r.args, "value"@) == opt_value(a.value),
        entry(r.args, "maxDepth"@) == opt_number(a.max_depth),
        entry(r.args, "root"@) == opt_text(a.root),
        entry(r.args, "cursor"@) == opt_text(a.cursor),
{
    reveal_strlit("limit");
    reveal_strlit("className");
    reveal_strlit("namePattern");
    reveal_strlit("tag");
    reveal_strlit("property");
    reveal_strlit("value");
    reveal_strlit("maxDepth");
    reveal_strlit("root");
    reveal_strlit("cursor");
    assert("limit"@.len() == 5);
    assert("className"@.len() == 9);
    assert("namePattern"@.len() == 11);
    assert("tag"@.len() == 3);
    assert("property"@.len() == 8);
    assert("value"@.len() == 5);
    assert("maxDepth"@.len() == 8);
    assert("root"@.len() == 4);
    assert("cursor"@.len() == 6);
    assert("limit"@[0] != "value"@[0]);
    assert("property"@[0] != "maxDepth"@[0]);
}

/// Finds instances by the value of a property: the command `search_by_property` for the
/// plugin, with its arguments.
pub proof fn law_search_by_property(a: SearchByPropertyArgs, r: ToolCall)
    requires
        call_ensures(search_by_property, (a,), r),
    ensures
        is_for(r, "search_by_property"@, Role::Plugin, a.session),
        has_only(r.args, set!["property"@, "limit"@, "value"@, "className"@, "root"@]),
        entry(r.args, "property"@) == Some(Json::Text(a.property@)),
        number_is(entry(r.args, "limit"@), a.limit, 200),
        entry(r.args, "value"@) == opt_value(a.value),
        entry(r.args, "className"@) == opt_text(a.class_name),
        entry(r.args, "root"@) == opt_text(a.root),
{
    reveal_strlit("property");
    reveal_strlit("limit");
    reveal_strlit("value");
    reveal_strlit("className");
    reveal_strlit("root");
    assert("property"@.len() == 8);
    assert("limit"@.len() == 5);
    assert("value"@.len() == 5);
    assert("className"@.len() == 9);
    assert("root"@.len() == 4);
    assert("limit"@[0] != "value"@[0]);
}

/// Reads the source of a script, or some lines of it: the command `get_script_source`
/// for the plugin, with its arguments.
pub proof fn law_get_script_source(a: GetScriptSourceArgs, r: ToolCall)
    requires
        call_ensures(get_script_source, (a,), r),
    ensures
        is_for(r, "get_script_source"@, Role::Plugin, a.session),
        has_only(r.args, set!["handle"@, "startLine"@, "endLine"@]),
        entry(r.args, "handle"@) == Some(Json::Text(a.handle@)),
        entry(r.args, "startLine"@) == opt_number(a.start_line),
        entry(r.args, "endLine"@) == opt_number(a.end_line),
{
    reveal_strlit("handle");
    reveal_strlit("startLine");
    reveal_strlit("endLine");
    assert("handle"@.len() == 6);
    assert("startLine"@.len() == 9);
    assert("endLine"@.len() == 7);
}

/// Finds instances by name and class: the command `search_objects` for the plugin, with
/// its arguments.
pub proof fn law_search_objects(a: SearchObjArgs, r: ToolCall)
    requires
        call_ensures(search_objects, (a,), r),
    ensures
        is_for(r, "search_objects"@, Role::Plugin, a.session),
        has_only(r.args, set!["path"@, "handle"@, "namePattern"@, "className"@, "limit"@]),
        entry(r.args, "path"@) == opt_text(a.path),
        entry(r.args, "handle"@) == opt_text(a.handle),
        entry(r.args, "namePattern"@) == opt_text(a.name_pattern),
        entry(r.args, "className"@) == opt_text(a.class_name),
        entry(r.args, "limit"@) == opt_number(a.limit),
{
    reveal_strlit("path");
    reveal_strlit("handle");
    reveal_strlit("namePattern");
    reveal_strlit("className");
    reveal_strlit("limit");
    assert("path"@.len() == 4);
    assert("handle"@.len() == 6);
    assert("namePattern"@.len() == 11);
    assert("className"@.len() == 9);
    assert("limit"@.len() == 5);
}

/// Finds scripts by name or path: the command `search_files` for the plugin, with its
/// arguments.
pub proof fn law_search_files(a: SearchFilesArgs, r: ToolCall)
    requires
        call_ensures(search_files, (a,), r),
    ensures
        is_for(r, "search_files"@, Role::Plugin, a.session),
        has_only(r.args, set!["path"@, "handle"@, "query"@, "limit"@]),
        entry(r.args, "path"@) == opt_text(a.path),
        entry(r.args, "handle"@) == opt_text(a.handle),
        entry(r.args, "query"@) == Some(Json::Text(a.query@)),
        entry(r.args, "limit"@) == opt_number(a.limit),
{
    reveal_strlit("path");
    reveal_strlit("handle");
    reveal_strlit("query");
    reveal_strlit("limit");
    assert("path"@.len() == 4);
    assert("handle"@.len() == 6);
    assert("query"@.len() == 5);
    assert("limit"@.len() == 5);
    assert("query"@[0] != "limit"@[0]);
}

/// Starts a simulation without a player: the command `start_simulation` for the plugin.
pub proof fn law_start_simulation(a: SessionSelector, r: ToolCall)
    requires
        call_ensures(start_simulation, (a,), r),
    ensures
        is_for(r, "start_simulation"@, Role::Plugin, a.session),
        has_only(r.args, Set::empty()),
{
}

/// Stops a simulation: the command `stop_simulation` for the plugin.
pub proof fn law_stop_simulation(a: SessionSelector, r: ToolCall)
    requires
        call_ensures(stop_simulation, (a,), r),
    ensures
        is_for(r, "stop_simulation"@, Role::Plugin, a.session),
        has_only(r.args, Set::empty()),
{
}

/// Reads the last lines of the output window: the command `read_output` for the plugin,
/// with its arguments.
pub proof fn law_read_output(a: ReadOutputArgs, r: ToolCall)
    requires
        call_ensures(read_output, (a,), r),
    ensures
        is_for(r, "read_output"@, Role::Plugin, a.session),
        has_only(r.args, set!["limit"@, "clear"@, "level"@]),
        number_is(entry(r.args, "limit"@), a.limit, 200),
        flag_is(entry(r.args, "clear"@), a.clear),
        entry(r.args, "level"@) == opt_text(a.level),
{
    reveal_strlit("limit");
    reveal_strlit("clear");
    reveal_strlit("level");
    assert("limit"@.len() == 5);
    assert("clear"@.len() == 5);
    assert("level"@.len() == 5);
    assert("limit"@[0] != "clear"@[0]);
    assert("limit"@[1] != "level"@[1]);
    assert("clear"@[0] != "level"@[0]);
}

/// Runs Luau in the edited place: the command `run_luau` for the plugin, with its
/// arguments.
pub proof fn law_run_luau(a: RunLuauArgs, r: ToolCall)
    requires
        call_ensures(run_luau, (a,), r),
    ensures
        is_for(r, "run_luau"@, Role::Plugin, a.session),
        has_only(r.args, set!["code"@]),
        entry(r.args, "code"@) == Some(Json::Text(a.code@)),
{
}

/// Prepares a playtest: the command `start_playtest` for the plugin.
pub proof fn law_start_playtest(a: SessionSelector, r: ToolCall)
    requires
        call_ensures(start_playtest, (a,), r),
    ensures
        is_for(r, "start_playtest"@, Role::Plugin, a.session),
        has_only(r.args, Set::empty()),
{
}

/// Runs Luau in the server of a playtest: the command `run_server_code` for the server,
/// with its arguments.
pub proof fn law_run_server_code(a: RunServerCodeArgs, r: ToolCall)
    requires
        call_ensures(run_server_code, (a,), r),
    ensures
        is_for(r, "run_server_code"@, Role::Server, a.session),
        has_only(r.args, set!["code"@]),
        entry(r.args, "code"@) == Some(Json::Text(a.code@)),
{
}

/// Reads the state of the server of a playtest: the command `get_server_state` for the
/// server.
pub proof fn law_get_server_state(a: SessionSelector, r: ToolCall)
    requires
        call_ensures(get_server_state, (a,), r),
    ensures
        is_for(r, "get_server_state"@, Role::Server, a.session),
        has_only(r.args, Set::empty()),
{
}

/// Reads the last lines that the server of a playtest wrote: the command
/// `read_server_output` for the server, with its arguments.
pub proof fn law_read_server_output(a: ReadServerOutputArgs, r: ToolCall)
    requires
        call_ensures(read_server_output, (a,), r),
    ensures
        is_for(r, "read_server_output"@, Role::Server, a.session),
        has_only(r.args, set!["limit"@]),
        number_is(entry(r.args, "limit"@), a.limit, 200),
{
}

/// Reads the last lines that the client of a playtest wrote: the command
/// `read_client_output` for the client, with its arguments.
pub proof fn law_read_client_output(a: ReadClientOutputArgs, r: ToolCall)
    requires
        call_ensures(read_client_output, (a,), r),
    ensures
        is_for(r, "read_client_output"@, Role::Client, a.session),
        has_only(r.args, set!["limit"@]),
        number_is(entry(r.args, "limit"@), a.limit, 200),
{
}

/// Reads the state of the client of a playtest: the command `get_client_state` for the
/// client.
pub proof fn law_get_client_state(a: SessionSelector, r: ToolCall)
    requires
        call_ensures(get_client_state, (a,), r),
    ensures
        is_for(r, "get_client_state"@, Role::Client, a.session),
        has_only(r.args, Set::empty()),
{
}

/// Moves the character of the player: the command `character_navigation` for the
/// client, with its arguments.
pub proof fn law_character_navigation(a: CharacterNavigationArgs, r: ToolCall)
    requires
        call_ensures(character_navigation, (a,), r),
    ensures
        is_for(r, "character_navigation"@, Role::Client, a.session),
        has_only(
            r.args,
            set![
                "action"@,
                "direction"@,
                "x"@,
                "y"@,
                "z"@,
                "duration"@,
                "relativeToCamera"@,
            ],
        ),
        entry(r.args, "action"@) == Some(Json::Text(a.action@)),
        or_null_is(entry(r.args, "direction"@), opt_text(a.direction)),
        or_null_is(entry(r.args, "x"@), opt_value(a.x)),
        or_null_is(entry(r.args, "y"@), opt_value(a.y)),
        or_null_is(entry(r.args, "z"@), opt_value(a.z)),
        or_null_is(entry(r.args, "duration"@), opt_value(a.duration)),
        or_null_is(entry(r.args, "relativeToCamera"@), opt_flag(a.relative_to_camera)),
{
    reveal_strlit("action");
    reveal_strlit("direction");
    reveal_strlit("x");
    reveal_strlit("y");
    reveal_strlit("z");
    reveal_strlit("duration");
    reveal_strlit("relativeToCamera");
    assert("action"@.len() == 6);
    assert("direction"@.len() == 9);
    assert("x"@.len() == 1);
    assert("y"@.len() == 1);
    assert("z"@.len() == 1);
    assert("duration"@.len() == 8);
    assert("relativeToCamera"@.len() == 16);
    assert("x"@[0] != "y"@[0]);
    assert("x"@[0] != "z"@[0]);
    assert("y"@[0] != "z"@[0]);
}

/// Presses keys and types text in the client: the command `keyboard_input` for the
/// client, with its arguments.
pub proof fn law_keyboard_input(a: KeyboardInputArgs, r: ToolCall)
    requires
        call_ensures(keyboard_input, (a,), r),
    ensures
        is_for(r, "keyboard_input"@, Role::Client, a.session),
        has_only(r.args, set!["keys"@, "text"@]),
        keys_are(entry(r.args, "keys"@), a.keys@),
        or_null_is(entry(r.args, "text"@), opt_text(a.text)),
{
    reveal_strlit("keys");
    reveal_strlit("text");
    reveal_strlit("key");
    reveal_strlit("action");
    reveal_strlit("duration");
    assert("keys"@.len() == 4);
    assert("text"@.len() == 4);
    assert("key"@.len() == 3);
    assert("action"@.len() == 6);
    assert("duration"@.len() == 8);
    assert("keys"@[0] != "text"@[0]);
    let list = json_of(r.args)->Object_0["keys"@]->List_0;
    assert forall|i: int| 0 <= i < a.keys@.len() implies key_is(#[trigger] list[i], a.keys@[i]) by {
        assert(list[i]->Object_0.dom() =~= set!["key"@, "action"@, "duration"@]);
    }
}

/// Moves and clicks the mouse in the client: the command `mouse_input` for the client,
/// with its arguments.
pub proof fn law_mouse_input(a: MouseInputArgs, r: ToolCall)
    requires
        call_ensures(mouse_input, (a,), r),
    ensures
        is_for(r, "mouse_input"@, Role::Client, a.session),
        has_only(r.args, set!["action"@, "x"@, "y"@, "button"@]),
        entry(r.args, "action"@) == Some(Json::Text(a.action@)),
        or_null_is(entry(r.args, "x"@), opt_value(a.x)),
        or_null_is(entry(r.args, "y"@), opt_value(a.y)),
        or_null_is(entry(r.args, "button"@), opt_text(a.button)),
{
    reveal_strlit("action");
    reveal_strlit("x");
    reveal_strlit("y");
    reveal_strlit("button");
    assert("action"@.len() == 6);
    assert("x"@.len() == 1);
    assert("y"@.len() == 1);
    assert("button"@.len() == 6);
    assert("action"@[0] != "button"@[0]);
    assert("x"@[0] != "y"@[0]);
}

/// Lists the children of an instance: the command `get_instance_children` for the
/// plugin, with its arguments.
pub proof fn law_get_instance_children(a: PathArgs, r: ToolCall)
    requires
        call_ensures(get_instance_children, (a,), r),
    ensures
        is_for(r, "get_instance_children"@, Role::Plugin, a.session),
        has_only(r.args, set!["path"@, "handle"@]),
        entry(r.args, "path"@) == opt_text(a.path),
        entry(r.args, "handle"@) == opt_text(a.handle),
{
    reveal_strlit("path");
    reveal_strlit("handle");
    assert("path"@.len() == 4);
    assert("handle"@.len() == 6);
}

/// Lists the descendants of an instance: the command `get_descendants` for the plugin,
/// with its arguments.
pub proof fn law_get_descendants(a: PathLimitArgs, r: ToolCall)
    requires
        call_ensures(get_descendants, (a,), r),
    ensures
        is_for(r, "get_descendants"@, Role::Plugin, a.session),
        has_only(r.args, set!["path"@, "handle"@, "limit"@]),
        entry(r.args, "path"@) == opt_text(a.path),
        entry(r.args, "handle"@) == opt_text(a.handle),
        entry(r.args, "limit"@) == opt_number(a.limit),
{
    reveal_strlit("path");
    reveal_strlit("handle");
    reveal_strlit("limit");
    assert("path"@.len() == 4);
    assert("handle"@.len() == 6);
    assert("limit"@.len() == 5);
}

/// Lists the services of the place: the command `get_services` for the plugin.
pub proof fn law_get_services(a: SessionSelector, r: ToolCall)
    requires
        call_ensures(get_services, (a,), r),
    ensures
        is_for(r, "get_services"@, Role::Plugin, a.session),
        has_only(r.args, Set::empty()),
{
}

/// Lists the selected instances: the command `get_selection` for the plugin.
pub proof fn law_get_selection(a: SessionSelector, r: ToolCall)
    requires
        call_ensures(get_selection, (a,), r),
    ensures
        is_for(r, "get_selection"@, Role::Plugin, a.session),
        has_only(r.args, Set::empty()),
{
}

/// Reads properties of an instance: the command `get_instance_properties` for the
/// plugin, with its arguments.
pub proof fn law_get_instance_properties(a: GetPropsArgs, r: ToolCall)
    requires
        call_ensures(get_instance_properties, (a,), r),
    ensures
        is_for(r, "get_instance_properties"@, Role::Plugin, a.session),
        has_only(r.args, set!["path"@, "handle"@, "properties"@]),
        entry(r.args, "path"@) == opt_text(a.path),
        entry(r.args, "handle"@) == opt_text(a.handle),
        a.properties is Some ==> texts_are(entry(r.args, "properties"@), a.properties->0@),
        a.properties is None ==> entry(r.args, "properties"@) is None,
{
    reveal_strlit("path");
    reveal_strlit("handle");
    reveal_strlit("properties");
    assert("path"@.len() == 4);
    assert("handle"@.len() == 6);
    assert("properties"@.len() == 10);
}

/// Reads the tree below an instance: the command `get_project_structure` for the
/// plugin, with its arguments.
pub proof fn law_get_project_structure(a: ProjectArgs, r: ToolCall)
    requires
        call_ensures(get_project_structure, (a,), r),
    ensures
        is_for(r, "get_project_structure"@, Role::Plugin, a.session),
        has_only(r.args, set!["path"@, "handle"@, "maxDepth"@]),
        entry(r.args, "path"@) == opt_text(a.path),
        entry(r.args, "handle"@) == opt_text(a.handle),
        entry(r.args, "maxDepth"@) == opt_number(a.max_depth),
{
    reveal_strlit("path");
    reveal_strlit("handle");
    reveal_strlit("maxDepth");
    assert("path"@.len() == 4);
    assert("handle"@.len() == 6);
    assert("maxDepth"@.len() == 8);
}

/// Lists the scripts below an instance: the command `get_file_tree` for the plugin,
/// with its arguments.
pub proof fn law_get_file_tree(a: PathArgs, r: ToolCall)
    requires
        call_ensures(get_file_tree, (a,), r),
    ensures
        is_for(r, "get_file_tree"@, Role::Plugin, a.session),
        has_only(r.args, set!["path"@, "handle"@]),
        entry(r.args, "path"@) == opt_text(a.path),
        entry(r.args, "handle"@) == opt_text(a.handle),
{
    reveal_strlit("path");
    reveal_strlit("handle");
    assert("path"@.len() == 4);
    assert("handle"@.len() == 6);
}

/// Describes a class: the command `get_class_info` for the plugin, with its arguments.
pub proof fn law_get_class_info(a: ClassInfoArgs, r: ToolCall)
    requires
        call_ensures(get_class_info, (a,), r),
    ensures
        is_for(r, "get_class_info"@, Role::Plugin, a.session),
        has_only(r.args, set!["className"@]),
        entry(r.args, "className"@) == Some(Json::Text(a.class_name@)),
{
}

/// Lists the parts that are joined to a part: the command `get_connected_instances` for
/// the plugin, with its arguments.
pub proof fn law_get_connected_instances(a: PathArgs, r: ToolCall)
    requires
        call_ensures(get_connected_instances, (a,), r),
    ensures
        is_for(r, "get_connected_instances"@, Role::Plugin, a.session),
        has_only(r.args, set!["path"@, "handle"@]),
        entry(r.args, "path"@) == opt_text(a.path),
        entry(r.args, "handle"@) == opt_text(a.handle),
{
    reveal_strlit("path");
    reveal_strlit("handle");
    assert("path"@.len() == 4);
    assert("handle"@.len() == 6);
}

/// Compares the properties of two instances: the command `compare_instances` for the
/// plugin, with its arguments.
pub proof fn law_compare_instances(a: CompareArgs, r: ToolCall)
    requires
        call_ensures(compare_instances, (a,), r),
    ensures
        is_for(r, "compare_instances"@, Role::Plugin, a.session),
        has_only(r.args, set!["a"@, "b"@]),
        entry(r.args, "a"@) == Some(Json::Text(a.a@)),
        entry(r.args, "b"@) == Some(Json::Text(a.b@)),
{
    reveal_strlit("a");
    reveal_strlit("b");
    assert("a"@.len() == 1);
    assert("b"@.len() == 1);
    assert("a"@[0] != "b"@[0]);
}

/// Lists the tags of an instance: the command `get_tags` for the plugin, with its
/// arguments.
pub proof fn law_get_tags(a: PathArgs, r: ToolCall)
    requires
        call_ensures(get_tags, (a,), r),
    ensures
        is_for(r, "get_tags"@, Role::Plugin, a.session),
        has_only(r.args, set!["path"@, "handle"@]),
        entry(r.args, "path"@) == opt_text(a.path),
        entry(r.args, "handle"@) == opt_text(a.handle),
{
    reveal_strlit("path");
    reveal_strlit("handle");
    assert("path"@.len() == 4);
    assert("handle"@.len() == 6);
}

/// Lists the instances that carry a tag: the command `get_tagged` for the plugin, with
/// its arguments.
pub proof fn law_get_tagged(a: GetTaggedArgs, r: ToolCall)
    requires
        call_ensures(get_tagged, (a,), r),
    ensures
        is_for(r, "get_tagged"@, Role::Plugin, a.session),
        has_only(r.args, set!["tag"@, "limit"@]),
        entry(r.args, "tag"@) == Some(Json::Text(a.tag@)),
        entry(r.args, "limit"@) == opt_number(a.limit),
{
    reveal_strlit("tag");
    reveal_strlit("limit");
    assert("tag"@.len() == 3);
    assert("limit"@.len() == 5);
}

/// Reads an attribute of an instance: the command `get_attribute` for the plugin, with
/// its arguments.
pub proof fn law_get_attribute(a: AttrNameArgs, r: ToolCall)
    requires
        call_ensures(get_attribute, (a,), r),
    ensures
        is_for(r, "get_attribute"@, Role::Plugin, a.session),
        has_only(r.args, set!["path"@, "handle"@, "name"@]),
        entry(r.args, "path"@) == opt_text(a.path),
        entry(r.args, "handle"@) == opt_text(a.handle),
        entry(r.args, "name"@) == Some(Json::Text(a.name@)),
{
    reveal_strlit("path");
    reveal_strlit("handle");
    reveal_strlit("name");
    assert("path"@.len() == 4);
    assert("handle"@.len() == 6);
    assert("name"@.len() == 4);
    assert("path"@[0] != "name"@[0]);
}

/// Lists the attributes of an instance: the command `get_attributes` for the plugin,
/// with its arguments.
pub proof fn law_get_attributes(a: PathArgs, r: ToolCall)
    requires
        call_ensures(get_attributes, (a,), r),
    ensures
        is_for(r, "get_attributes"@, Role::Plugin, a.session),
        has_only(r.args, set!["path"@, "handle"@]),
        entry(r.args, "path"@) == opt_text(a.path),
        entry(r.args, "handle"@) == opt_text(a.handle),
{
    reveal_strlit("path");
    reveal_strlit("handle");
    assert("path"@.len() == 4);
    assert("handle"@.len() == 6);
}

/// Reads a property of many instances: the command `mass_get_property` for the plugin,
/// with its arguments.
pub proof fn law_mass_get_property(a: MassGetArgs, r: ToolCall)
    requires
        call_ensures(mass_get_property, (a,), r),
    ensures
        is_for(r, "mass_get_property"@, Role::Plugin, a.session),
        has_only(r.args, set!["property"@, "targets"@]),
        entry(r.args, "property"@) == Some(Json::Text(a.property@)),
        texts_are(entry(r.args, "targets"@), a.targets@),
{
    reveal_strlit("property");
    reveal_strlit("targets");
    assert("property"@.len() == 8);
    assert("targets"@.len() == 7);
}

/// Adds a tag to an instance: the command `add_tag` for the plugin, with its arguments.
pub proof fn law_add_tag(a: TagArgs, r: ToolCall)
    requires
        call_ensures(add_tag, (a,), r),
    ensures
        is_for(r, "add_tag"@, Role::Plugin, a.session),
        has_only(r.args, set!["path"@, "handle"@, "tag"@]),
        entry(r.args, "path"@) == opt_text(a.path),
        entry(r.args, "handle"@) == opt_text(a.handle),
        entry(r.args, "tag"@) == Some(Json::Text(a.tag@)),
{
    reveal_strlit("path");
    reveal_strlit("handle");
    reveal_strlit("tag");
    assert("path"@.len() == 4);
    assert("handle"@.len() == 6);
    assert("tag"@.len() == 3);
}

/// Removes a tag from an instance: the command `remove_tag` for the plugin, with its
/// arguments.
pub proof fn law_remove_tag(a: TagArgs, r: ToolCall)
    requires
        call_ensures(remove_tag, (a,), r),
    ensures
        is_for(r, "remove_tag"@, Role::Plugin, a.session),
        has_only(r.args, set!["path"@, "handle"@, "tag"@]),
        entry(r.args, "path"@) == opt_text(a.path),
        entry(r.args, "handle"@) == opt_text(a.handle),
        entry(r.args, "tag"@) == Some(Json::Text(a.tag@)),
{
    reveal_strlit("path");
    reveal_strlit("handle");
    reveal_strlit("tag");
    assert("path"@.len() == 4);
    assert("handle"@.len() == 6);
    assert("tag"@.len() == 3);
}

/// Sets an attribute of an instance: the command `set_attribute` for the plugin, with
/// its arguments.
pub proof fn law_set_attribute(a: SetAttrArgs, r: ToolCall)
    requires
        call_ensures(set_attribute, (a,), r),
    ensures
        is_for(r, "set_attribute"@, Role::Plugin, a.session),
        has_only(r.args, set!["path"@, "handle"@, "name"@, "value"@]),
        entry(r.args, "path"@) == opt_text(a.path),
        entry(r.args, "handle"@) == opt_text(a.handle),
        entry(r.args, "name"@) == Some(Json::Text(a.name@)),
        entry(r.args, "value"@) == Some(json_of(a.value)),
{
    reveal_strlit("path");
    reveal_strlit("handle");
    reveal_strlit("name");
    reveal_strlit("value");
    assert("path"@.len() == 4);
    assert("handle"@.len() == 6);
    assert("name"@.len() == 4);
    assert("value"@.len() == 5);
    assert("path"@[0] != "name"@[0]);
}

/// Deletes an attribute of an instance: the command `delete_attribute` for the plugin,
/// with its arguments.
pub proof fn law_delete_attribute(a: AttrNameArgs, r: ToolCall)
    requires
        call_ensures(delete_attribute, (a,), r),
    ensures
        is_for(r, "delete_attribute"@, Role::Plugin, a.session),
        has_only(r.args, set!["path"@, "handle"@, "name"@]),
        entry(r.args, "path"@) == opt_text(a.path),
        entry(r.args, "handle"@) == opt_text(a.handle),
        entry(r.args, "name"@) == Some(Json::Text(a.name@)),
{
    reveal_strlit("path");
    reveal_strlit("handle");
    reveal_strlit("name");
    assert("path"@.len() == 4);
    assert("handle"@.len() == 6);
    assert("name"@.len() == 4);
    assert("path"@[0] != "name"@[0]);
}

/// Sets several attributes of an instance: the command `bulk_set_attributes` for the
/// plugin, with its arguments.
pub proof fn law_bulk_set_attributes(a: BulkAttrArgs, r: ToolCall)
    requires
        call_ensures(bulk_set_attributes, (a,), r),
    ensures
        is_for(r, "bulk_set_attributes"@, Role::Plugin, a.session),
        has_only(r.args, set!["path"@, "handle"@, "attributes"@]),
        entry(r.args, "path"@) == opt_text(a.path),
        entry(r.args, "handle"@) == opt_text(a.handle),
        entry(r.args, "attributes"@) == Some(json_of(a.attributes)),
{
    reveal_strlit("path");
    reveal_strlit("handle");
    reveal_strlit("attributes");
    assert("path"@.len() == 4);
    assert("handle"@.len() == 6);
    assert("attributes"@.len() == 10);
}

/// Sets a property of an instance: the command `set_property` for the plugin, with its
/// arguments.
pub proof fn law_set_property(a: SetPropArgs, r: ToolCall)
    requires
        call_ensures(set_property, (a,), r),
    ensures
        is_for(r, "set_property"@, Role::Plugin, a.session),
        has_only(r.args, set!["path"@, "handle"@, "property"@, "value"@]),
        entry(r.args, "path"@) == opt_text(a.path),
        entry(r.args, "handle"@) == opt_text(a.handle),
        entry(r.args, "property"@) == Some(Json::Text(a.property@)),
        entry(r.args, "value"@) == Some(json_of(a.value)),
{
    reveal_strlit("path");
    reveal_strlit("handle");
    reveal_strlit("property");
    reveal_strlit("value");
    assert("path"@.len() == 4);
    assert("handle"@.len() == 6);
    assert("property"@.len() == 8);
    assert("value"@.len() == 5);
}

/// Sets several properties of an instance: the command `set_properties` for the plugin,
/// with its arguments.
pub proof fn law_set_properties(a: SetPropsArgs, r: ToolCall)
    requires
        call_ensures(set_properties, (a,), r),
    ensures
        is_for(r, "set_properties"@, Role::Plugin, a.session),
        has_only(r.args, set!["path"@, "handle"@, "properties"@]),
        entry(r.args, "path"@) == opt_text(a.path),
        entry(r.args, "handle"@) == opt_text(a.handle),
        entry(r.args, "properties"@) == Some(json_of(a.properties)),
{
    reveal_strlit("path");
    reveal_strlit("handle");
    reveal_strlit("properties");
    assert("path"@.len() == 4);
    assert("handle"@.len() == 6);
    assert("properties"@.len() == 10);
}

/// Sets a property of many instances: the command `mass_set_property` for the plugin,
/// with its arguments.
pub proof fn law_mass_set_property(a: MassSetArgs, r: ToolCall)
    requires
        call_ensures(mass_set_property, (a,), r),
    ensures
        is_for(r, "mass_set_property"@, Role::Plugin, a.session),
        has_only(r.args, set!["property"@, "value"@, "targets"@]),
        entry(r.args, "property"@) == Some(Json::Text(a.property@)),
        entry(r.args, "value"@) == Some(json_of(a.value)),
        texts_are(entry(r.args, "targets"@), a.targets@),
{
    reveal_strlit("property");
    reveal_strlit("value");
    reveal_strlit("targets");
    assert("property"@.len() == 8);
    assert("value"@.len() == 5);
    assert("targets"@.len() == 7);
}

/// Creates an instance: the command `create_object` for the plugin, with its arguments.
pub proof fn law_create_object(a: CreateArgs, r: ToolCall)
    requires
        call_ensures(create_object, (a,), r),
    ensures
        is_for(r, "create_object"@, Role::Plugin, a.session),
        has_only(r.args, set!["className"@, "parent"@, "name"@]),
        entry(r.args, "className"@) == Some(Json::Text(a.class_name@)),
        entry(r.args, "parent"@) == Some(Json::Text(a.parent@)),
        entry(r.args, "name"@) == opt_text(a.name),
{
    reveal_strlit("className");
    reveal_strlit("parent");
    reveal_strlit("name");
    assert("className"@.len() == 9);
    assert("parent"@.len() == 6);
    assert("name"@.len() == 4);
}

/// Deletes an instance: the command `delete_object` for the plugin, with its arguments.
pub proof fn law_delete_object(a: PathArgs, r: ToolCall)
    requires
        call_ensures(delete_object, (a,), r),
    ensures
        is_for(r, "delete_object"@, Role::Plugin, a.session),
        has_only(r.args, set!["path"@, "handle"@]),
        entry(r.args, "path"@) == opt_text(a.path),
        entry(r.args, "handle"@) == opt_text(a.handle),
{
    reveal_strlit("path");
    reveal_strlit("handle");
    assert("path"@.len() == 4);
    assert("handle"@.len() == 6);
}

/// Copies an instance: the command `clone_object` for the plugin, with its arguments.
pub proof fn law_clone_object(a: CloneArgs, r: ToolCall)
    requires
        call_ensures(clone_object, (a,), r),
    ensures
        is_for(r, "clone_object"@, Role::Plugin, a.session),
        has_only(r.args, set!["path"@, "handle"@, "parent"@, "name"@]),
        entry(r.args, "path"@) == opt_text(a.path),
        entry(r.args, "handle"@) == opt_text(a.handle),
        entry(r.args, "parent"@) == opt_text(a.parent),
        entry(r.args, "name"@) == opt_text(a.name),
{
    reveal_strlit("path");
    reveal_strlit("handle");
    reveal_strlit("parent");
    reveal_strlit("name");
    assert("path"@.len() == 4);
    assert("handle"@.len() == 6);
    assert("parent"@.len() == 6);
    assert("name"@.len() == 4);
    assert("path"@[0] != "name"@[0]);
    assert("handle"@[0] != "parent"@[0]);
}

/// Renames an instance: the command `rename_object` for the plugin, with its arguments.
pub proof fn law_rename_object(a: RenameArgs, r: ToolCall)
    requires
        call_ensures(rename_object, (a,), r),
    ensures
        is_for(r, "rename_object"@, Role::Plugin, a.session),
        has_only(r.args, set!["path"@, "handle"@, "name"@]),
        entry(r.args, "path"@) == opt_text(a.path),
        entry(r.args, "handle"@) == opt_text(a.handle),
        entry(r.args, "name"@) == Some(Json::Text(a.name@)),
{
    reveal_strlit("path");
    reveal_strlit("handle");
    reveal_strlit("name");
    assert("path"@.len() == 4);
    assert("handle"@.len() == 6);
    assert("name"@.len() == 4);
    assert("path"@[0] != "name"@[0]);
}

/// Gives an instance another parent: the command `move_object` for the plugin, with its
/// arguments.
pub proof fn law_move_object(a: MoveArgs, r: ToolCall)
    requires
        call_ensures(move_object, (a,), r),
    ensures
        is_for(r, "move_object"@, Role::Plugin, a.session),
        has_only(r.args, set!["path"@, "handle"@, "parent"@]),
        entry(r.args, "path"@) == opt_text(a.path),
        entry(r.args, "handle"@) == opt_text(a.handle),
        entry(r.args, "parent"@) == Some(Json::Text(a.parent@)),
{
    reveal_strlit("path");
    reveal_strlit("handle");
    reveal_strlit("parent");
    assert("path"@.len() == 4);
    assert("handle"@.len() == 6);
    assert("parent"@.len() == 6);
    assert("handle"@[0] != "parent"@[0]);
}

/// Copies an instance many times: the command `mass_duplicate` for the plugin, with its
/// arguments.
pub proof fn law_mass_duplicate(a: MassDupArgs, r: ToolCall)
    requires
        call_ensures(mass_duplicate, (a,), r),
    ensures
        is_for(r, "mass_duplicate"@, Role::Plugin, a.session),
        has_only(r.args, set!["path"@, "handle"@, "count"@, "parent"@]),
        entry(r.args, "path"@) == opt_text(a.path),
        entry(r.args, "handle"@) == opt_text(a.handle),
        entry(r.args, "count"@) == Some(Json::Int(a.count as int)),
        entry(r.args, "parent"@) == opt_text(a.parent),
{
    reveal_strlit("path");
    reveal_strlit("handle");
    reveal_strlit("count");
    reveal_strlit("parent");
    assert("path"@.len() == 4);
    assert("handle"@.len() == 6);
    assert("count"@.len() == 5);
    assert("parent"@.len() == 6);
    assert("handle"@[0] != "parent"@[0]);
}

/// Copies an instance many times, under new names and side by side: the command
/// `smart_duplicate` for the plugin, with its arguments.
pub proof fn law_smart_duplicate(a: SmartDupArgs, r: ToolCall)
    requires
        call_ensures(smart_duplicate, (a,), r),
    ensures
        is_for(r, "smart_duplicate"@, Role::Plugin, a.session),
        has_only(
            r.args,
            set![
                "path"@,
                "handle"@,
                "count"@,
                "parent"@,
                "namePrefix"@,
                "offset"@,
            ],
        ),
        entry(r.args, "path"@) == opt_text(a.path),
        entry(r.args, "handle"@) == opt_text(a.handle),
        entry(r.args, "count"@) == Some(Json::Int(a.count as int)),
        entry(r.args, "parent"@) == opt_text(a.parent),
        entry(r.args, "namePrefix"@) == opt_text(a.name_prefix),
        entry(r.args, "offset"@) == opt_value(a.offset),
{
    reveal_strlit("path");
    reveal_strlit("handle");
    reveal_strlit("count");
    reveal_strlit("parent");
    reveal_strlit("namePrefix");
    reveal_strlit("offset");
    assert("path"@.len() == 4);
    assert("handle"@.len() == 6);
    assert("count"@.len() == 5);
    assert("parent"@.len() == 6);
    assert("namePrefix"@.len() == 10);
    assert("offset"@.len() == 6);
    assert("handle"@[0] != "parent"@[0]);
    assert("handle"@[0] != "offset"@[0]);
    assert("parent"@[0] != "offset"@[0]);
}

/// Creates a tree of instances: the command `create_ui_tree` for the plugin, with its
/// arguments.
pub proof fn law_create_ui_tree(a: UiTreeArgs, r: ToolCall)
    requires
        call_ensures(create_ui_tree, (a,), r),
    ensures
        is_for(r, "create_ui_tree"@, Role::Plugin, a.session),
        has_only(r.args, set!["tree"@, "parent"@]),
        entry(r.args, "tree"@) == Some(json_of(a.tree)),
        entry(r.args, "parent"@) == opt_text(a.parent),
{
    reveal_strlit("tree");
    reveal_strlit("parent");
    assert("tree"@.len() == 4);
    assert("parent"@.len() == 6);
}

/// Undoes the last change: the command `undo` for the plugin.
pub proof fn law_undo(a: SessionSelector, r: ToolCall)
    requires
        call_ensures(undo, (a,), r),
    ensures
        is_for(r, "undo"@, Role::Plugin, a.session),
        has_only(r.args, Set::empty()),
{
}

/// Redoes the change that was undone last: the command `redo` for the plugin.
pub proof fn law_redo(a: SessionSelector, r: ToolCall)
    requires
        call_ensures(redo, (a,), r),
    ensures
        is_for(r, "redo"@, Role::Plugin, a.session),
        has_only(r.args, Set::empty()),
{
}

/// Replaces the source of a script: the command `set_script_source` for the plugin,
/// with its arguments.
pub proof fn law_set_script_source(a: SetSourceArgs, r: ToolCall)
    requires
        call_ensures(set_script_source, (a,), r),
    ensures
        is_for(r, "set_script_source"@, Role::Plugin, a.session),
        has_only(r.args, set!["path"@, "handle"@, "source"@]),
        entry(r.args, "path"@) == opt_text(a.path),
        entry(r.args, "handle"@) == opt_text(a.handle),
        entry(r.args, "source"@) == Some(Json::Text(a.source@)),
{
    reveal_strlit("path");
    reveal_strlit("handle");
    reveal_strlit("source");
    assert("path"@.len() == 4);
    assert("handle"@.len() == 6);
    assert("source"@.len() == 6);
    assert("handle"@[0] != "source"@[0]);
}

/// Replaces lines of a script: the command `edit_script_lines` for the plugin, with its
/// arguments.
pub proof fn law_edit_script_lines(a: EditLinesArgs, r: ToolCall)
    requires
        call_ensures(edit_script_lines, (a,), r),
    ensures
        is_for(r, "edit_script_lines"@, Role::Plugin, a.session),
        has_only(r.args, set!["path"@, "handle"@, "startLine"@, "endLine"@, "newText"@]),
        entry(r.args, "path"@) == opt_text(a.path),
        entry(r.args, "handle"@) == opt_text(a.handle),
        entry(r.args, "startLine"@) == Some(Json::Int(a.start_line as int)),
        entry(r.args, "endLine"@) == opt_number(a.end_line),
        entry(r.args, "newText"@) == Some(Json::Text(a.new_text@)),
{
    reveal_strlit("path");
    reveal_strlit("handle");
    reveal_strlit("startLine");
    reveal_strlit("endLine");
    reveal_strlit("newText");
    assert("path"@.len() == 4);
    assert("handle"@.len() == 6);
    assert("startLine"@.len() == 9);
    assert("endLine"@.len() == 7);
    assert("newText"@.len() == 7);
    assert("endLine"@[0] != "newText"@[0]);
}

/// Inserts lines into a script: the command `insert_script_lines` for the plugin, with
/// its arguments.
pub proof fn law_insert_script_lines(a: InsertLinesArgs, r: ToolCall)
    requires
        call_ensures(insert_script_lines, (a,), r),
    ensures
        is_for(r, "insert_script_lines"@, Role::Plugin, a.session),
        has_only(r.args, set!["path"@, "handle"@, "afterLine"@, "text"@]),
        entry(r.args, "path"@) == opt_text(a.path),
        entry(r.args, "handle"@) == opt_text(a.handle),
        entry(r.args, "afterLine"@) == Some(Json::Int(a.after_line as int)),
        entry(r.args, "text"@) == Some(Json::Text(a.text@)),
{
    reveal_strlit("path");
    reveal_strlit("handle");
    reveal_strlit("afterLine");
    reveal_strlit("text");
    assert("path"@.len() == 4);
    assert("handle"@.len() == 6);
    assert("afterLine"@.len() == 9);
    assert("text"@.len() == 4);
    assert("path"@[0] != "text"@[0]);
}

/// Deletes lines of a script: the command `delete_script_lines` for the plugin, with
/// its arguments.
pub proof fn law_delete_script_lines(a: DeleteLinesArgs, r: ToolCall)
    requires
        call_ensures(delete_script_lines, (a,), r),
    ensures
        is_for(r, "delete_script_lines"@, Role::Plugin, a.session),
        has_only(r.args, set!["path"@, "handle"@, "startLine"@, "endLine"@]),
        entry(r.args, "path"@) == opt_text(a.path),
        entry(r.args, "handle"@) == opt_text(a.handle),
        entry(r.args, "startLine"@) == Some(Json::Int(a.start_line as int)),
        entry(r.args, "endLine"@) == opt_number(a.end_line),
{
    reveal_strlit("path");
    reveal_strlit("handle");
    reveal_strlit("startLine");
    reveal_strlit("endLine");
    assert("path"@.len() == 4);
    assert("handle"@.len() == 6);
    assert("startLine"@.len() == 9);
    assert("endLine"@.len() == 7);
}

/// Replaces text in many scripts: the command `find_and_replace_in_scripts` for the
/// plugin, with its arguments.
pub proof fn law_find_and_replace_in_scripts(a: FindReplaceArgs, r: ToolCall)
    requires
        call_ensures(find_and_replace_in_scripts, (a,), r),
    ensures
        is_for(r, "find_and_replace_in_scripts"@, Role::Plugin, a.session),
        has_only(
            r.args,
            set![
                "path"@,
                "handle"@,
                "pattern"@,
                "replacement"@,
                "usePattern"@,
                "classFilter"@,
            ],
        ),
        entry(r.args, "path"@) == opt_text(a.path),
        entry(r.args, "handle"@) == opt_text(a.handle),
        entry(r.args, "pattern"@) == Some(Json::Text(a.pattern@)),
        entry(r.args, "replacement"@) == Some(Json::Text(a.replacement@)),
        entry(r.args, "usePattern"@) == opt_flag(a.use_pattern),
        entry(r.args, "classFilter"@) == opt_text(a.class_filter),
{
    reveal_strlit("path");
    reveal_strlit("handle");
    reveal_strlit("pattern");
    reveal_strlit("replacement");
    reveal_strlit("usePattern");
    reveal_strlit("classFilter");
    assert("path"@.len() == 4);
    assert("handle"@.len() == 6);
    assert("pattern"@.len() == 7);
    assert("replacement"@.len() == 11);
    assert("usePattern"@.len() == 10);
    assert("classFilter"@.len() == 11);
    assert("replacement"@[0] != "classFilter"@[0]);
}

/// Checks that scripts compile: the command `get_script_analysis` for the plugin, with
/// its arguments.
pub proof fn law_get_script_analysis(a: PathArgs, r: ToolCall)
    requires
        call_ensures(get_script_analysis, (a,), r),
    ensures
        is_for(r, "get_script_analysis"@, Role::Plugin, a.session),
        has_only(r.args, set!["path"@, "handle"@]),
        entry(r.args, "path"@) == opt_text(a.path),
        entry(r.args, "handle"@) == opt_text(a.handle),
{
    reveal_strlit("path");
    reveal_strlit("handle");
    assert("path"@.len() == 4);
    assert("handle"@.len() == 6);
}

} // verus!
