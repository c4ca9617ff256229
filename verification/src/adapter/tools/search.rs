//! Searches over instances and scripts.
use crate::adapter::tools::{
    call, flag_or, number_or, or_flag, or_number, target, target_entries, ToolCall,
};
use crate::json::{given, no_entries, number, text, Entries, Json, JsonObject};
use crate::protocol::Role;
use serde_json::Value;
use vstd::prelude::*;

verus! {

/// What [`grep_scripts`] takes.
pub struct GrepArgs {
    /// The id or label of the session; may be left out where one session is live.
    pub session: Option<String>,
    /// What to find in the source: a Lua pattern unless `plain` is set.
    pub pattern: String,
    /// Whether the pattern is literal text.
    pub plain: Option<bool>,
    /// Whether upper and lower case are the same.
    pub ignore_case: Option<bool>,
    /// The class of the scripts to search.
    pub class_filter: Option<String>,
    /// How many lines around each match to return.
    pub context_lines: Option<u32>,
    /// How many matches to return at most.
    pub limit: Option<u32>,
    /// The handle of the instance to search below.
    pub root: Option<String>,
}

/// What [`search_instances`] takes.
pub struct SearchInstancesArgs {
    /// The id or label of the session; may be left out where one session is live.
    pub session: Option<String>,
    /// The class, or a base class, of the instances.
    pub class_name: Option<String>,
    /// A Lua pattern for their names.
    pub name_pattern: Option<String>,
    /// A tag that they carry.
    pub tag: Option<String>,
    /// A property that they have.
    pub property: Option<String>,
    /// The value of that property.
    pub value: Option<Value>,
    /// How far below the root to search.
    pub max_depth: Option<u32>,
    /// How many results to a page.
    pub limit: Option<u32>,
    /// The handle of the instance to search below.
    pub root: Option<String>,
    /// Where the next page starts, from an earlier call.
    pub cursor: Option<String>,
}

/// What [`search_by_property`] takes.
pub struct SearchByPropertyArgs {
    /// The id or label of the session; may be left out where one session is live.
    pub session: Option<String>,
    /// The property to read.
    pub property: String,
    /// The value that it must have.
    pub value: Option<Value>,
    /// The class, or a base class, of the instances.
    pub class_name: Option<String>,
    /// How many matches to return at most.
    pub limit: Option<u32>,
    /// The handle of the instance to search below.
    pub root: Option<String>,
}

/// What [`get_script_source`] takes.
pub struct GetScriptSourceArgs {
    /// The id or label of the session; may be left out where one session is live.
    pub session: Option<String>,
    /// The handle of the script.
    pub handle: String,
    /// The first line to return, counted from one.
    pub start_line: Option<u32>,
    /// The last line to return, counted from one.
    pub end_line: Option<u32>,
}

/// What [`search_objects`] takes.
pub struct SearchObjArgs {
    /// The id or label of the session; may be left out where one session is live.
    pub session: Option<String>,
    /// A dot-path, such as `game.Workspace.Part`.
    pub path: Option<String>,
    /// The handle of an instance, from an earlier result.
    pub handle: Option<String>,
    /// A Lua pattern for the names.
    pub name_pattern: Option<String>,
    /// The class of the instances.
    pub class_name: Option<String>,
    /// How many results to return at most.
    pub limit: Option<u32>,
}

/// What [`search_files`] takes.
pub struct SearchFilesArgs {
    /// The id or label of the session; may be left out where one session is live.
    pub session: Option<String>,
    /// What the name or the full path of a script contains.
    pub query: String,
    /// A dot-path, such as `game.Workspace.Part`.
    pub path: Option<String>,
    /// The handle of an instance, from an earlier result.
    pub handle: Option<String>,
    /// How many results to return at most.
    pub limit: Option<u32>,
}

/// Searches the source of scripts.
pub fn grep_scripts(a: GrepArgs) -> (r: ToolCall)
    ensures
        r.calls(
            "grep"@,
            Role::Plugin,
            a.session,
            no_entries()
                .insert("pattern"@, Json::Text(a.pattern@))
                .insert("plain"@, Json::Bool(or_flag(a.plain, false)))
                .insert("ignoreCase"@, Json::Bool(or_flag(a.ignore_case, false)))
                .insert("limit"@, Json::Int(or_number(a.limit, 200)))
                .insert("contextLines"@, Json::Int(or_number(a.context_lines, 0)))
                .maybe("classFilter"@, text(a.class_filter))
                .maybe("root"@, text(a.root)),
        ),
{
    let args = JsonObject::new()
        .with_text("pattern", a.pattern.as_str())
        .with_flag("plain", flag_or(a.plain, false))
        .with_flag("ignoreCase", flag_or(a.ignore_case, false))
        .with_number("limit", number_or(a.limit, 200) as u64)
        .with_number("contextLines", number_or(a.context_lines, 0) as u64)
        .maybe_text("classFilter", &a.class_filter)
        .maybe_text("root", &a.root);
    call("grep", Role::Plugin, args, a.session)
}

/// Searches the tree of instances.
pub fn search_instances(a: SearchInstancesArgs) -> (r: ToolCall)
    ensures
        r.calls(
            "search_instances"@,
            Role::Plugin,
            a.session,
            no_entries()
                .insert("limit"@, Json::Int(or_number(a.limit, 100)))
                .maybe("className"@, text(a.class_name))
                .maybe("namePattern"@, text(a.name_pattern))
                .maybe("tag"@, text(a.tag))
                .maybe("property"@, text(a.property))
                .maybe("value"@, given(a.value))
                .maybe("maxDepth"@, number(a.max_depth))
                .maybe("root"@, text(a.root))
                .maybe("cursor"@, text(a.cursor)),
        ),
{
    let args = JsonObject::new()
        .with_number("limit", number_or(a.limit, 100) as u64)
        .maybe_text("className", &a.class_name)
        .maybe_text("namePattern", &a.name_pattern)
        .maybe_text("tag", &a.tag)
        .maybe_text("property", &a.property)
        .maybe("value", a.value)
        .maybe_number("maxDepth", a.max_depth)
        .maybe_text("root", &a.root)
        .maybe_text("cursor", &a.cursor);
    call("search_instances", Role::Plugin, args, a.session)
}

/// Finds instances by the value of a property.
pub fn search_by_property(a: SearchByPropertyArgs) -> (r: ToolCall)
    ensures
        r.calls(
            "search_by_property"@,
            Role::Plugin,
            a.session,
            no_entries()
                .insert("property"@, Json::Text(a.property@))
                .insert("limit"@, Json::Int(or_number(a.limit, 200)))
                .maybe("value"@, given(a.value))
                .maybe("className"@, text(a.class_name))
                .maybe("root"@, text(a.root)),
        ),
{
    let args = JsonObject::new()
        .with_text("property", a.property.as_str())
        .with_number("limit", number_or(a.limit, 200) as u64)
        .maybe("value", a.value)
        .maybe_text("className", &a.class_name)
        .maybe_text("root", &a.root);
    call("search_by_property", Role::Plugin, args, a.session)
}

/// Reads the source of a script, or some lines of it.
pub fn get_script_source(a: GetScriptSourceArgs) -> (r: ToolCall)
    ensures
        r.calls(
            "get_script_source"@,
            Role::Plugin,
            a.session,
            no_entries()
                .insert("handle"@, Json::Text(a.handle@))
                .maybe("startLine"@, number(a.start_line))
                .maybe("endLine"@, number(a.end_line)),
        ),
{
    let args = JsonObject::new()
        .with_text("handle", a.handle.as_str())
        .maybe_number("startLine", a.start_line)
        .maybe_number("endLine", a.end_line);
    call("get_script_source", Role::Plugin, args, a.session)
}

/// Finds instances by name and class.
pub fn search_objects(a: SearchObjArgs) -> (r: ToolCall)
    ensures
        r.calls(
            "search_objects"@,
            Role::Plugin,
            a.session,
            target_entries(a.path, a.handle)
                .maybe("namePattern"@, text(a.name_pattern))
                .maybe("className"@, text(a.class_name))
                .maybe("limit"@, number(a.limit)),
        ),
{
    let args = target(&a.path, &a.handle)
        .maybe_text("namePattern", &a.name_pattern)
        .maybe_text("className", &a.class_name)
        .maybe_number("limit", a.limit);
    call("search_objects", Role::Plugin, args, a.session)
}

/// Finds scripts by name or path.
pub fn search_files(a: SearchFilesArgs) -> (r: ToolCall)
    ensures
        r.calls(
            "search_files"@,
            Role::Plugin,
            a.session,
            target_entries(a.path, a.handle)
                .insert("query"@, Json::Text(a.query@))
                .maybe("limit"@, number(a.limit)),
        ),
{
    let args = target(&a.path, &a.handle)
        .with_text("query", a.query.as_str())
        .maybe_number("limit", a.limit);
    call("search_files", Role::Plugin, args, a.session)
}

} // verus!
