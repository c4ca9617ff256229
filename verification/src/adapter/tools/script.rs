//! Changes to scripts.
use crate::adapter::tools::{call, target, target_entries, PathArgs, ToolCall};
use crate::json::{flag, number, text, Entries, Json};
use crate::protocol::Role;
use vstd::prelude::*;

verus! {

/// What [`set_script_source`] takes.
pub struct SetSourceArgs {
    /// The id or label of the session; may be left out where one session is live.
    pub session: Option<String>,
    /// A dot-path, such as `game.Workspace.Part`.
    pub path: Option<String>,
    /// The handle of an instance, from an earlier result.
    pub handle: Option<String>,
    /// The new source.
    pub source: String,
}

/// What [`edit_script_lines`] takes.
pub struct EditLinesArgs {
    /// The id or label of the session; may be left out where one session is live.
    pub session: Option<String>,
    /// A dot-path, such as `game.Workspace.Part`.
    pub path: Option<String>,
    /// The handle of an instance, from an earlier result.
    pub handle: Option<String>,
    /// The first line to replace.
    pub start_line: u32,
    /// The last line to replace.
    pub end_line: Option<u32>,
    /// What takes their place.
    pub new_text: String,
}

/// What [`insert_script_lines`] takes.
pub struct InsertLinesArgs {
    /// The id or label of the session; may be left out where one session is live.
    pub session: Option<String>,
    /// A dot-path, such as `game.Workspace.Part`.
    pub path: Option<String>,
    /// The handle of an instance, from an earlier result.
    pub handle: Option<String>,
    /// The line to insert after; zero for the top of the file.
    pub after_line: u32,
    /// The new text.
    pub text: String,
}

/// What [`delete_script_lines`] takes.
pub struct DeleteLinesArgs {
    /// The id or label of the session; may be left out where one session is live.
    pub session: Option<String>,
    /// A dot-path, such as `game.Workspace.Part`.
    pub path: Option<String>,
    /// The handle of an instance, from an earlier result.
    pub handle: Option<String>,
    /// The first line to delete.
    pub start_line: u32,
    /// The last line to delete.
    pub end_line: Option<u32>,
}

/// What [`find_and_replace_in_scripts`] takes.
pub struct FindReplaceArgs {
    /// The id or label of the session; may be left out where one session is live.
    pub session: Option<String>,
    /// What to find.
    pub pattern: String,
    /// What takes its place.
    pub replacement: String,
    /// Whether these are Lua patterns rather than literal text.
    pub use_pattern: Option<bool>,
    /// The class of the scripts.
    pub class_filter: Option<String>,
    /// A dot-path, such as `game.Workspace.Part`.
    pub path: Option<String>,
    /// The handle of an instance, from an earlier result.
    pub handle: Option<String>,
}

/// Replaces the source of a script.
pub fn set_script_source(a: SetSourceArgs) -> (r: ToolCall)
    ensures
        r.calls(
            "set_script_source"@,
            Role::Plugin,
            a.session,
            target_entries(a.path, a.handle).insert("source"@, Json::Text(a.source@)),
        ),
{
    let args = target(&a.path, &a.handle).with_text("source", a.source.as_str());
    call("set_script_source", Role::Plugin, args, a.session)
}

/// Replaces lines of a script.
pub fn edit_script_lines(a: EditLinesArgs) -> (r: ToolCall)
    ensures
        r.calls(
            "edit_script_lines"@,
            Role::Plugin,
            a.session,
            target_entries(a.path, a.handle)
                .insert("startLine"@, Json::Int(a.start_line as int))
                .maybe("endLine"@, number(a.end_line))
                .insert("newText"@, Json::Text(a.new_text@)),
        ),
{
    let args = target(&a.path, &a.handle)
        .with_number("startLine", a.start_line as u64)
        .maybe_number("endLine", a.end_line)
        .with_text("newText", a.new_text.as_str());
    call("edit_script_lines", Role::Plugin, args, a.session)
}

/// Inserts lines into a script.
pub fn insert_script_lines(a: InsertLinesArgs) -> (r: ToolCall)
    ensures
        r.calls(
            "insert_script_lines"@,
            Role::Plugin,
            a.session,
            target_entries(a.path, a.handle)
                .insert("afterLine"@, Json::Int(a.after_line as int))
                .insert("text"@, Json::Text(a.text@)),
        ),
{
    let args = target(&a.path, &a.handle)
        .with_number("afterLine", a.after_line as u64)
        .with_text("text", a.text.as_str());
    call("insert_script_lines", Role::Plugin, args, a.session)
}

/// Deletes lines of a script.
pub fn delete_script_lines(a: DeleteLinesArgs) -> (r: ToolCall)
    ensures
        r.calls(
            "delete_script_lines"@,
            Role::Plugin,
            a.session,
            target_entries(a.path, a.handle)
                .insert("startLine"@, Json::Int(a.start_line as int))
                .maybe("endLine"@, number(a.end_line)),
        ),
{
    let args = target(&a.path, &a.handle)
        .with_number("startLine", a.start_line as u64)
        .maybe_number("endLine", a.end_line);
    call("delete_script_lines", Role::Plugin, args, a.session)
}

/// Replaces text in many scripts.
pub fn find_and_replace_in_scripts(a: FindReplaceArgs) -> (r: ToolCall)
    ensures
        r.calls(
            "find_and_replace_in_scripts"@,
            Role::Plugin,
            a.session,
            target_entries(a.path, a.handle)
                .insert("pattern"@, Json::Text(a.pattern@))
                .insert("replacement"@, Json::Text(a.replacement@))
                .maybe("usePattern"@, flag(a.use_pattern))
                .maybe("classFilter"@, text(a.class_filter)),
        ),
{
    let args = target(&a.path, &a.handle)
        .with_text("pattern", a.pattern.as_str())
        .with_text("replacement", a.replacement.as_str())
        .maybe_flag("usePattern", a.use_pattern)
        .maybe_text("classFilter", &a.class_filter);
    call("find_and_replace_in_scripts", Role::Plugin, args, a.session)
}

/// Checks that scripts compile.
pub fn get_script_analysis(a: PathArgs) -> (r: ToolCall)
    ensures
        r.calls(
            "get_script_analysis"@,
            Role::Plugin,
            a.session,
            target_entries(a.path, a.handle),
        ),
{
    call("get_script_analysis", Role::Plugin, target(&a.path, &a.handle), a.session)
}

} // verus!
