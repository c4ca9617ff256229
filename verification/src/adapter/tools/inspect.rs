//! Reads of instances, their tags, attributes and properties.
use crate::adapter::tools::{
    call, target, target_entries, text_list, text_list_value, AttrNameArgs, PathArgs,
    SessionSelector, ToolCall,
};
use crate::json::{no_entries, number, texts, texts_value, Entries, Json, JsonObject};
use crate::protocol::Role;
use vstd::prelude::*;

verus! {

/// An instance, and a limit on the results.
pub struct PathLimitArgs {
    /// The id or label of the session; may be left out where one session is live.
    pub session: Option<String>,
    /// A dot-path, such as `game.Workspace.Part`.
    pub path: Option<String>,
    /// The handle of an instance, from an earlier result.
    pub handle: Option<String>,
    /// How many results to return at most.
    pub limit: Option<u32>,
}

/// What [`get_instance_properties`] takes.
pub struct GetPropsArgs {
    /// The id or label of the session; may be left out where one session is live.
    pub session: Option<String>,
    /// A dot-path, such as `game.Workspace.Part`.
    pub path: Option<String>,
    /// The handle of an instance, from an earlier result.
    pub handle: Option<String>,
    /// The properties to read.
    pub properties: Option<Vec<String>>,
}

/// What [`get_project_structure`] takes.
pub struct ProjectArgs {
    /// The id or label of the session; may be left out where one session is live.
    pub session: Option<String>,
    /// A dot-path, such as `game.Workspace.Part`.
    pub path: Option<String>,
    /// The handle of an instance, from an earlier result.
    pub handle: Option<String>,
    /// How far below the root to go.
    pub max_depth: Option<u32>,
}

/// What [`get_class_info`] takes.
pub struct ClassInfoArgs {
    /// The id or label of the session; may be left out where one session is live.
    pub session: Option<String>,
    /// The name of the class.
    pub class_name: String,
}

/// What [`compare_instances`] takes.
pub struct CompareArgs {
    /// The id or label of the session; may be left out where one session is live.
    pub session: Option<String>,
    /// The path or handle of one instance.
    pub a: String,
    /// The path or handle of the other.
    pub b: String,
}

/// What [`get_tagged`] takes.
pub struct GetTaggedArgs {
    /// The id or label of the session; may be left out where one session is live.
    pub session: Option<String>,
    /// The tag.
    pub tag: String,
    /// How many results to return at most.
    pub limit: Option<u32>,
}

/// What [`mass_get_property`] takes.
pub struct MassGetArgs {
    /// The id or label of the session; may be left out where one session is live.
    pub session: Option<String>,
    /// The property to read.
    pub property: String,
    /// The paths or handles of the instances.
    pub targets: Vec<String>,
}

/// Lists the children of an instance.
pub fn get_instance_children(a: PathArgs) -> (r: ToolCall)
    ensures
        r.calls(
            "get_instance_children"@,
            Role::Plugin,
            a.session,
            target_entries(a.path, a.handle),
        ),
{
    call("get_instance_children", Role::Plugin, target(&a.path, &a.handle), a.session)
}

/// Lists the descendants of an instance.
pub fn get_descendants(a: PathLimitArgs) -> (r: ToolCall)
    ensures
        r.calls(
            "get_descendants"@,
            Role::Plugin,
            a.session,
            target_entries(a.path, a.handle).maybe("limit"@, number(a.limit)),
        ),
{
    let args = target(&a.path, &a.handle).maybe_number("limit", a.limit);
    call("get_descendants", Role::Plugin, args, a.session)
}

/// Lists the services of the place.
pub fn get_services(a: SessionSelector) -> (r: ToolCall)
    ensures
        r.calls("get_services"@, Role::Plugin, a.session, no_entries()),
{
    call("get_services", Role::Plugin, JsonObject::new(), a.session)
}

/// Lists the selected instances.
pub fn get_selection(a: SessionSelector) -> (r: ToolCall)
    ensures
        r.calls("get_selection"@, Role::Plugin, a.session, no_entries()),
{
    call("get_selection", Role::Plugin, JsonObject::new(), a.session)
}

/// Reads properties of an instance.
pub fn get_instance_properties(a: GetPropsArgs) -> (r: ToolCall)
    ensures
        r.calls(
            "get_instance_properties"@,
            Role::Plugin,
            a.session,
            target_entries(a.path, a.handle)
                .maybe("properties"@, text_list(a.properties)),
        ),
{
    let args = target(&a.path, &a.handle).maybe("properties", text_list_value(&a.properties));
    call("get_instance_properties", Role::Plugin, args, a.session)
}

/// Reads the tree below an instance.
pub fn get_project_structure(a: ProjectArgs) -> (r: ToolCall)
    ensures
        r.calls(
            "get_project_structure"@,
            Role::Plugin,
            a.session,
            target_entries(a.path, a.handle).maybe("maxDepth"@, number(a.max_depth)),
        ),
{
    let args = target(&a.path, &a.handle).maybe_number("maxDepth", a.max_depth);
    call("get_project_structure", Role::Plugin, args, a.session)
}

/// Lists the scripts below an instance.
pub fn get_file_tree(a: PathArgs) -> (r: ToolCall)
    ensures
        r.calls(
            "get_file_tree"@,
            Role::Plugin,
            a.session,
            target_entries(a.path, a.handle),
        ),
{
    call("get_file_tree", Role::Plugin, target(&a.path, &a.handle), a.session)
}

/// Describes a class.
pub fn get_class_info(a: ClassInfoArgs) -> (r: ToolCall)
    ensures
        r.calls(
            "get_class_info"@,
            Role::Plugin,
            a.session,
            no_entries().insert("className"@, Json::Text(a.class_name@)),
        ),
{
    let args = JsonObject::new().with_text("className", a.class_name.as_str());
    call("get_class_info", Role::Plugin, args, a.session)
}

/// Lists the parts that are joined to a part.
pub fn get_connected_instances(a: PathArgs) -> (r: ToolCall)
    ensures
        r.calls(
            "get_connected_instances"@,
            Role::Plugin,
            a.session,
            target_entries(a.path, a.handle),
        ),
{
    call("get_connected_instances", Role::Plugin, target(&a.path, &a.handle), a.session)
}

/// Compares the properties of two instances.
pub fn compare_instances(a: CompareArgs) -> (r: ToolCall)
    ensures
        r.calls(
            "compare_instances"@,
            Role::Plugin,
            a.session,
            no_entries().insert("a"@, Json::Text(a.a@)).insert("b"@, Json::Text(a.b@)),
        ),
{
    let args = JsonObject::new().with_text("a", a.a.as_str()).with_text("b", a.b.as_str());
    call("compare_instances", Role::Plugin, args, a.session)
}

/// Lists the tags of an instance.
pub fn get_tags(a: PathArgs) -> (r: ToolCall)
    ensures
        r.calls("get_tags"@, Role::Plugin, a.session, target_entries(a.path, a.handle)),
{
    call("get_tags", Role::Plugin, target(&a.path, &a.handle), a.session)
}

/// Lists the instances that carry a tag.
pub fn get_tagged(a: GetTaggedArgs) -> (r: ToolCall)
    ensures
        r.calls(
            "get_tagged"@,
            Role::Plugin,
            a.session,
            no_entries()
                .insert("tag"@, Json::Text(a.tag@))
                .maybe("limit"@, number(a.limit)),
        ),
{
    let args = JsonObject::new().with_text("tag", a.tag.as_str()).maybe_number("limit", a.limit);
    call("get_tagged", Role::Plugin, args, a.session)
}

/// Reads an attribute of an instance.
pub fn get_attribute(a: AttrNameArgs) -> (r: ToolCall)
    ensures
        r.calls(
            "get_attribute"@,
            Role::Plugin,
            a.session,
            target_entries(a.path, a.handle).insert("name"@, Json::Text(a.name@)),
        ),
{
    let args = target(&a.path, &a.handle).with_text("name", a.name.as_str());
    call("get_attribute", Role::Plugin, args, a.session)
}

/// Lists the attributes of an instance.
pub fn get_attributes(a: PathArgs) -> (r: ToolCall)
    ensures
        r.calls(
            "get_attributes"@,
            Role::Plugin,
            a.session,
            target_entries(a.path, a.handle),
        ),
{
    call("get_attributes", Role::Plugin, target(&a.path, &a.handle), a.session)
}

/// Reads a property of many instances.
pub fn mass_get_property(a: MassGetArgs) -> (r: ToolCall)
    ensures
        r.calls(
            "mass_get_property"@,
            Role::Plugin,
            a.session,
            no_entries()
                .insert("property"@, Json::Text(a.property@))
                .insert("targets"@, texts(a.targets@)),
        ),
{
    let args = JsonObject::new()
        .with_text("property", a.property.as_str())
        .with("targets", texts_value(&a.targets));
    call("mass_get_property", Role::Plugin, args, a.session)
}

} // verus!
