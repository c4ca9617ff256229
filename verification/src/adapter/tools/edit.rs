//! Changes to instances, their tags, attributes and properties.
use crate::adapter::tools::{
    call, target, target_entries, AttrNameArgs, PathArgs, SessionSelector, ToolCall,
};
use crate::json::{given, json_of, no_entries, text, texts, texts_value, Entries, Json, JsonObject};
use crate::protocol::Role;
use serde_json::Value;
use vstd::prelude::*;

verus! {

/// A tag of an instance.
pub struct TagArgs {
    /// The id or label of the session; may be left out where one session is live.
    pub session: Option<String>,
    /// A dot-path, such as `game.Workspace.Part`.
    pub path: Option<String>,
    /// The handle of an instance, from an earlier result.
    pub handle: Option<String>,
    /// The tag.
    pub tag: String,
}

/// What [`set_attribute`] takes.
pub struct SetAttrArgs {
    /// The id or label of the session; may be left out where one session is live.
    pub session: Option<String>,
    /// A dot-path, such as `game.Workspace.Part`.
    pub path: Option<String>,
    /// The handle of an instance, from an earlier result.
    pub handle: Option<String>,
    /// The name of the attribute.
    pub name: String,
    /// Its new value.
    pub value: Value,
}

/// What [`bulk_set_attributes`] takes.
pub struct BulkAttrArgs {
    /// The id or label of the session; may be left out where one session is live.
    pub session: Option<String>,
    /// A dot-path, such as `game.Workspace.Part`.
    pub path: Option<String>,
    /// The handle of an instance, from an earlier result.
    pub handle: Option<String>,
    /// The new values by attribute.
    pub attributes: Value,
}

/// What [`set_property`] takes.
pub struct SetPropArgs {
    /// The id or label of the session; may be left out where one session is live.
    pub session: Option<String>,
    /// A dot-path, such as `game.Workspace.Part`.
    pub path: Option<String>,
    /// The handle of an instance, from an earlier result.
    pub handle: Option<String>,
    /// The property.
    pub property: String,
    /// Its new value.
    pub value: Value,
}

/// What [`set_properties`] takes.
pub struct SetPropsArgs {
    /// The id or label of the session; may be left out where one session is live.
    pub session: Option<String>,
    /// A dot-path, such as `game.Workspace.Part`.
    pub path: Option<String>,
    /// The handle of an instance, from an earlier result.
    pub handle: Option<String>,
    /// The new values by property.
    pub properties: Value,
}

/// What [`mass_set_property`] takes.
pub struct MassSetArgs {
    /// The id or label of the session; may be left out where one session is live.
    pub session: Option<String>,
    /// The property.
    pub property: String,
    /// Its new value.
    pub value: Value,
    /// The paths or handles of the instances.
    pub targets: Vec<String>,
}

/// What [`create_object`] takes.
pub struct CreateArgs {
    /// The id or label of the session; may be left out where one session is live.
    pub session: Option<String>,
    /// The class of the new instance.
    pub class_name: String,
    /// The path or handle of its parent.
    pub parent: String,
    /// Its name.
    pub name: Option<String>,
}

/// What [`clone_object`] takes.
pub struct CloneArgs {
    /// The id or label of the session; may be left out where one session is live.
    pub session: Option<String>,
    /// A dot-path, such as `game.Workspace.Part`.
    pub path: Option<String>,
    /// The handle of an instance, from an earlier result.
    pub handle: Option<String>,
    /// The path or handle of the parent of the copy.
    pub parent: Option<String>,
    /// The name of the copy.
    pub name: Option<String>,
}

/// What [`rename_object`] takes.
pub struct RenameArgs {
    /// The id or label of the session; may be left out where one session is live.
    pub session: Option<String>,
    /// A dot-path, such as `game.Workspace.Part`.
    pub path: Option<String>,
    /// The handle of an instance, from an earlier result.
    pub handle: Option<String>,
    /// The new name.
    pub name: String,
}

/// What [`move_object`] takes.
pub struct MoveArgs {
    /// The id or label of the session; may be left out where one session is live.
    pub session: Option<String>,
    /// A dot-path, such as `game.Workspace.Part`.
    pub path: Option<String>,
    /// The handle of an instance, from an earlier result.
    pub handle: Option<String>,
    /// The path or handle of the new parent.
    pub parent: String,
}

/// What [`mass_duplicate`] takes.
pub struct MassDupArgs {
    /// The id or label of the session; may be left out where one session is live.
    pub session: Option<String>,
    /// A dot-path, such as `game.Workspace.Part`.
    pub path: Option<String>,
    /// The handle of an instance, from an earlier result.
    pub handle: Option<String>,
    /// How many copies to make.
    pub count: u32,
    /// The path or handle of the parent of the copies.
    pub parent: Option<String>,
}

/// What [`smart_duplicate`] takes.
pub struct SmartDupArgs {
    /// The id or label of the session; may be left out where one session is live.
    pub session: Option<String>,
    /// A dot-path, such as `game.Workspace.Part`.
    pub path: Option<String>,
    /// The handle of an instance, from an earlier result.
    pub handle: Option<String>,
    /// How many copies to make.
    pub count: u32,
    /// The path or handle of the parent of the copies.
    pub parent: Option<String>,
    /// What the names of the copies begin with.
    pub name_prefix: Option<String>,
    /// How far each copy lies from the one before.
    pub offset: Option<Value>,
}

/// What [`create_ui_tree`] takes.
pub struct UiTreeArgs {
    /// The id or label of the session; may be left out where one session is live.
    pub session: Option<String>,
    /// The tree: a class, and a name, properties and children where it has them.
    pub tree: Value,
    /// The path or handle of the parent of the root.
    pub parent: Option<String>,
}

/// Adds a tag to an instance.
pub fn add_tag(a: TagArgs) -> (r: ToolCall)
    ensures
        r.calls(
            "add_tag"@,
            Role::Plugin,
            a.session,
            target_entries(a.path, a.handle).insert("tag"@, Json::Text(a.tag@)),
        ),
{
    let args = target(&a.path, &a.handle).with_text("tag", a.tag.as_str());
    call("add_tag", Role::Plugin, args, a.session)
}

/// Removes a tag from an instance.
pub fn remove_tag(a: TagArgs) -> (r: ToolCall)
    ensures
        r.calls(
            "remove_tag"@,
            Role::Plugin,
            a.session,
            target_entries(a.path, a.handle).insert("tag"@, Json::Text(a.tag@)),
        ),
{
    let args = target(&a.path, &a.handle).with_text("tag", a.tag.as_str());
    call("remove_tag", Role::Plugin, args, a.session)
}

/// Sets an attribute of an instance.
pub fn set_attribute(a: SetAttrArgs) -> (r: ToolCall)
    ensures
        r.calls(
            "set_attribute"@,
            Role::Plugin,
            a.session,
            target_entries(a.path, a.handle)
                .insert("name"@, Json::Text(a.name@))
                .insert("value"@, json_of(a.value)),
        ),
{
    let args = target(&a.path, &a.handle).with_text("name", a.name.as_str()).with("value", a.value);
    call("set_attribute", Role::Plugin, args, a.session)
}

/// Deletes an attribute of an instance.
pub fn delete_attribute(a: AttrNameArgs) -> (r: ToolCall)
    ensures
        r.calls(
            "delete_attribute"@,
            Role::Plugin,
            a.session,
            target_entries(a.path, a.handle).insert("name"@, Json::Text(a.name@)),
        ),
{
    let args = target(&a.path, &a.handle).with_text("name", a.name.as_str());
    call("delete_attribute", Role::Plugin, args, a.session)
}

/// Sets several attributes of an instance.
pub fn bulk_set_attributes(a: BulkAttrArgs) -> (r: ToolCall)
    ensures
        r.calls(
            "bulk_set_attributes"@,
            Role::Plugin,
            a.session,
            target_entries(a.path, a.handle)
                .insert("attributes"@, json_of(a.attributes)),
        ),
{
    let args = target(&a.path, &a.handle).with("attributes", a.attributes);
    call("bulk_set_attributes", Role::Plugin, args, a.session)
}

/// Sets a property of an instance.
pub fn set_property(a: SetPropArgs) -> (r: ToolCall)
    ensures
        r.calls(
            "set_property"@,
            Role::Plugin,
            a.session,
            target_entries(a.path, a.handle)
                .insert("property"@, Json::Text(a.property@))
                .insert("value"@, json_of(a.value)),
        ),
{
    let args = target(&a.path, &a.handle)
        .with_text("property", a.property.as_str())
        .with("value", a.value);
    call("set_property", Role::Plugin, args, a.session)
}

/// Sets several properties of an instance.
pub fn set_properties(a: SetPropsArgs) -> (r: ToolCall)
    ensures
        r.calls(
            "set_properties"@,
            Role::Plugin,
            a.session,
            target_entries(a.path, a.handle)
                .insert("properties"@, json_of(a.properties)),
        ),
{
    let args = target(&a.path, &a.handle).with("properties", a.properties);
    call("set_properties", Role::Plugin, args, a.session)
}

/// Sets a property of many instances.
pub fn mass_set_property(a: MassSetArgs) -> (r: ToolCall)
    ensures
        r.calls(
            "mass_set_property"@,
            Role::Plugin,
            a.session,
            no_entries()
                .insert("property"@, Json::Text(a.property@))
                .insert("value"@, json_of(a.value))
                .insert("targets"@, texts(a.targets@)),
        ),
{
    let args = JsonObject::new()
        .with_text("property", a.property.as_str())
        .with("value", a.value)
        .with("targets", texts_value(&a.targets));
    call("mass_set_property", Role::Plugin, args, a.session)
}

/// Creates an instance.
pub fn create_object(a: CreateArgs) -> (r: ToolCall)
    ensures
        r.calls(
            "create_object"@,
            Role::Plugin,
            a.session,
            no_entries()
                .insert("className"@, Json::Text(a.class_name@))
                .insert("parent"@, Json::Text(a.parent@))
                .maybe("name"@, text(a.name)),
        ),
{
    let args = JsonObject::new()
        .with_text("className", a.class_name.as_str())
        .with_text("parent", a.parent.as_str())
        .maybe_text("name", &a.name);
    call("create_object", Role::Plugin, args, a.session)
}

/// Deletes an instance.
pub fn delete_object(a: PathArgs) -> (r: ToolCall)
    ensures
        r.calls(
            "delete_object"@,
            Role::Plugin,
            a.session,
            target_entries(a.path, a.handle),
        ),
{
    call("delete_object", Role::Plugin, target(&a.path, &a.handle), a.session)
}

/// Copies an instance.
pub fn clone_object(a: CloneArgs) -> (r: ToolCall)
    ensures
        r.calls(
            "clone_object"@,
            Role::Plugin,
            a.session,
            target_entries(a.path, a.handle)
                .maybe("parent"@, text(a.parent))
                .maybe("name"@, text(a.name)),
        ),
{
    let args = target(&a.path, &a.handle)
        .maybe_text("parent", &a.parent)
        .maybe_text("name", &a.name);
    call("clone_object", Role::Plugin, args, a.session)
}

/// Renames an instance.
pub fn rename_object(a: RenameArgs) -> (r: ToolCall)
    ensures
        r.calls(
            "rename_object"@,
            Role::Plugin,
            a.session,
            target_entries(a.path, a.handle).insert("name"@, Json::Text(a.name@)),
        ),
{
    let args = target(&a.path, &a.handle).with_text("name", a.name.as_str());
    call("rename_object", Role::Plugin, args, a.session)
}

/// Gives an instance another parent.
pub fn move_object(a: MoveArgs) -> (r: ToolCall)
    ensures
        r.calls(
            "move_object"@,
            Role::Plugin,
            a.session,
            target_entries(a.path, a.handle).insert("parent"@, Json::Text(a.parent@)),
        ),
{
    let args = target(&a.path, &a.handle).with_text("parent", a.parent.as_str());
    call("move_object", Role::Plugin, args, a.session)
}

/// Copies an instance many times.
pub fn mass_duplicate(a: MassDupArgs) -> (r: ToolCall)
    ensures
        r.calls(
            "mass_duplicate"@,
            Role::Plugin,
            a.session,
            target_entries(a.path, a.handle)
                .insert("count"@, Json::Int(a.count as int))
                .maybe("parent"@, text(a.parent)),
        ),
{
    let args = target(&a.path, &a.handle)
        .with_number("count", a.count as u64)
        .maybe_text("parent", &a.parent);
    call("mass_duplicate", Role::Plugin, args, a.session)
}

/// Copies an instance many times, under new names and side by side.
pub fn smart_duplicate(a: SmartDupArgs) -> (r: ToolCall)
    ensures
        r.calls(
            "smart_duplicate"@,
            Role::Plugin,
            a.session,
            target_entries(a.path, a.handle)
                .insert("count"@, Json::Int(a.count as int))
                .maybe("parent"@, text(a.parent))
                .maybe("namePrefix"@, text(a.name_prefix))
                .maybe("offset"@, given(a.offset)),
        ),
{
    let args = target(&a.path, &a.handle)
        .with_number("count", a.count as u64)
        .maybe_text("parent", &a.parent)
        .maybe_text("namePrefix", &a.name_prefix)
        .maybe("offset", a.offset);
    call("smart_duplicate", Role::Plugin, args, a.session)
}

/// Creates a tree of instances.
pub fn create_ui_tree(a: UiTreeArgs) -> (r: ToolCall)
    ensures
        r.calls(
            "create_ui_tree"@,
            Role::Plugin,
            a.session,
            no_entries()
                .insert("tree"@, json_of(a.tree))
                .maybe("parent"@, text(a.parent)),
        ),
{
    let args = JsonObject::new().with("tree", a.tree).maybe_text("parent", &a.parent);
    call("create_ui_tree", Role::Plugin, args, a.session)
}

/// Undoes the last change.
pub fn undo(a: SessionSelector) -> (r: ToolCall)
    ensures
        r.calls("undo"@, Role::Plugin, a.session, no_entries()),
{
    call("undo", Role::Plugin, JsonObject::new(), a.session)
}

/// Redoes the change that was undone last.
pub fn redo(a: SessionSelector) -> (r: ToolCall)
    ensures
        r.calls("redo"@, Role::Plugin, a.session, no_entries()),
{
    call("redo", Role::Plugin, JsonObject::new(), a.session)
}

} // verus!
