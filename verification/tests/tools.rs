//! The commands that the tools come to.
use dust::adapter::tools::edit::{
    add_tag, bulk_set_attributes, clone_object, create_object, create_ui_tree, delete_attribute,
    delete_object, mass_duplicate, mass_set_property, move_object, redo, remove_tag,
    rename_object, set_attribute, set_properties, set_property, smart_duplicate, undo,
    BulkAttrArgs, CloneArgs, CreateArgs, MassDupArgs, MassSetArgs, MoveArgs, RenameArgs,
    SetAttrArgs, SetPropArgs, SetPropsArgs, SmartDupArgs, TagArgs, UiTreeArgs,
};
use dust::adapter::tools::inspect::{
    compare_instances, get_attribute, get_attributes, get_class_info, get_connected_instances,
    get_descendants, get_file_tree, get_instance_children, get_instance_properties,
    get_project_structure, get_selection, get_services, get_tagged, get_tags, mass_get_property,
    ClassInfoArgs, CompareArgs, GetPropsArgs, GetTaggedArgs, MassGetArgs, PathLimitArgs,
    ProjectArgs,
};
use dust::adapter::tools::play::{
    character_navigation, get_client_state, get_server_state, keyboard_input, mouse_input,
    read_client_output, read_output, read_server_output, run_luau, run_server_code,
    start_playtest, start_simulation, stop_simulation, CharacterNavigationArgs, KeyEvent,
    KeyboardInputArgs, MouseInputArgs, ReadClientOutputArgs, ReadOutputArgs,
    ReadServerOutputArgs, RunLuauArgs, RunServerCodeArgs,
};
use dust::adapter::tools::script::{
    delete_script_lines, edit_script_lines, find_and_replace_in_scripts, get_script_analysis,
    insert_script_lines, set_script_source, DeleteLinesArgs, EditLinesArgs, FindReplaceArgs,
    InsertLinesArgs, SetSourceArgs,
};
use dust::adapter::tools::search::{
    get_script_source, grep_scripts, search_by_property, search_files, search_instances,
    search_objects, GetScriptSourceArgs, GrepArgs, SearchByPropertyArgs, SearchFilesArgs,
    SearchInstancesArgs, SearchObjArgs,
};
use dust::adapter::tools::session::{get_place_info, ping_session};
use dust::adapter::tools::{target, AttrNameArgs, PathArgs, SessionSelector, ToolCall};
use dust::protocol::Role;
use serde_json::Value;

fn json(text: &str) -> Value {
    serde_json::from_str(text).unwrap()
}

fn s(text: &str) -> Option<String> {
    Some(text.to_string())
}

fn selector() -> SessionSelector {
    SessionSelector { session: s("me") }
}

fn path() -> PathArgs {
    PathArgs { session: s("me"), path: s("game.A"), handle: None }
}

fn attribute() -> AttrNameArgs {
    AttrNameArgs { session: s("me"), path: None, handle: s("h1"), name: "n".to_string() }
}

fn tag() -> TagArgs {
    TagArgs { session: s("me"), path: s("game.A"), handle: s("h1"), tag: "t".to_string() }
}

fn check(call: ToolCall, tool: &str, role: Role, args: &str) {
    assert_eq!(call.tool, tool);
    assert_eq!(call.role, role, "{tool}");
    assert_eq!(call.args, json(args), "{tool}");
    assert_eq!(call.timeout_ms, 30_000, "{tool}");
    assert_eq!(call.session, s("me"), "{tool}");
}

#[test]
fn target_leaves_out_what_is_missing() {
    assert_eq!(target(&None, &None).build(), json("{}"));
    assert_eq!(target(&s("p"), &None).build(), json("{\"path\":\"p\"}"));
    assert_eq!(target(&None, &s("h")).build(), json("{\"handle\":\"h\"}"));
    assert_eq!(
        target(&s("p"), &s("h")).build(),
        json("{\"path\":\"p\",\"handle\":\"h\"}")
    );
}

#[test]
fn session_is_passed_on() {
    assert_eq!(get_place_info(SessionSelector { session: None }).session, None);
    assert_eq!(get_place_info(SessionSelector { session: s("x") }).session, s("x"));
}

#[test]
fn tools_without_arguments() {
    check(get_place_info(selector()), "get_place_info", Role::Plugin, "{}");
    check(ping_session(selector()), "ping", Role::Plugin, "{\"hello\":\"dust\"}");
    check(start_simulation(selector()), "start_simulation", Role::Plugin, "{}");
    check(stop_simulation(selector()), "stop_simulation", Role::Plugin, "{}");
    check(start_playtest(selector()), "start_playtest", Role::Plugin, "{}");
    check(get_server_state(selector()), "get_server_state", Role::Server, "{}");
    check(get_client_state(selector()), "get_client_state", Role::Client, "{}");
    check(get_services(selector()), "get_services", Role::Plugin, "{}");
    check(get_selection(selector()), "get_selection", Role::Plugin, "{}");
    check(undo(selector()), "undo", Role::Plugin, "{}");
    check(redo(selector()), "redo", Role::Plugin, "{}");
}

#[test]
fn tools_on_an_instance() {
    let args = "{\"path\":\"game.A\"}";
    check(get_instance_children(path()), "get_instance_children", Role::Plugin, args);
    check(get_file_tree(path()), "get_file_tree", Role::Plugin, args);
    check(get_connected_instances(path()), "get_connected_instances", Role::Plugin, args);
    check(get_tags(path()), "get_tags", Role::Plugin, args);
    check(get_attributes(path()), "get_attributes", Role::Plugin, args);
    check(delete_object(path()), "delete_object", Role::Plugin, args);
    check(get_script_analysis(path()), "get_script_analysis", Role::Plugin, args);

    let args = "{\"handle\":\"h1\",\"name\":\"n\"}";
    check(get_attribute(attribute()), "get_attribute", Role::Plugin, args);
    check(delete_attribute(attribute()), "delete_attribute", Role::Plugin, args);

    let args = "{\"path\":\"game.A\",\"handle\":\"h1\",\"tag\":\"t\"}";
    check(add_tag(tag()), "add_tag", Role::Plugin, args);
    check(remove_tag(tag()), "remove_tag", Role::Plugin, args);
}

#[test]
fn searches_have_defaults() {
    check(
        grep_scripts(GrepArgs {
            session: s("me"),
            pattern: "print".to_string(),
            plain: None,
            ignore_case: None,
            class_filter: None,
            context_lines: None,
            limit: None,
            root: None,
        }),
        "grep",
        Role::Plugin,
        "{\"pattern\":\"print\",\"plain\":false,\"ignoreCase\":false,\"limit\":200,\"contextLines\":0}",
    );
    check(
        grep_scripts(GrepArgs {
            session: s("me"),
            pattern: String::new(),
            plain: Some(true),
            ignore_case: Some(true),
            class_filter: s("Script"),
            context_lines: Some(2),
            limit: Some(u32::MAX),
            root: s("h"),
        }),
        "grep",
        Role::Plugin,
        "{\"pattern\":\"\",\"plain\":true,\"ignoreCase\":true,\"limit\":4294967295,\
         \"contextLines\":2,\"classFilter\":\"Script\",\"root\":\"h\"}",
    );
    check(
        search_instances(SearchInstancesArgs {
            session: s("me"),
            class_name: None,
            name_pattern: None,
            tag: None,
            property: None,
            value: None,
            max_depth: None,
            limit: None,
            root: None,
            cursor: None,
        }),
        "search_instances",
        Role::Plugin,
        "{\"limit\":100}",
    );
    check(
        search_instances(SearchInstancesArgs {
            session: s("me"),
            class_name: s("Part"),
            name_pattern: s("^A"),
            tag: s("t"),
            property: s("Anchored"),
            value: Some(json("true")),
            max_depth: Some(3),
            limit: Some(5),
            root: s("h"),
            cursor: s("c"),
        }),
        "search_instances",
        Role::Plugin,
        "{\"limit\":5,\"className\":\"Part\",\"namePattern\":\"^A\",\"tag\":\"t\",\
         \"property\":\"Anchored\",\"value\":true,\"maxDepth\":3,\"root\":\"h\",\"cursor\":\"c\"}",
    );
    check(
        search_by_property(SearchByPropertyArgs {
            session: s("me"),
            property: "Name".to_string(),
            value: None,
            class_name: None,
            limit: None,
            root: None,
        }),
        "search_by_property",
        Role::Plugin,
        "{\"property\":\"Name\",\"limit\":200}",
    );
    check(
        search_by_property(SearchByPropertyArgs {
            session: s("me"),
            property: "Name".to_string(),
            value: Some(json("1.5")),
            class_name: s("Part"),
            limit: Some(1),
            root: s("h"),
        }),
        "search_by_property",
        Role::Plugin,
        "{\"property\":\"Name\",\"limit\":1,\"value\":1.5,\"className\":\"Part\",\"root\":\"h\"}",
    );
    check(
        get_script_source(GetScriptSourceArgs {
            session: s("me"),
            handle: "h".to_string(),
            start_line: Some(1),
            end_line: None,
        }),
        "get_script_source",
        Role::Plugin,
        "{\"handle\":\"h\",\"startLine\":1}",
    );
    check(
        search_objects(SearchObjArgs {
            session: s("me"),
            path: s("p"),
            handle: None,
            name_pattern: s("x"),
            class_name: s("Part"),
            limit: Some(9),
        }),
        "search_objects",
        Role::Plugin,
        "{\"path\":\"p\",\"namePattern\":\"x\",\"className\":\"Part\",\"limit\":9}",
    );
    check(
        search_files(SearchFilesArgs {
            session: s("me"),
            query: "main".to_string(),
            path: None,
            handle: s("h"),
            limit: None,
        }),
        "search_files",
        Role::Plugin,
        "{\"handle\":\"h\",\"query\":\"main\"}",
    );
}

#[test]
fn output_is_read_from_its_role() {
    check(
        read_output(ReadOutputArgs { session: s("me"), level: None, limit: None, clear: None }),
        "read_output",
        Role::Plugin,
        "{\"limit\":200,\"clear\":false}",
    );
    check(
        read_output(ReadOutputArgs {
            session: s("me"),
            level: s("error"),
            limit: Some(1),
            clear: Some(true),
        }),
        "read_output",
        Role::Plugin,
        "{\"limit\":1,\"clear\":true,\"level\":\"error\"}",
    );
    check(
        read_server_output(ReadServerOutputArgs { session: s("me"), limit: None }),
        "read_server_output",
        Role::Server,
        "{\"limit\":200}",
    );
    check(
        read_client_output(ReadClientOutputArgs { session: s("me"), limit: Some(3) }),
        "read_client_output",
        Role::Client,
        "{\"limit\":3}",
    );
    check(
        run_luau(RunLuauArgs { session: s("me"), code: "return 1".to_string() }),
        "run_luau",
        Role::Plugin,
        "{\"code\":\"return 1\"}",
    );
    check(
        run_server_code(RunServerCodeArgs { session: s("me"), code: "return 1".to_string() }),
        "run_server_code",
        Role::Server,
        "{\"code\":\"return 1\"}",
    );
}

#[test]
fn client_tools_send_nulls() {
    check(
        character_navigation(CharacterNavigationArgs {
            session: s("me"),
            action: "jump".to_string(),
            direction: None,
            x: None,
            y: None,
            z: None,
            duration: None,
            relative_to_camera: None,
        }),
        "character_navigation",
        Role::Client,
        "{\"action\":\"jump\",\"direction\":null,\"x\":null,\"y\":null,\"z\":null,\
         \"duration\":null,\"relativeToCamera\":null}",
    );
    check(
        character_navigation(CharacterNavigationArgs {
            session: s("me"),
            action: "move".to_string(),
            direction: s("left"),
            x: Some(Value::from(1.5)),
            y: Some(Value::from(-2.0)),
            z: Some(Value::from(3.25)),
            duration: Some(Value::from(0.5)),
            relative_to_camera: Some(true),
        }),
        "character_navigation",
        Role::Client,
        "{\"action\":\"move\",\"direction\":\"left\",\"x\":1.5,\"y\":-2.0,\"z\":3.25,\
         \"duration\":0.5,\"relativeToCamera\":true}",
    );
    check(
        keyboard_input(KeyboardInputArgs {
            session: s("me"),
            keys: vec![
                KeyEvent { key: "W".to_string(), action: None, duration: None },
                KeyEvent {
                    key: "Space".to_string(),
                    action: s("tap"),
                    duration: Some(Value::from(0.25)),
                },
            ],
            text: s("hi"),
        }),
        "keyboard_input",
        Role::Client,
        "{\"keys\":[{\"key\":\"W\",\"action\":null,\"duration\":null},\
         {\"key\":\"Space\",\"action\":\"tap\",\"duration\":0.25}],\"text\":\"hi\"}",
    );
    check(
        keyboard_input(KeyboardInputArgs { session: s("me"), keys: Vec::new(), text: None }),
        "keyboard_input",
        Role::Client,
        "{\"keys\":[],\"text\":null}",
    );
    check(
        mouse_input(MouseInputArgs {
            session: s("me"),
            action: "click".to_string(),
            x: Some(Value::from(10.0)),
            y: None,
            button: s("right"),
        }),
        "mouse_input",
        Role::Client,
        "{\"action\":\"click\",\"x\":10.0,\"y\":null,\"button\":\"right\"}",
    );
}

#[test]
fn reads_of_instances() {
    check(
        get_descendants(PathLimitArgs {
            session: s("me"),
            path: s("p"),
            handle: s("h"),
            limit: Some(4),
        }),
        "get_descendants",
        Role::Plugin,
        "{\"path\":\"p\",\"handle\":\"h\",\"limit\":4}",
    );
    check(
        get_instance_properties(GetPropsArgs {
            session: s("me"),
            path: None,
            handle: s("h"),
            properties: Some(vec!["A".to_string(), "B".to_string()]),
        }),
        "get_instance_properties",
        Role::Plugin,
        "{\"handle\":\"h\",\"properties\":[\"A\",\"B\"]}",
    );
    check(
        get_instance_properties(GetPropsArgs {
            session: s("me"),
            path: None,
            handle: None,
            properties: None,
        }),
        "get_instance_properties",
        Role::Plugin,
        "{}",
    );
    check(
        get_project_structure(ProjectArgs {
            session: s("me"),
            path: None,
            handle: None,
            max_depth: Some(0),
        }),
        "get_project_structure",
        Role::Plugin,
        "{\"maxDepth\":0}",
    );
    check(
        get_class_info(ClassInfoArgs { session: s("me"), class_name: "Part".to_string() }),
        "get_class_info",
        Role::Plugin,
        "{\"className\":\"Part\"}",
    );
    check(
        compare_instances(CompareArgs {
            session: s("me"),
            a: "x".to_string(),
            b: "y".to_string(),
        }),
        "compare_instances",
        Role::Plugin,
        "{\"a\":\"x\",\"b\":\"y\"}",
    );
    check(
        get_tagged(GetTaggedArgs { session: s("me"), tag: "t".to_string(), limit: Some(2) }),
        "get_tagged",
        Role::Plugin,
        "{\"tag\":\"t\",\"limit\":2}",
    );
    check(
        mass_get_property(MassGetArgs {
            session: s("me"),
            property: "Size".to_string(),
            targets: vec!["a".to_string()],
        }),
        "mass_get_property",
        Role::Plugin,
        "{\"property\":\"Size\",\"targets\":[\"a\"]}",
    );
}

#[test]
fn changes_of_instances() {
    check(
        set_attribute(SetAttrArgs {
            session: s("me"),
            path: s("p"),
            handle: None,
            name: "n".to_string(),
            value: json("null"),
        }),
        "set_attribute",
        Role::Plugin,
        "{\"path\":\"p\",\"name\":\"n\",\"value\":null}",
    );
    check(
        bulk_set_attributes(BulkAttrArgs {
            session: s("me"),
            path: s("p"),
            handle: None,
            attributes: json("{\"a\":1}"),
        }),
        "bulk_set_attributes",
        Role::Plugin,
        "{\"path\":\"p\",\"attributes\":{\"a\":1}}",
    );
    check(
        set_property(SetPropArgs {
            session: s("me"),
            path: s("p"),
            handle: None,
            property: "Size".to_string(),
            value: json("{\"type\":\"Vector3\",\"value\":[1,2,3]}"),
        }),
        "set_property",
        Role::Plugin,
        "{\"path\":\"p\",\"property\":\"Size\",\"value\":{\"type\":\"Vector3\",\"value\":[1,2,3]}}",
    );
    check(
        set_properties(SetPropsArgs {
            session: s("me"),
            path: s("p"),
            handle: None,
            properties: json("{\"Name\":\"x\"}"),
        }),
        "set_properties",
        Role::Plugin,
        "{\"path\":\"p\",\"properties\":{\"Name\":\"x\"}}",
    );
    check(
        mass_set_property(MassSetArgs {
            session: s("me"),
            property: "Anchored".to_string(),
            value: json("false"),
            targets: vec!["a".to_string(), "b".to_string()],
        }),
        "mass_set_property",
        Role::Plugin,
        "{\"property\":\"Anchored\",\"value\":false,\"targets\":[\"a\",\"b\"]}",
    );
    check(
        create_object(CreateArgs {
            session: s("me"),
            class_name: "Part".to_string(),
            parent: "p".to_string(),
            name: s("n"),
        }),
        "create_object",
        Role::Plugin,
        "{\"className\":\"Part\",\"parent\":\"p\",\"name\":\"n\"}",
    );
    check(
        clone_object(CloneArgs {
            session: s("me"),
            path: s("p"),
            handle: None,
            parent: s("q"),
            name: None,
        }),
        "clone_object",
        Role::Plugin,
        "{\"path\":\"p\",\"parent\":\"q\"}",
    );
    check(
        rename_object(RenameArgs {
            session: s("me"),
            path: s("p"),
            handle: None,
            name: "n".to_string(),
        }),
        "rename_object",
        Role::Plugin,
        "{\"path\":\"p\",\"name\":\"n\"}",
    );
    check(
        move_object(MoveArgs {
            session: s("me"),
            path: s("p"),
            handle: None,
            parent: "q".to_string(),
        }),
        "move_object",
        Role::Plugin,
        "{\"path\":\"p\",\"parent\":\"q\"}",
    );
    check(
        mass_duplicate(MassDupArgs {
            session: s("me"),
            path: s("p"),
            handle: None,
            count: 3,
            parent: None,
        }),
        "mass_duplicate",
        Role::Plugin,
        "{\"path\":\"p\",\"count\":3}",
    );
    check(
        smart_duplicate(SmartDupArgs {
            session: s("me"),
            path: s("p"),
            handle: None,
            count: 2,
            parent: s("q"),
            name_prefix: s("Copy"),
            offset: Some(json("{\"type\":\"Vector3\",\"value\":[5,0,0]}")),
        }),
        "smart_duplicate",
        Role::Plugin,
        "{\"path\":\"p\",\"count\":2,\"parent\":\"q\",\"namePrefix\":\"Copy\",\
         \"offset\":{\"type\":\"Vector3\",\"value\":[5,0,0]}}",
    );
    check(
        create_ui_tree(UiTreeArgs {
            session: s("me"),
            tree: json("{\"className\":\"Frame\"}"),
            parent: s("q"),
        }),
        "create_ui_tree",
        Role::Plugin,
        "{\"tree\":{\"className\":\"Frame\"},\"parent\":\"q\"}",
    );
}

#[test]
fn changes_of_scripts() {
    check(
        set_script_source(SetSourceArgs {
            session: s("me"),
            path: s("p"),
            handle: None,
            source: "x = 1\n".to_string(),
        }),
        "set_script_source",
        Role::Plugin,
        "{\"path\":\"p\",\"source\":\"x = 1\\n\"}",
    );
    check(
        edit_script_lines(EditLinesArgs {
            session: s("me"),
            path: s("p"),
            handle: None,
            start_line: 2,
            end_line: Some(4),
            new_text: "y".to_string(),
        }),
        "edit_script_lines",
        Role::Plugin,
        "{\"path\":\"p\",\"startLine\":2,\"endLine\":4,\"newText\":\"y\"}",
    );
    check(
        insert_script_lines(InsertLinesArgs {
            session: s("me"),
            path: None,
            handle: s("h"),
            after_line: 0,
            text: "z".to_string(),
        }),
        "insert_script_lines",
        Role::Plugin,
        "{\"handle\":\"h\",\"afterLine\":0,\"text\":\"z\"}",
    );
    check(
        delete_script_lines(DeleteLinesArgs {
            session: s("me"),
            path: s("p"),
            handle: None,
            start_line: 7,
            end_line: None,
        }),
        "delete_script_lines",
        Role::Plugin,
        "{\"path\":\"p\",\"startLine\":7}",
    );
    check(
        find_and_replace_in_scripts(FindReplaceArgs {
            session: s("me"),
            pattern: "a".to_string(),
            replacement: "b".to_string(),
            use_pattern: Some(false),
            class_filter: s("Script"),
            path: s("p"),
            handle: None,
        }),
        "find_and_replace_in_scripts",
        Role::Plugin,
        "{\"path\":\"p\",\"pattern\":\"a\",\"replacement\":\"b\",\"usePattern\":false,\
         \"classFilter\":\"Script\"}",
    );
}
