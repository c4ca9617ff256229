//! Paths, setup guidance and strings.
use dust::discovery::{
    broker_json_in, broker_json_path, broker_json_path_in, broker_log_in, next_stage, rbxmcp_dir,
    rbxmcp_dir_in, remove_broker_info_if_owned, write_broker_info, WriteStage,
};
use dust::protocol::BrokerInfo;
use dust::setup::{setup_text, Client};
use dust::text::{decimal_text, same_text, strip_prefix};
use std::path::PathBuf;

#[test]
fn paths_lie_below_the_home_directory() {
    let home = PathBuf::from("home").join("someone");
    let dir = rbxmcp_dir_in(Some(home.clone())).unwrap();
    assert_eq!(dir, home.join(".rbxmcp"));
    assert_eq!(broker_json_in(&dir), dir.join("broker.json"));
    assert_eq!(broker_log_in(&dir), dir.join("broker.log"));
    assert_eq!(
        broker_json_path_in(Some(home.clone())).unwrap(),
        home.join(".rbxmcp").join("broker.json")
    );
    assert_eq!(rbxmcp_dir_in(None).unwrap_err(), "could not determine home directory");
    assert_eq!(broker_json_path_in(None).unwrap_err(), "could not determine home directory");
}

#[test]
fn shared_directory_ends_as_it_should() {
    match rbxmcp_dir() {
        Ok(dir) => {
            assert!(dir.ends_with(".rbxmcp"));
            assert_eq!(broker_json_path().unwrap(), dir.join("broker.json"));
        }
        Err(m) => assert_eq!(m, "could not determine home directory"),
    }
}

#[test]
fn rendezvous_file_is_written_aside() {
    let dir = PathBuf::from("state");
    let plan = write_broker_info(dir.clone());
    assert_eq!(plan.dir, dir);
    assert_eq!(plan.path, dir.join("broker.json"));
    assert_eq!(plan.tmp, plan.path.with_extension("json.tmp"));
}

#[test]
fn writing_goes_stage_by_stage() {
    let mut stage = WriteStage::CreateDir;
    for expected in [WriteStage::WriteAside, WriteStage::Rename, WriteStage::Written] {
        assert_eq!(next_stage(stage, false), WriteStage::Failed);
        stage = next_stage(stage, true);
        assert_eq!(stage, expected);
    }
    assert_eq!(next_stage(WriteStage::Written, false), WriteStage::Written);
    assert_eq!(next_stage(WriteStage::Failed, true), WriteStage::Failed);
}

#[test]
fn only_the_owner_removes_the_rendezvous_file() {
    let info = BrokerInfo {
        port: 1801,
        pid: 1,
        token: "t".to_string(),
        protocol: 1,
        broker_uuid: "u".to_string(),
    };
    assert!(remove_broker_info_if_owned(&Some(info.clone()), "u"));
    assert!(!remove_broker_info_if_owned(&Some(info), "v"));
    assert!(!remove_broker_info_if_owned(&None, "u"));
}

#[test]
fn setup_guide_is_exact() {
    let client = Client { name: "Acme".to_string(), command: "acme".to_string() };
    assert_eq!(
        setup_text("/opt/dust", &client),
        "Dust setup
==========

1. Register the MCP server with your client.

   Acme Code (per-user):
     acme mcp add dust -- \"/opt/dust\" adapter

   Acme Desktop — add to acme_desktop_config.json under \"mcpServers\":
     \"dust\": {
       \"command\": \"/opt/dust\",
       \"args\": [\"adapter\"]
     }

   The adapter forks the broker on first use; you do not start it yourself.

2. Install the Studio plugin.

   Copy plugin/Dust.rbxm into your Roblox Studio plugins folder
   (Studio: right-click in Explorer's plugin area, or save it as a Local Plugin),
   then enable \"Allow HTTP Requests\" in Game Settings -> Security.

3. Open a place in Studio, then ask Acme to run list_sessions to confirm the
   connection."
    );
}

#[test]
fn numbers_are_written_in_base_ten() {
    assert_eq!(decimal_text(0), "0");
    assert_eq!(decimal_text(9), "9");
    assert_eq!(decimal_text(10), "10");
    assert_eq!(decimal_text(1801), "1801");
    assert_eq!(decimal_text(u64::MAX), "18446744073709551615");
}

#[test]
fn prefixes_are_stripped_whole() {
    assert_eq!(strip_prefix("Bearer abc", "Bearer "), Some("abc"));
    assert_eq!(strip_prefix("Bearer ", "Bearer "), Some(""));
    assert_eq!(strip_prefix("Bearer", "Bearer "), None);
    assert_eq!(strip_prefix("größer", "grö"), Some("ßer"));
    assert_eq!(strip_prefix("", ""), Some(""));
    assert!(same_text("a", "a"));
    assert!(!same_text("a", "A"));
}
