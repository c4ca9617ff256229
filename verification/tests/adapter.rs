//! The adapter: session choice, requests to the broker and replies to tools.
use dust::adapter::broker_client::{command_answer, HttpRequest, Method};
use dust::adapter::resolve::{describe, is_live, is_role_live};
use dust::adapter::server::{list_failure, stop_report, tool_reply, DustServer};
use dust::adapter::spawn::{
    ensure_broker, health_ok, spawn_deadline, wait_for_broker, EnsureStep, SpawnStep,
    POLL_INTERVAL, SPAWN_TIMEOUT,
};
use dust::adapter::tools::session::ping_session;
use dust::adapter::tools::{SessionSelector, COMMAND_TIMEOUT_MS};
use dust::adapter::{resolve_session, BrokerClient};
use dust::broker::build_app;
use dust::broker::routes::{
    command_begin, health as broker_health, sessions, CommandRequest, Credentials,
};
use dust::protocol::{
    BrokerInfo, CommandResult, Health, LiveState, Role, RoleInfo, SessionInfo, PROTOCOL_VERSION,
};
use serde_json::Value;
use std::sync::Arc;

fn session(id: &str, label: Option<&str>, state: LiveState) -> SessionInfo {
    SessionInfo {
        session_id: id.to_string(),
        place_id: 0,
        game_id: 0,
        place_name: "Place".to_string(),
        creator_id: 1,
        label: label.map(str::to_string),
        roles: vec![RoleInfo { role: Role::Plugin, state, last_seen_ms: 0 }],
    }
}

fn json(text: &str) -> Value {
    serde_json::from_str(text).unwrap()
}

fn info(port: u16) -> BrokerInfo {
    BrokerInfo {
        port,
        pid: 0,
        token: "tok".to_string(),
        protocol: PROTOCOL_VERSION,
        broker_uuid: "ignored".to_string(),
    }
}

fn credentials(request: &HttpRequest) -> Credentials {
    Credentials {
        authorization: request.bearer.as_ref().map(|t| format!("Bearer {t}")),
        broker_token: None,
    }
}

fn result(ok: bool, value: Option<Value>, error: Option<&str>) -> CommandResult {
    CommandResult { id: 7, ok, result: value, error: error.map(str::to_string) }
}

#[test]
fn single_live_session_is_the_default() {
    let sessions = vec![session("only", None, LiveState::Live)];
    assert_eq!(resolve_session(&sessions, None).unwrap(), "only");
}

#[test]
fn no_live_sessions_errors() {
    let sessions = vec![session("dead", None, LiveState::Dead)];
    let err = resolve_session(&sessions, None).unwrap_err();
    assert!(err.contains("no live"), "got: {err}");
    assert!(err.contains("list_sessions"), "got: {err}");
}

#[test]
fn multiple_live_sessions_force_disambiguation() {
    let sessions = vec![
        session("a", None, LiveState::Live),
        session("b", Some("staging"), LiveState::Live),
    ];
    let err = resolve_session(&sessions, None).unwrap_err();
    assert!(err.contains("list_sessions"), "got: {err}");
    assert!(err.contains("staging"), "got: {err}");
}

#[test]
fn selector_matches_by_id_or_label() {
    let sessions = vec![
        session("a", None, LiveState::Live),
        session("b", Some("staging"), LiveState::Stale),
    ];
    assert_eq!(resolve_session(&sessions, Some("a")).unwrap(), "a");
    assert_eq!(resolve_session(&sessions, Some("staging")).unwrap(), "b");
}

#[test]
fn unknown_selector_errors() {
    let sessions = vec![session("a", None, LiveState::Live)];
    let err = resolve_session(&sessions, Some("nope")).unwrap_err();
    assert!(err.contains("list_sessions"), "got: {err}");
}

#[test]
fn client_lists_empty_then_errors_on_unknown_session() {
    let mut broker = build_app("tok".to_string(), 1801, 0);
    let client = BrokerClient::new(&info(1801));

    let list = client.list_sessions();
    assert_eq!(list.url, "http://127.0.0.1:1801/sessions");
    assert!(sessions(&mut broker, &credentials(&list), 0).ok().unwrap().is_empty());

    let request = client.command("ghost", "ping", json("{}"), Role::Plugin, 500);
    let body = request.body.clone().unwrap();
    let refusal = command_begin(
        &mut broker,
        &credentials(&request),
        CommandRequest {
            session_id: body["sessionId"].as_str().unwrap().to_string(),
            tool: body["tool"].as_str().unwrap().to_string(),
            args: body["args"].clone(),
            target_role: Role::Plugin,
            timeout_ms: body["timeoutMs"].as_u64(),
        },
        0,
    )
    .err()
    .unwrap();
    let err = command_answer(refusal.status, refusal.message).unwrap_err();
    assert!(err.contains("404"), "got: {err}");
    assert_eq!(err, "broker /command returned 404 Not Found: no session ghost");
}

#[test]
fn resolution_messages_are_exact() {
    let none: Vec<SessionInfo> = Vec::new();
    assert_eq!(
        resolve_session(&none, None).unwrap_err(),
        "no live Studio sessions are connected. Open the place in Studio with the Dust plugin \
         enabled (and 'Allow HTTP Requests' on), call list_sessions to see that it is there, \
         then retry."
    );
    assert_eq!(
        resolve_session(&none, Some("x")).unwrap_err(),
        "no connected session matches 'x'. Call list_sessions to see the open places and their \
         ids/labels."
    );
    let mut unnamed = session("c", None, LiveState::Live);
    unnamed.place_name = String::new();
    let several = vec![
        session("a", None, LiveState::Live),
        session("z", None, LiveState::Stale),
        session("b", Some("staging"), LiveState::Live),
        unnamed,
    ];
    assert_eq!(
        resolve_session(&several, None).unwrap_err(),
        "3 live Studio sessions are connected; refusing to guess which place to target. Call \
         list_sessions, then pass session=<id or label>. Candidates: Place (id a); 'staging' \
         (Place, id b); <unnamed> (id c)"
    );
}

#[test]
fn first_session_that_answers_is_chosen() {
    let sessions = vec![
        session("a", Some("b"), LiveState::Dead),
        session("b", None, LiveState::Live),
    ];
    assert_eq!(resolve_session(&sessions, Some("b")).unwrap(), "a");
    assert_eq!(resolve_session(&sessions, None).unwrap(), "b");
}

#[test]
fn descriptions_name_label_place_and_id() {
    assert_eq!(describe(&session("a", None, LiveState::Live)), "Place (id a)");
    assert_eq!(describe(&session("a", Some("l"), LiveState::Live)), "'l' (Place, id a)");
    let mut unnamed = session("a", Some("l"), LiveState::Live);
    unnamed.place_name = String::new();
    assert_eq!(describe(&unnamed), "'l' (<unnamed>, id a)");
}

#[test]
fn liveness_is_that_of_any_role() {
    let mut s = session("a", None, LiveState::Stale);
    assert!(!is_live(&s));
    s.roles.push(RoleInfo { role: Role::Server, state: LiveState::Live, last_seen_ms: 3 });
    assert!(is_live(&s));
    assert!(is_role_live(&s, Role::Server));
    assert!(!is_role_live(&s, Role::Plugin));
    assert!(!is_role_live(&s, Role::Client));
    s.roles.clear();
    assert!(!is_live(&s));
}

#[test]
fn requests_are_exact() {
    let client = BrokerClient::new(&info(1802));

    let health = client.health();
    assert_eq!(health.method, Method::Get);
    assert_eq!(health.url, "http://127.0.0.1:1802/health");
    assert_eq!(health.bearer, None);
    assert_eq!(health.timeout, 2_000_000_000);
    assert_eq!(health.body, None);

    let list = client.list_sessions();
    assert_eq!(list.method, Method::Get);
    assert_eq!(list.bearer, Some("tok".to_string()));
    assert_eq!(list.timeout, 5_000_000_000);

    let command = client.command("s", "grep", json("{\"pattern\":\"x\"}"), Role::Server, 10_000);
    assert_eq!(command.method, Method::Post);
    assert_eq!(command.url, "http://127.0.0.1:1802/command");
    assert_eq!(command.bearer, Some("tok".to_string()));
    assert_eq!(command.timeout, 15_000_000_000);
    assert_eq!(
        command.body.unwrap(),
        json(
            "{\"sessionId\":\"s\",\"tool\":\"grep\",\"args\":{\"pattern\":\"x\"},\
             \"targetRole\":\"server\",\"timeoutMs\":10000}"
        )
    );

    let longest = client.command("s", "t", json("null"), Role::Client, u64::MAX);
    assert_eq!(longest.timeout, u64::MAX as u128 * 1_000_000 + 5_000_000_000);

    let shutdown = client.shutdown();
    assert_eq!(shutdown.method, Method::Post);
    assert_eq!(shutdown.url, "http://127.0.0.1:1802/shutdown");
    assert_eq!(shutdown.bearer, Some("tok".to_string()));
    assert_eq!(shutdown.timeout, 2_000_000_000);
    assert_eq!(shutdown.body, None);
}

#[test]
fn only_success_statuses_pass_the_body_on() {
    assert_eq!(command_answer(200, "b".to_string()), Ok("b".to_string()));
    assert_eq!(command_answer(299, "b".to_string()), Ok("b".to_string()));
    assert_eq!(
        command_answer(300, "b".to_string()).unwrap_err(),
        "broker /command returned 300 Multiple Choices: b"
    );
    assert_eq!(
        command_answer(199, String::new()).unwrap_err(),
        "broker /command returned 199 <unknown status code>: "
    );
    assert_eq!(
        command_answer(504, "late".to_string()).unwrap_err(),
        "broker /command returned 504 Gateway Timeout: late"
    );
}

#[test]
fn tool_call_goes_to_the_resolved_session() {
    let server = DustServer::new(Arc::new(BrokerClient::new(&info(1801))));
    assert_eq!(server.list_sessions().url, "http://127.0.0.1:1801/sessions");

    let call = ping_session(SessionSelector { session: Some("staging".to_string()) });
    let listed = vec![
        session("a", None, LiveState::Live),
        session("b", Some("staging"), LiveState::Live),
    ];
    let sent = server.run_tool(call, Ok(listed)).ok().unwrap();
    assert_eq!(sent.session_id, "b");
    assert_eq!(sent.role, Role::Plugin);
    assert_eq!(
        sent.request.body.unwrap(),
        json(
            "{\"sessionId\":\"b\",\"tool\":\"ping\",\"args\":{\"hello\":\"dust\"},\
             \"targetRole\":\"plugin\",\"timeoutMs\":30000}"
        )
    );
    assert_eq!(COMMAND_TIMEOUT_MS, 30_000);
}

#[test]
fn tool_call_fails_without_broker_or_session() {
    let server = DustServer::new(Arc::new(BrokerClient::new(&info(1801))));
    let call = ping_session(SessionSelector { session: None });
    let err = server.run_tool(call, Err("refused".to_string())).err().unwrap();
    assert_eq!(err, "failed to reach broker: refused");

    let call = ping_session(SessionSelector { session: None });
    let err = server.run_tool(call, Ok(Vec::new())).err().unwrap();
    assert!(err.contains("no live"), "got: {err}");

    assert_eq!(list_failure("refused"), "failed to list sessions: refused");
}

#[test]
fn replies_are_exact() {
    let ok = tool_reply("s", Role::Plugin, Ok(result(true, Some(json("[1]")), None))).unwrap();
    assert_eq!(ok, json("{\"sessionId\":\"s\",\"result\":[1]}"));
    let empty = tool_reply("s", Role::Plugin, Ok(result(true, None, Some("x")))).unwrap();
    assert_eq!(empty, json("{\"sessionId\":\"s\",\"result\":null}"));
    assert_eq!(
        tool_reply("s", Role::Server, Ok(result(false, None, Some("boom")))).unwrap_err(),
        "Server helper returned an error: boom"
    );
    assert_eq!(
        tool_reply("s", Role::Client, Ok(result(false, None, None))).unwrap_err(),
        "Client helper returned an error: unknown"
    );
    assert_eq!(
        tool_reply("s", Role::Plugin, Ok(result(false, None, Some("")))).unwrap_err(),
        "Plugin helper returned an error: "
    );
    assert_eq!(
        tool_reply("s", Role::Plugin, Err("gone".to_string())).unwrap_err(),
        "command failed: gone"
    );
}

#[test]
fn playtest_is_ended_only_by_a_live_server() {
    let server = DustServer::new(Arc::new(BrokerClient::new(&info(1801))));

    let listed = vec![session("a", None, LiveState::Live)];
    let stop = server.stop_playtest(None, Ok(listed)).ok().unwrap();
    assert_eq!(stop.session_id, "a");
    assert!(stop.end.is_none());
    assert_eq!(
        stop.cleanup.body.unwrap(),
        json(
            "{\"sessionId\":\"a\",\"tool\":\"cleanup_helpers\",\"args\":{},\
             \"targetRole\":\"plugin\",\"timeoutMs\":15000}"
        )
    );

    let mut playing = session("a", None, LiveState::Live);
    playing.roles.push(RoleInfo { role: Role::Server, state: LiveState::Live, last_seen_ms: 0 });
    let stop = server.stop_playtest(Some("a"), Ok(vec![playing])).ok().unwrap();
    let end = stop.end.unwrap();
    assert_eq!(end.timeout, 15_000_000_000);
    assert_eq!(
        end.body.unwrap(),
        json(
            "{\"sessionId\":\"a\",\"tool\":\"end_playtest\",\"args\":{},\
             \"targetRole\":\"server\",\"timeoutMs\":10000}"
        )
    );

    let err = server.stop_playtest(None, Err("refused".to_string())).err().unwrap();
    assert_eq!(err, "failed to reach broker: refused");
    let err = server.stop_playtest(Some("x"), Ok(Vec::new())).err().unwrap();
    assert!(err.contains("'x'"), "got: {err}");
}

#[test]
fn playtest_reports_are_exact() {
    assert_eq!(
        stop_report("s", None, Err("gone".to_string())),
        json(
            "{\"sessionId\":\"s\",\"endPlaytest\":{\"skipped\":\"no live server helper — playtest \
             not running, or injection/HTTP not ready\"},\"cleanup\":{\"ok\":false,\
             \"error\":\"gone\"}}"
        )
    );
    assert_eq!(
        stop_report(
            "s",
            Some(Ok(result(true, Some(json("{\"ending\":true}")), None))),
            Ok(result(false, None, Some("no plugin"))),
        ),
        json(
            "{\"sessionId\":\"s\",\"endPlaytest\":{\"ok\":true,\"result\":{\"ending\":true},\
             \"error\":null},\"cleanup\":{\"ok\":false,\"result\":null,\"error\":\"no plugin\"}}"
        )
    );
}

fn health(uuid: &str, protocol: u32) -> Option<Health> {
    Some(Health { protocol, broker_uuid: uuid.to_string(), port: 1801 })
}

#[test]
fn only_the_named_broker_is_recognized() {
    assert!(health_ok(&info(1801), &health("ignored", PROTOCOL_VERSION)));
    assert!(!health_ok(&info(1801), &health("other", PROTOCOL_VERSION)));
    assert!(!health_ok(&info(1801), &health("ignored", PROTOCOL_VERSION + 1)));
    assert!(!health_ok(&info(1801), &None));
}

#[test]
fn broker_is_recognized_by_what_it_left() {
    let one = build_app("tok".to_string(), 1801, 0);
    let other = build_app("tok".to_string(), 1801, 0);
    assert!(health_ok(&one.broker_info(1), &Some(broker_health(&one))));
    assert!(!health_ok(&one.broker_info(1), &Some(broker_health(&other))));
}

#[test]
fn adapter_attaches_or_forks() {
    let step = ensure_broker(Some(info(1803)), &health("ignored", PROTOCOL_VERSION));
    assert!(matches!(step, EnsureStep::Attach(i) if i.port == 1803));
    assert!(matches!(ensure_broker(Some(info(1803)), &None), EnsureStep::Fork));
    assert!(matches!(ensure_broker(None, &None), EnsureStep::Fork));
}

#[test]
fn wait_for_a_new_broker_ends() {
    let deadline = spawn_deadline(5);
    assert_eq!(deadline, 5 + SPAWN_TIMEOUT);
    assert_eq!(SPAWN_TIMEOUT, 10_000_000_000);

    let step = wait_for_broker(None, &None, deadline, deadline - 1);
    assert!(matches!(step, SpawnStep::Sleep(t) if t == POLL_INTERVAL && t == 200_000_000));
    let step = wait_for_broker(Some(info(1801)), &health("other", 1), deadline, deadline);
    match step {
        SpawnStep::TimedOut(m) => {
            assert_eq!(m, "forked broker did not become healthy within 10s");
        }
        _ => panic!("the time is up"),
    }
    let step = wait_for_broker(Some(info(1801)), &health("ignored", 1), deadline, deadline + 1);
    assert!(matches!(step, SpawnStep::Up(i) if i.token == "tok"));
}
