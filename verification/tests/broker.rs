//! The broker: discovery, the authenticated adapter surface, and the loop of a
//! command from the adapter to a participant and back.
use dust::broker::channel::reached_anyone;
use dust::broker::identity::{generate_token, token_of};
use dust::broker::routes::{
    authorize, command_begin, command_finish, health, poll_begin, poll_step, result,
    result_delivery, sessions, shutdown, CommandRequest, Credentials, PollStep, ResultRequest, WaitOutcome, WaitingCommand,
    POLL_HOLD,
};
use dust::broker::{
    bind_step, build_app, maintain, AppState, BindOutcome, BindStep, BrokerConfig,
    DEFAULT_IDLE_TIMEOUT, PORT_FIRST, PORT_LAST,
};
use dust::protocol::{
    Command, CommandResult, Handshake, LiveState, Role, SessionInfo, PROTOCOL_VERSION,
};
use serde_json::Value;

const TOKEN: &str = "test-token-abc123";
const SEC: u128 = 1_000_000_000;

fn spawn_broker() -> AppState {
    build_app(TOKEN.to_string(), 1801, 0)
}

fn json(text: &str) -> Value {
    serde_json::from_str(text).unwrap()
}

fn nobody() -> Credentials {
    Credentials { authorization: None, broker_token: None }
}

fn adapter() -> Credentials {
    Credentials { authorization: Some(format!("Bearer {TOKEN}")), broker_token: None }
}

fn handshake(session_id: &str, role: Role) -> Handshake {
    Handshake {
        session_id: session_id.to_string(),
        role,
        place_id: 0,
        game_id: 0,
        place_name: String::new(),
        creator_id: 0,
        label: None,
        protocol: PROTOCOL_VERSION,
        ts: 0,
    }
}

fn plugin_handshake(session_id: &str) -> Handshake {
    Handshake {
        place_name: "Unpublished Place".to_string(),
        creator_id: 42,
        ..handshake(session_id, Role::Plugin)
    }
}

fn request(session_id: &str, tool: &str, args: &str, role: Role, timeout_ms: u64) -> CommandRequest {
    CommandRequest {
        session_id: session_id.to_string(),
        tool: tool.to_string(),
        args: json(args),
        target_role: role,
        timeout_ms: Some(timeout_ms),
    }
}

fn submit(st: &mut AppState, req: CommandRequest, now: u128) -> WaitingCommand {
    command_begin(st, &adapter(), req, now).ok().unwrap()
}

fn listing(st: &mut AppState, now: u128) -> Vec<SessionInfo> {
    sessions(st, &adapter(), now).ok().unwrap()
}

/// What a poll of the role that is held until `deadline` comes to at `now`.
fn look(st: &mut AppState, id: &str, role: Role, deadline: u128, now: u128) -> Option<Vec<Command>> {
    match poll_step(st, id, role, deadline, now) {
        PollStep::Answer(p) => Some(p.commands),
        PollStep::NoContent => None,
        PollStep::Wait(t) => {
            assert_eq!(t, deadline - now);
            Some(Vec::new())
        }
    }
}

fn answer(st: &mut AppState, id: &str, role: Role, cmd: u64, value: &str, now: u128) {
    let req = ResultRequest {
        session_id: id.to_string(),
        role,
        result: CommandResult::ok(cmd, json(value)),
    };
    assert_eq!(result(st, req, now).status, 200);
}

#[test]
fn health_is_public_and_reports_protocol() {
    let st = spawn_broker();
    let h = health(&st);
    assert_eq!(h.protocol, PROTOCOL_VERSION);
    assert!(!h.broker_uuid.is_empty());
    assert!(h.port > 0);
}

#[test]
fn adapter_endpoints_require_token() {
    let mut st = spawn_broker();
    let unauth = sessions(&mut st, &nobody(), 0).err().unwrap();
    assert_eq!(unauth.status, 401);
    let authed = sessions(&mut st, &adapter(), 0);
    assert!(authed.is_ok());
    assert!(authed.ok().unwrap().is_empty());
}

#[test]
fn empty_poll_returns_204() {
    let mut st = spawn_broker();
    let held = poll_begin(&mut st, &plugin_handshake("s-empty"), 0);
    let waiting = poll_step(&mut st, "s-empty", Role::Plugin, held.deadline, 800_000_000);
    assert!(
        matches!(waiting, PollStep::Wait(t) if t == POLL_HOLD - 800_000_000),
        "expected the long-poll to still be holding"
    );
    let over = poll_step(&mut st, "s-empty", Role::Plugin, held.deadline, held.deadline);
    assert!(matches!(over, PollStep::NoContent));
}

#[test]
fn full_command_loop_with_result() {
    let mut st = spawn_broker();
    let session_id = "s-loop";

    // 1. The plugin registers and parks on a poll.
    let held = poll_begin(&mut st, &plugin_handshake(session_id), 0);
    let mut signal = Box::pin(held.notify.notified());
    assert!(!signal.as_mut().enable());
    let parked = look(&mut st, session_id, Role::Plugin, held.deadline, 0).unwrap();
    assert!(parked.is_empty());

    // 2. The adapter sends a command and waits for the result.
    let req = request(session_id, "ping", "{\"x\":1}", Role::Plugin, 5000);
    let mut waiting = submit(&mut st, req, SEC);
    assert_eq!(waiting.timeout, 5 * SEC);

    // 3. The parked poll is woken and returns the command.
    assert!(signal.as_mut().enable());
    let commands = look(&mut st, session_id, Role::Plugin, held.deadline, SEC).unwrap();
    assert_eq!(commands.len(), 1);
    assert_eq!(commands[0].tool, "ping");
    assert_eq!(commands[0].target_role, Role::Plugin);
    assert_eq!(commands[0].args, json("{\"x\":1}"));
    let cmd_id = commands[0].id;

    // 4. The plugin posts the result.
    answer(&mut st, session_id, Role::Plugin, cmd_id, "{\"pong\":true}", 2 * SEC);

    // 5. The adapter's wait ends with that result.
    let got = waiting.receiver.try_recv().unwrap();
    let outcome = WaitOutcome::Answered(got);
    let res = command_finish(&mut st, session_id, waiting.id, outcome).ok().unwrap();
    assert_eq!(res.id, cmd_id);
    assert_eq!(res.ok, true);
    assert_eq!(res.result.unwrap()["pong"], true);

    // 6. The session is listed as live.
    let list = listing(&mut st, 2 * SEC);
    let s = list.iter().find(|s| s.session_id == session_id).unwrap();
    assert_eq!(s.creator_id, 42);
    assert_eq!(s.place_name, "Unpublished Place");
    assert!(s.roles.iter().any(|r| matches!(r.state, LiveState::Live)));
}

#[test]
fn command_to_unknown_session_is_404() {
    let mut st = spawn_broker();
    let req = request("does-not-exist", "ping", "{}", Role::Plugin, 500);
    let refusal = command_begin(&mut st, &adapter(), req, 0).err().unwrap();
    assert_eq!(refusal.status, 404);
    assert_eq!(refusal.message, "no session does-not-exist");
}

#[test]
fn command_routes_to_the_targeted_role() {
    let mut st = spawn_broker();
    let session_id = "s-roles";
    let plugin = poll_begin(&mut st, &handshake(session_id, Role::Plugin), 0);
    let server = poll_begin(&mut st, &handshake(session_id, Role::Server), 0);

    let mut plugin_signal = Box::pin(plugin.notify.notified());
    let mut server_signal = Box::pin(server.notify.notified());
    assert!(!plugin_signal.as_mut().enable());
    assert!(!server_signal.as_mut().enable());
    let req = request(session_id, "end_playtest", "{}", Role::Server, 5000);
    let mut waiting = submit(&mut st, req, SEC);
    assert!(!plugin_signal.as_mut().enable());
    assert!(server_signal.as_mut().enable());

    let commands = look(&mut st, session_id, Role::Server, server.deadline, SEC).unwrap();
    assert_eq!(commands.len(), 1);
    assert_eq!(commands[0].tool, "end_playtest");
    let cmd_id = commands[0].id;
    let parked = look(&mut st, session_id, Role::Plugin, plugin.deadline, SEC).unwrap();
    assert!(parked.is_empty(), "plugin poll must not receive a server-targeted command");

    answer(&mut st, session_id, Role::Server, cmd_id, "{\"ending\":true}", 2 * SEC);
    let got = waiting.receiver.try_recv().unwrap();
    assert_eq!(got.ok, true);
    assert_eq!(got.result.unwrap()["ending"], true);
}

#[test]
fn command_routes_to_the_client_role() {
    let mut st = spawn_broker();
    let session_id = "s-client";
    let server = poll_begin(&mut st, &handshake(session_id, Role::Server), 0);
    let client = poll_begin(&mut st, &handshake(session_id, Role::Client), 0);

    let mut server_signal = Box::pin(server.notify.notified());
    let mut client_signal = Box::pin(client.notify.notified());
    assert!(!server_signal.as_mut().enable());
    assert!(!client_signal.as_mut().enable());
    let req = request(session_id, "get_client_state", "{}", Role::Client, 5000);
    let mut waiting = submit(&mut st, req, SEC);
    assert!(!server_signal.as_mut().enable());
    assert!(client_signal.as_mut().enable());

    let commands = look(&mut st, session_id, Role::Client, client.deadline, SEC).unwrap();
    assert_eq!(commands.len(), 1);
    assert_eq!(commands[0].tool, "get_client_state");
    let cmd_id = commands[0].id;
    let parked = look(&mut st, session_id, Role::Server, server.deadline, SEC).unwrap();
    assert!(parked.is_empty(), "server poll must not receive a client-targeted command");

    answer(&mut st, session_id, Role::Client, cmd_id, "{\"player\":\"Player1\"}", 2 * SEC);
    let got = waiting.receiver.try_recv().unwrap();
    assert_eq!(got.ok, true);
    assert_eq!(got.result.unwrap()["player"], "Player1");
}

#[test]
fn tokens_are_taken_from_either_header() {
    let mut st = spawn_broker();
    let by_header = Credentials { authorization: None, broker_token: Some(TOKEN.to_string()) };
    assert!(authorize(&mut st, &by_header, 5).is_ok());
    assert_eq!(st.last_activity, 5);

    // Another scheme is passed over, a wrong bearer token is not.
    let other_scheme = Credentials {
        authorization: Some("Basic abc".to_string()),
        broker_token: Some(TOKEN.to_string()),
    };
    assert!(authorize(&mut st, &other_scheme, 6).is_ok());
    let wrong_bearer = Credentials {
        authorization: Some("Bearer nope".to_string()),
        broker_token: Some(TOKEN.to_string()),
    };
    let refusal = authorize(&mut st, &wrong_bearer, 7).err().unwrap();
    assert_eq!(refusal.status, 401);
    assert_eq!(refusal.message, "invalid or missing broker token");
    assert_eq!(st.last_activity, 6);

    for text in ["Bearer", "bearer test-token-abc123", "Bearer  test-token-abc123", ""] {
        let c = Credentials { authorization: Some(text.to_string()), broker_token: None };
        assert!(authorize(&mut st, &c, 8).is_err(), "{text}");
    }
}

#[test]
fn shutdown_needs_the_token() {
    let mut st = spawn_broker();
    assert_eq!(shutdown(&mut st, &nobody(), 0).err().unwrap().status, 401);
    assert_eq!(shutdown(&mut st, &adapter(), 0).ok().unwrap().status, 202);
    let req = request("s", "t", "{}", Role::Plugin, 1);
    assert_eq!(command_begin(&mut st, &nobody(), req, 0).err().unwrap().status, 401);
}

#[test]
fn shutdown_signal_is_given_when_it_is_due() {
    let mut st = spawn_broker();
    let stop = st.shutdown.clone();
    let mut signal = Box::pin(stop.notified());
    assert!(!signal.as_mut().enable());
    assert!(shutdown(&mut st, &nobody(), 0).is_err());
    assert!(!signal.as_mut().enable());
    let answer = shutdown(&mut st, &adapter(), 0).ok().unwrap();
    assert!(signal.as_mut().enable());
    assert!(std::sync::Arc::ptr_eq(&answer.wake.notify(), &stop));

    let mut signal = Box::pin(stop.notified());
    assert!(!signal.as_mut().enable());
    assert!(maintain(&mut st, Some(SEC), 0).wake.is_none());
    assert!(!signal.as_mut().enable());
    assert!(maintain(&mut st, Some(SEC), SEC).wake.is_some());
    assert!(signal.as_mut().enable());
}

#[test]
fn command_wakes_the_held_poll_of_its_role() {
    let mut st = spawn_broker();
    let held = poll_begin(&mut st, &plugin_handshake("s"), 0);
    poll_begin(&mut st, &handshake("s", Role::Server), 0);
    look(&mut st, "s", Role::Plugin, held.deadline, 0);
    answer(&mut st, "s", Role::Plugin, 9, "1", 0);
    maintain(&mut st, None, SEC);
    let waiting = submit(&mut st, request("s", "t", "{}", Role::Plugin, 5), SEC);
    assert!(std::sync::Arc::ptr_eq(&waiting.wake.notify(), &held.notify));
}

#[test]
fn result_reaches_the_adapter_of_a_removed_session() {
    let mut st = spawn_broker();
    poll_begin(&mut st, &plugin_handshake("s"), 0);
    let mut waiting = submit(&mut st, request("s", "t", "{}", Role::Plugin, 500_000), 0);
    assert_eq!(look(&mut st, "s", Role::Plugin, SEC, 0).unwrap().len(), 1);
    assert_eq!(maintain(&mut st, None, 120 * SEC).reaped, 1);
    let gone = poll_step(&mut st, "s", Role::Plugin, 0, 120 * SEC);
    assert!(matches!(gone, PollStep::NoContent));
    answer(&mut st, "s", Role::Plugin, waiting.id, "5", 121 * SEC);
    assert_eq!(waiting.receiver.try_recv().unwrap().result, Some(json("5")));
}

#[test]
fn given_up_command_is_still_handed_out() {
    let mut st = spawn_broker();
    poll_begin(&mut st, &plugin_handshake("s"), 0);
    let waiting = submit(&mut st, request("s", "t", "{}", Role::Plugin, 5), 0);
    assert!(command_finish(&mut st, "s", waiting.id, WaitOutcome::TimedOut).is_err());
    let first = look(&mut st, "s", Role::Plugin, 60 * SEC, SEC).unwrap();
    assert_eq!(first[0].id, waiting.id);
    assert!(look(&mut st, "s", Role::Plugin, 60 * SEC, 15 * SEC).unwrap().is_empty());
    let again = look(&mut st, "s", Role::Plugin, 60 * SEC, 16 * SEC).unwrap();
    assert_eq!(again[0].id, waiting.id);
    answer(&mut st, "s", Role::Plugin, waiting.id, "1", 17 * SEC);
    assert!(look(&mut st, "s", Role::Plugin, 90 * SEC, 60 * SEC).unwrap().is_empty());
}

#[test]
fn commands_wait_half_a_minute_by_default() {
    let mut st = spawn_broker();
    poll_begin(&mut st, &plugin_handshake("s"), 0);
    let mut req = request("s", "t", "{}", Role::Plugin, 0);
    req.timeout_ms = None;
    assert_eq!(submit(&mut st, req, 0).timeout, 30 * SEC);
    let req = request("s", "t", "{}", Role::Plugin, u64::MAX);
    assert_eq!(submit(&mut st, req, 0).timeout, u64::MAX as u128 * 1_000_000);
}

#[test]
fn waits_end_in_every_way() {
    let mut st = spawn_broker();
    poll_begin(&mut st, &plugin_handshake("s"), 0);
    let mut waiting = submit(&mut st, request("s", "t", "{}", Role::Plugin, 5), 0);

    let dropped = command_finish(&mut st, "s", waiting.id, WaitOutcome::Dropped).err().unwrap();
    assert_eq!(dropped.status, 500);
    assert_eq!(dropped.message, "result channel dropped");

    let late = command_finish(&mut st, "s", waiting.id, WaitOutcome::TimedOut).err().unwrap();
    assert_eq!(late.status, 504);
    assert_eq!(late.message, "timed out waiting for plugin result");

    // The sending end is gone with the wait, and a late result finds nobody.
    assert!(waiting.receiver.try_recv().is_err());
    let late = CommandResult::err(waiting.id, "late".to_string());
    assert!(st.registry.complete("s", late).is_none());
}

#[test]
fn result_counts_once() {
    let mut st = spawn_broker();
    poll_begin(&mut st, &plugin_handshake("s"), 0);
    let mut waiting = submit(&mut st, request("s", "t", "{}", Role::Plugin, 5), 0);
    answer(&mut st, "s", Role::Plugin, waiting.id, "1", SEC);
    answer(&mut st, "s", Role::Plugin, waiting.id, "2", SEC);
    assert_eq!(waiting.receiver.try_recv().unwrap().result, Some(json("1")));
    assert!(st.registry.complete("s", CommandResult::ok(waiting.id, json("3"))).is_none());
}

#[test]
fn result_for_nobody_is_taken() {
    let mut st = spawn_broker();
    answer(&mut st, "nowhere", Role::Plugin, 9, "1", 0);
    assert!(listing(&mut st, 0).is_empty());
}

#[test]
fn sent_result_needs_a_receiver() {
    let mut st = spawn_broker();
    let receiver = st.registry.register_pending("s", 3);
    drop(receiver);
    let sent = st.registry.complete("s", CommandResult::ok(3, json("null")));
    assert!(sent.is_some());
    assert!(!reached_anyone(&sent));
    let mut receiver = st.registry.register_pending("s", 4);
    let other = st.registry.register_pending("t", 4);
    let sent = st.registry.complete("s", CommandResult::err(4, "no".to_string()));
    assert!(sent.as_ref().unwrap().reached());
    assert!(reached_anyone(&sent));
    assert!(st.registry.complete("s", CommandResult::ok(4, json("1"))).is_none());
    assert!(reached_anyone(&st.registry.complete("t", CommandResult::ok(4, json("1")))));
    drop(other);
    assert!(!reached_anyone(&None));
    let got = receiver.try_recv().unwrap();
    assert_eq!((got.id, got.ok, got.result, got.error), (4, false, None, Some("no".to_string())));
    let mut cancelled = st.registry.register_pending("s", 5);
    st.registry.cancel_pending("s", 5);
    assert!(cancelled.try_recv().is_err());
}

#[test]
fn results_reach_the_adapter_of_their_session() {
    let mut st = spawn_broker();
    poll_begin(&mut st, &plugin_handshake("a"), 0);
    poll_begin(&mut st, &plugin_handshake("b"), 0);
    let mut first = submit(&mut st, request("a", "t", "{}", Role::Plugin, 5), 0);
    let mut second = submit(&mut st, request("b", "t", "{}", Role::Plugin, 5), 0);
    assert_eq!(first.id, second.id);
    answer(&mut st, "b", Role::Plugin, second.id, "\"b\"", SEC);
    assert!(first.receiver.try_recv().is_err());
    assert_eq!(second.receiver.try_recv().unwrap().result, Some(json("\"b\"")));
    answer(&mut st, "a", Role::Plugin, first.id, "\"a\"", SEC);
    assert_eq!(first.receiver.try_recv().unwrap().result, Some(json("\"a\"")));
}

#[test]
fn ids_count_up_in_a_session() {
    let mut st = spawn_broker();
    poll_begin(&mut st, &plugin_handshake("s"), 0);
    let ids: Vec<u64> = (0..3)
        .map(|_| submit(&mut st, request("s", "t", "{}", Role::Plugin, 5), 0).id)
        .collect();
    assert_eq!(ids, vec![1, 2, 3]);
    let commands = look(&mut st, "s", Role::Plugin, SEC, 0).unwrap();
    let handed: Vec<u64> = commands.iter().map(|c| c.id).collect();
    assert_eq!(handed, vec![1, 2, 3]);
}

#[test]
fn handshake_keeps_name_and_label() {
    let mut st = spawn_broker();
    let mut hs = plugin_handshake("s");
    hs.label = Some("staging".to_string());
    hs.place_id = 7;
    poll_begin(&mut st, &hs, 0);
    let mut second = handshake("s", Role::Server);
    second.creator_id = 43;
    second.game_id = 8;
    poll_begin(&mut st, &second, SEC);

    let list = listing(&mut st, SEC);
    assert_eq!(list.len(), 1);
    let s = &list[0];
    assert_eq!(s.place_name, "Unpublished Place");
    assert_eq!(s.label, Some("staging".to_string()));
    assert_eq!((s.place_id, s.game_id, s.creator_id), (0, 8, 43));
    let roles: Vec<Role> = s.roles.iter().map(|r| r.role).collect();
    assert_eq!(roles, vec![Role::Plugin, Role::Server]);
    assert_eq!(s.roles[0].last_seen_ms, 1000);
    assert_eq!(s.roles[1].last_seen_ms, 0);
}

#[test]
fn held_poll_keeps_its_session_live() {
    let mut st = spawn_broker();
    let held = poll_begin(&mut st, &plugin_handshake("s"), 0);
    assert_eq!(held.deadline, POLL_HOLD);
    assert_eq!(st.registry.live_session_count(held.deadline), 1);
    assert_eq!(maintain(&mut st, None, held.deadline).reaped, 0);
}

#[test]
fn delivery_is_addressed_to_the_waiting_adapter() {
    let mut st = spawn_broker();
    poll_begin(&mut st, &plugin_handshake("s"), 0);
    let mut waiting = submit(&mut st, request("s", "t", "{}", Role::Plugin, 5), 0);
    let req = ResultRequest {
        session_id: "s".to_string(),
        role: Role::Plugin,
        result: CommandResult::ok(waiting.id, json("7")),
    };
    let delivery = result_delivery(&mut st, req, SEC).unwrap();
    assert!(waiting.receiver.try_recv().is_err());
    delivery.sender.send(delivery.result).unwrap();
    assert_eq!(waiting.receiver.try_recv().unwrap().result, Some(json("7")));
}

#[test]
fn handshake_keeps_waiting_commands() {
    let mut st = spawn_broker();
    poll_begin(&mut st, &plugin_handshake("s"), 0);
    submit(&mut st, request("s", "t", "{}", Role::Plugin, 5), 0);
    let held = poll_begin(&mut st, &plugin_handshake("s"), SEC);
    let commands = look(&mut st, "s", Role::Plugin, held.deadline, SEC).unwrap();
    assert_eq!(commands.len(), 1);
}

#[test]
fn upkeep_removes_the_dead_and_shuts_down_the_idle() {
    let mut st = spawn_broker();
    poll_begin(&mut st, &plugin_handshake("old"), 0);
    poll_begin(&mut st, &plugin_handshake("new"), 300 * SEC);

    let round = maintain(&mut st, Some(600 * SEC), 300 * SEC);
    assert_eq!(round.reaped, 1);
    assert!(!round.shut_down);
    let left: Vec<String> =
        st.registry.list(300 * SEC).into_iter().map(|s| s.session_id).collect();
    assert_eq!(left, vec!["new".to_string()]);
    assert_eq!(st.registry.live_session_count(300 * SEC), 1);

    // Inactive for long enough, but a session is live.
    poll_begin(&mut st, &plugin_handshake("new"), 700 * SEC);
    assert!(!maintain(&mut st, Some(600 * SEC), 700 * SEC).shut_down);
    // No limit, no shutdown.
    assert!(!maintain(&mut st, None, 9000 * SEC).shut_down);
    // No session is left.
    assert!(maintain(&mut st, Some(600 * SEC), 9000 * SEC).shut_down);
    // An adapter was active.
    assert!(listing(&mut st, 9000 * SEC).is_empty());
    assert!(!maintain(&mut st, Some(600 * SEC), 9599 * SEC).shut_down);
    assert!(maintain(&mut st, Some(600 * SEC), 9600 * SEC).shut_down);
}

#[test]
fn ports_are_tried_in_order() {
    assert_eq!((PORT_FIRST, PORT_LAST), (1801, 1803));
    assert!(matches!(bind_step(1801, BindOutcome::Bound), BindStep::Serve(1801)));
    assert!(matches!(bind_step(1801, BindOutcome::InUse), BindStep::Try(1802)));
    assert!(matches!(bind_step(1802, BindOutcome::InUse), BindStep::Try(1803)));
    match bind_step(1803, BindOutcome::InUse) {
        BindStep::GiveUp(m) => assert_eq!(
            m,
            "no free port in 1801..=1803; another broker or process owns them all"
        ),
        _ => panic!("every port is taken"),
    }
    match bind_step(1802, BindOutcome::Failed) {
        BindStep::Fail(m) => assert_eq!(m, "binding 127.0.0.1:1802"),
        _ => panic!("the failure is final"),
    }
}

#[test]
fn configurations_are_as_asked() {
    assert_eq!(BrokerConfig::default().idle_timeout, Some(DEFAULT_IDLE_TIMEOUT));
    assert_eq!(DEFAULT_IDLE_TIMEOUT, 600 * SEC);
    assert_eq!(BrokerConfig::from_idle_secs(0).idle_timeout, None);
    assert_eq!(BrokerConfig::from_idle_secs(7).idle_timeout, Some(7 * SEC));
    assert_eq!(
        BrokerConfig::from_idle_secs(u64::MAX).idle_timeout,
        Some(u64::MAX as u128 * SEC)
    );
}

#[test]
fn identities_are_random() {
    let a = generate_token();
    let b = generate_token();
    assert_ne!(a, b);
    assert_ne!(a[..32], a[32..]);
    assert_eq!(token_of("ab", "cd"), "abcd");
    assert_eq!(a.len(), 64);
    assert!(a.chars().all(|c| c.is_ascii_hexdigit() && !c.is_ascii_uppercase()));
    assert_eq!(&a[12..13], "4");

    let st = spawn_broker();
    let uuid = health(&st).broker_uuid;
    assert_ne!(uuid, health(&spawn_broker()).broker_uuid);
    let parts: Vec<usize> = uuid.split('-').map(|p| p.len()).collect();
    assert_eq!(parts, vec![8, 4, 4, 4, 12]);
    assert_eq!(&uuid[14..15], "4");
}

#[test]
fn broker_info_names_this_broker() {
    let st = spawn_broker();
    let info = st.broker_info(99);
    assert_eq!(info.port, 1801);
    assert_eq!(info.pid, 99);
    assert_eq!(info.token, TOKEN);
    assert_eq!(info.protocol, PROTOCOL_VERSION);
    assert_eq!(info.broker_uuid, health(&st).broker_uuid);
}
