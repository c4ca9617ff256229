//! The command queues and the sessions: delivery, redelivery and liveness.
use dust::broker::queue::{time_since, RoleQueue, REDELIVER_AFTER};
use dust::broker::session::{state_for, Session, SessionMeta, DEAD_AFTER, STALE_AFTER};
use dust::broker::Registry;
use dust::protocol::{Command, Handshake, LiveState, Role};
use serde_json::Value;

fn command(id: u64, tool: &str) -> Command {
    Command {
        id,
        tool: tool.to_string(),
        args: Value::from(id),
        target_role: Role::Plugin,
    }
}

fn handed(commands: Vec<Command>) -> Vec<(u64, String)> {
    commands.into_iter().map(|c| (c.id, c.tool)).collect()
}

fn ids(commands: Vec<Command>) -> Vec<u64> {
    commands.into_iter().map(|c| c.id).collect()
}

fn handshake(session_id: &str, role: Role) -> Handshake {
    Handshake {
        session_id: session_id.to_string(),
        role,
        place_id: 1,
        game_id: 2,
        place_name: "Place".to_string(),
        creator_id: 3,
        label: None,
        protocol: 1,
        ts: 0,
    }
}

#[test]
fn enqueued_is_delivered_once() {
    let mut q = RoleQueue::new(0);
    q.enqueue(command(1, "a"));
    q.enqueue(command(2, "b"));
    let batch = q.take_for_poll(0);
    assert_eq!(batch[0].args, Value::from(1));
    assert_eq!(
        handed(batch),
        vec![(1, "a".to_string()), (2, "b".to_string())]
    );
    assert!(q.take_for_poll(REDELIVER_AFTER - 1).is_empty());
}

#[test]
fn enqueue_gives_the_signal() {
    let mut q = RoleQueue::new(0);
    let notify = q.notify();
    let mut signal = Box::pin(notify.notified());
    assert!(!signal.as_mut().enable());
    q.touch(1);
    q.take_for_poll(1);
    q.ack(1);
    assert!(!signal.as_mut().enable());
    let wake = q.enqueue(command(1, "a"));
    assert!(signal.as_mut().enable());
    assert!(std::sync::Arc::ptr_eq(&wake.notify(), &notify));
}

#[test]
fn unacked_is_redelivered() {
    assert_eq!(REDELIVER_AFTER, 15_000_000_000);
    let mut q = RoleQueue::new(0);
    q.enqueue(command(1, "a"));
    q.take_for_poll(100);
    assert!(q.take_for_poll(100 + REDELIVER_AFTER - 1).is_empty());
    assert_eq!(ids(q.take_for_poll(100 + REDELIVER_AFTER)), vec![1]);
    // A redelivery does not start the time anew.
    assert_eq!(ids(q.take_for_poll(100 + REDELIVER_AFTER)), vec![1]);
}

#[test]
fn acked_is_forgotten() {
    let mut q = RoleQueue::new(0);
    q.enqueue(command(1, "a"));
    q.enqueue(command(2, "b"));
    q.ack(2);
    q.ack(2);
    q.ack(77);
    assert_eq!(ids(q.take_for_poll(0)), vec![1]);
    q.ack(1);
    assert!(q.take_for_poll(10 * REDELIVER_AFTER).is_empty());
}

#[test]
fn batches_are_in_order_of_ids() {
    let mut q = RoleQueue::new(0);
    q.enqueue(command(5, "e"));
    q.enqueue(command(3, "c"));
    assert_eq!(ids(q.take_for_poll(0)), vec![3, 5]);
    q.enqueue(command(4, "d"));
    assert_eq!(ids(q.take_for_poll(REDELIVER_AFTER)), vec![3, 4, 5]);
}

#[test]
fn one_command_per_id_is_handed_out() {
    let mut q = RoleQueue::new(0);
    q.enqueue(command(1, "first"));
    q.enqueue(command(1, "second"));
    assert_eq!(handed(q.take_for_poll(0)), vec![(1, "first".to_string())]);
    assert_eq!(
        handed(q.take_for_poll(REDELIVER_AFTER)),
        vec![(1, "second".to_string())]
    );
}

#[test]
fn queue_remembers_when_it_was_heard_of() {
    let mut q = RoleQueue::new(4);
    assert_eq!(q.last_seen(), 4);
    q.touch(9);
    assert_eq!(q.last_seen(), 9);
    q.enqueue(command(1, "a"));
    q.take_for_poll(20);
    q.ack(1);
    assert_eq!(q.last_seen(), 9);
    assert_eq!(time_since(9, 4), 5);
    assert_eq!(time_since(4, 9), 0);
}

#[test]
fn liveness_decays() {
    assert_eq!((STALE_AFTER, DEAD_AFTER), (40_000_000_000, 120_000_000_000));
    assert_eq!(state_for(0), LiveState::Live);
    assert_eq!(state_for(STALE_AFTER - 1), LiveState::Live);
    assert_eq!(state_for(STALE_AFTER), LiveState::Stale);
    assert_eq!(state_for(DEAD_AFTER - 1), LiveState::Stale);
    assert_eq!(state_for(DEAD_AFTER), LiveState::Dead);
}

#[test]
fn session_lists_its_roles_by_name() {
    let mut s = Session::new(SessionMeta::from_handshake(&handshake("s", Role::Server)));
    assert!(s.role_infos(0).is_empty());
    assert!(!s.has_live_role(0));
    assert!(s.all_dead(0));
    s.touch(Role::Server, 0);
    s.touch(Role::Plugin, DEAD_AFTER - STALE_AFTER);
    s.touch(Role::Client, DEAD_AFTER);
    let infos = s.role_infos(DEAD_AFTER);
    let seen: Vec<(Role, LiveState, u64)> =
        infos.iter().map(|r| (r.role, r.state, r.last_seen_ms)).collect();
    assert_eq!(
        seen,
        vec![
            (Role::Client, LiveState::Live, 0),
            (Role::Plugin, LiveState::Stale, 40_000),
            (Role::Server, LiveState::Dead, 120_000),
        ]
    );
    assert!(s.has_live_role(DEAD_AFTER));
    assert!(!s.all_dead(DEAD_AFTER));
    assert!(!s.has_live_role(DEAD_AFTER + STALE_AFTER));
    assert!(s.all_dead(DEAD_AFTER + DEAD_AFTER));
}

#[test]
fn session_numbers_its_commands() {
    let mut s = Session::new(SessionMeta::from_handshake(&handshake("s", Role::Plugin)));
    assert_eq!(s.next_id(), 1);
    assert_eq!(s.next_id(), 2);
    s.enqueue(command(1, "a"), 0);
    assert!(s.take_for_poll(Role::Server, 0).is_empty());
    assert_eq!(ids(s.take_for_poll(Role::Plugin, 0)), vec![1]);
    s.ack(Role::Server, 1, 0);
    assert_eq!(ids(s.take_for_poll(Role::Plugin, REDELIVER_AFTER)), vec![1]);
    s.ack(Role::Plugin, 1, 0);
    assert!(s.take_for_poll(Role::Plugin, 2 * REDELIVER_AFTER).is_empty());
}

#[test]
fn registry_keeps_one_session_per_id() {
    let mut r = Registry::new();
    assert!(r.get("s").is_none());
    r.upsert(&handshake("s", Role::Plugin), 0);
    r.upsert(&handshake("s", Role::Server), 0);
    r.upsert(&handshake("t", Role::Plugin), 0);
    assert!(r.get("s").is_some());
    let mut names: Vec<String> = r.list(0).into_iter().map(|s| s.session_id).collect();
    names.sort();
    assert_eq!(names, vec!["s".to_string(), "t".to_string()]);
    assert_eq!(r.live_session_count(0), 2);
    assert_eq!(r.reap(DEAD_AFTER - 1), 0);
    r.upsert(&handshake("t", Role::Plugin), DEAD_AFTER);
    assert_eq!(r.live_session_count(DEAD_AFTER), 1);
    assert_eq!(r.reap(DEAD_AFTER), 1);
    assert_eq!(r.reap(DEAD_AFTER), 0);
    assert!(r.get("s").is_none());
    assert!(r.get("t").is_some());
}

#[test]
fn submitted_command_is_in_its_queue_only() {
    let mut r = Registry::new();
    assert!(r.submit("s", "t".to_string(), Value::Null, Role::Plugin, 0).is_none());
    r.upsert(&handshake("s", Role::Plugin), 0);
    r.upsert(&handshake("u", Role::Plugin), 0);
    let sent = r.submit("s", "t".to_string(), Value::from(true), Role::Server, 0).unwrap();
    assert!(r.take_for_poll("s", Role::Plugin, 0).is_empty());
    assert!(r.take_for_poll("u", Role::Server, 0).is_empty());
    assert!(r.take_for_poll("nowhere", Role::Server, 0).is_empty());
    let batch = r.take_for_poll("s", Role::Server, 0);
    assert_eq!((batch[0].id, batch[0].args.clone()), (sent.id, Value::from(true)));
    r.ack("s", Role::Server, sent.id, 0);
    assert!(r.take_for_poll("s", Role::Server, REDELIVER_AFTER).is_empty());
}
