//! One Studio session: what is known of its place, and the queue of each role.
use crate::broker::queue::{elapsed, time_since, QueueState, RoleQueue};
use crate::broker::signal::Wake;
use crate::broker::table::{
    get_queue, insert_queue, new_queue_table, queue_value, queues_of, remove_queue,
};
use crate::protocol::{Command, Handshake, LiveState, Role, RoleInfo};
use dashmap::DashMap;
use std::sync::Arc;
use tokio::sync::Notify;
use vstd::prelude::*;

verus! {

/// How long a role counts as live after it was heard of.
pub const STALE_AFTER: u128 = 40_000_000_000;

/// How long a role may be silent before it counts as dead.
pub const DEAD_AFTER: u128 = 120_000_000_000;

/// The nanoseconds of a millisecond.
pub const NANOS_PER_MILLI: u128 = 1_000_000;

/// The liveness of a role that was heard of `ago` nanoseconds ago.
pub open spec fn live_state(ago: u128) -> LiveState {
    if ago < STALE_AFTER {
        LiveState::Live
    } else if ago < DEAD_AFTER {
        LiveState::Stale
    } else {
        LiveState::Dead
    }
}

/// Computes [`live_state`].
pub fn state_for(ago: u128) -> (r: LiveState)
    ensures
        r == live_state(ago),
{
    if ago < STALE_AFTER {
        LiveState::Live
    } else if ago < DEAD_AFTER {
        LiveState::Stale
    } else {
        LiveState::Dead
    }
}

/// The key of a role in the table of queues.
pub open spec fn role_key(role: Role) -> u8 {
    match role {
        Role::Plugin => 0,
        Role::Server => 1,
        Role::Client => 2,
    }
}

fn key_of(role: Role) -> (r: u8)
    ensures
        r == role_key(role),
{
    match role {
        Role::Plugin => 0,
        Role::Server => 1,
        Role::Client => 2,
    }
}

/// What is known of the place of a session.
#[derive(Clone, Debug, Default)]
pub struct SessionMeta {
    pub place_id: u64,
    pub game_id: u64,
    pub place_name: String,
    pub creator_id: u64,
    pub label: Option<String>,
}

/// What a first handshake says of the place.
pub open spec fn meta_of(hs: Handshake) -> SessionMeta {
    SessionMeta {
        place_id: hs.place_id,
        game_id: hs.game_id,
        place_name: hs.place_name,
        creator_id: hs.creator_id,
        label: hs.label,
    }
}

impl SessionMeta {
    /// The meta data after a further handshake, which replaces everything but
    /// for an empty name and an absent label.
    pub open spec fn updated(self, hs: Handshake) -> SessionMeta {
        SessionMeta {
            place_id: hs.place_id,
            game_id: hs.game_id,
            place_name: if hs.place_name@.len() == 0 {
                self.place_name
            } else {
                hs.place_name
            },
            creator_id: hs.creator_id,
            label: if hs.label is None {
                self.label
            } else {
                hs.label
            },
        }
    }

    /// The meta data of a session that this handshake opens.
    pub fn from_handshake(hs: &Handshake) -> (r: Self)
        ensures
            r == meta_of(*hs),
    {
        SessionMeta {
            place_id: hs.place_id,
            game_id: hs.game_id,
            place_name: hs.place_name.clone(),
            creator_id: hs.creator_id,
            label: hs.label.clone(),
        }
    }

    /// Takes over what a further handshake says.
    pub fn update_from(&mut self, hs: &Handshake)
        ensures
            *final(self) == old(self).updated(*hs),
    {
        self.place_id = hs.place_id;
        self.game_id = hs.game_id;
        if !hs.place_name.as_str().is_empty() {
            self.place_name = hs.place_name.clone();
        }
        self.creator_id = hs.creator_id;
        if hs.label.is_some() {
            self.label = hs.label.clone();
        }
    }

    /// A copy of the meta data.
    pub fn copied(&self) -> (r: Self)
        ensures
            r == *self,
    {
        SessionMeta {
            place_id: self.place_id,
            game_id: self.game_id,
            place_name: self.place_name.clone(),
            creator_id: self.creator_id,
            label: self.label.clone(),
        }
    }
}

/// The state of a session.
#[verifier::ext_equal]
pub struct SessionState {
    /// What is known of the place.
    pub meta: SessionMeta,
    /// The id of the next command.
    pub next_id: u64,
    /// The queues of the roles that the session has.
    pub queues: Map<Role, QueueState>,
}

impl SessionState {
    /// Every queue is well formed.
    pub open spec fn wf(self) -> bool {
        forall|role: Role| #[trigger] self.queues.contains_key(role) ==> self.queues[role].wf()
    }

    /// A session without roles.
    pub open spec fn fresh(meta: SessionMeta) -> SessionState {
        SessionState { meta, next_id: 1, queues: Map::empty() }
    }

    /// The queue of a role; one that the session lacks starts empty at `now`.
    pub open spec fn queue(self, role: Role, now: u128) -> QueueState {
        if self.queues.contains_key(role) {
            self.queues[role]
        } else {
            QueueState::fresh(now)
        }
    }

    /// The session with this queue for the role.
    pub open spec fn with_queue(self, role: Role, queue: QueueState) -> SessionState {
        SessionState { queues: self.queues.insert(role, queue), ..self }
    }

    /// The session once a command id was given out.
    pub open spec fn numbered(self) -> SessionState {
        SessionState {
            next_id: if self.next_id == u64::MAX {
                0
            } else {
                (self.next_id + 1) as u64
            },
            ..self
        }
    }

    /// The session once the role was asked for.
    pub open spec fn opened(self, role: Role, now: u128) -> SessionState {
        self.with_queue(role, self.queue(role, now))
    }

    /// The session once the role was heard of at `now`.
    pub open spec fn touched(self, role: Role, now: u128) -> SessionState {
        self.with_queue(role, self.queue(role, now).touched(now))
    }

    /// The session once the command is in the queue of its role.
    pub open spec fn enqueued(self, cmd: Command, now: u128) -> SessionState {
        self.with_queue(cmd.target_role, self.queue(cmd.target_role, now).enqueued(cmd))
    }

    /// The session after a poll of the role at `now`.
    pub open spec fn polled(self, role: Role, now: u128) -> SessionState {
        self.with_queue(role, self.queue(role, now).polled(now))
    }

    /// The session once the role acknowledged the id.
    pub open spec fn acked(self, role: Role, id: u64, now: u128) -> SessionState {
        self.with_queue(role, self.queue(role, now).acked(id))
    }

    /// The time since the role was heard of.
    pub open spec fn silence(self, role: Role, now: u128) -> u128 {
        elapsed(now, self.queues[role].last_seen)
    }

    /// What is listed of one role.
    pub open spec fn role_info(self, role: Role, now: u128) -> RoleInfo {
        RoleInfo {
            role,
            state: live_state(self.silence(role, now)),
            last_seen_ms: (self.silence(role, now) / NANOS_PER_MILLI) as u64,
        }
    }

    /// What is listed of a role, if the session has it.
    pub open spec fn listed_role(self, role: Role, now: u128) -> Seq<RoleInfo> {
        if self.queues.contains_key(role) {
            seq![self.role_info(role, now)]
        } else {
            Seq::empty()
        }
    }

    /// What is listed of the roles, in the order of their names.
    pub open spec fn role_infos(self, now: u128) -> Seq<RoleInfo> {
        self.listed_role(Role::Client, now) + self.listed_role(Role::Plugin, now)
            + self.listed_role(Role::Server, now)
    }

    /// Whether a role was heard of within [`STALE_AFTER`].
    pub open spec fn has_live_role(self, now: u128) -> bool {
        exists|role: Role| #[trigger]
            self.queues.contains_key(role) && self.silence(role, now) < STALE_AFTER
    }

    /// Whether every role has been silent for [`DEAD_AFTER`].
    pub open spec fn all_dead(self, now: u128) -> bool {
        forall|role: Role| #[trigger]
            self.queues.contains_key(role) ==> self.silence(role, now) >= DEAD_AFTER
    }
}

/// One Studio session.
pub struct Session {
    meta: SessionMeta,
    next_id: u64,
    roles: DashMap<u8, RoleQueue>,
}

impl View for Session {
    type V = SessionState;

    closed spec fn view(&self) -> SessionState {
        SessionState {
            meta: self.meta,
            next_id: self.next_id,
            queues: Map::new(
                |role: Role| queues_of(self.roles).contains_key(role_key(role)),
                |role: Role| queues_of(self.roles)[role_key(role)]@,
            ),
        }
    }
}

impl Session {
    /// The signals of the queues.
    pub closed spec fn signals(&self) -> Map<Role, Notify> {
        Map::new(
            |role: Role| queues_of(self.roles).contains_key(role_key(role)),
            |role: Role| queues_of(self.roles)[role_key(role)].signal(),
        )
    }

    /// A session without roles.
    pub fn new(meta: SessionMeta) -> (r: Self)
        ensures
            r@ == SessionState::fresh(meta),
            r.signals() == Map::<Role, Notify>::empty(),
    {
        let r = Session { meta, next_id: 1, roles: new_queue_table() };
        assert(r@ =~= SessionState::fresh(meta));
        r
    }

    /// What is known of the place.
    pub fn meta(&self) -> (r: &SessionMeta)
        ensures
            *r == self@.meta,
    {
        &self.meta
    }

    /// Takes over what a further handshake says of the place.
    pub fn update_meta(&mut self, hs: &Handshake)
        ensures
            final(self)@ == (SessionState { meta: old(self)@.meta.updated(*hs), ..old(self)@ }),
            final(self).signals() == old(self).signals(),
    {
        self.meta.update_from(hs);
    }

    /// Gives out the next command id.
    pub fn next_id(&mut self) -> (r: u64)
        ensures
            r == old(self)@.next_id,
            final(self)@ == old(self)@.numbered(),
            final(self).signals() == old(self).signals(),
    {
        let id = self.next_id;
        self.next_id = if id == u64::MAX {
            0
        } else {
            id + 1
        };
        id
    }

    fn checkout(&mut self, role: Role, now: u128) -> (r: RoleQueue)
        ensures
            r@ == old(self)@.queue(role, now),
            final(self)@ == (SessionState {
                queues: old(self)@.queues.remove(role),
                ..old(self)@
            }),
            final(self).signals() == old(self).signals().remove(role),
            old(self).signals().contains_key(role) ==> r.signal() == old(self).signals()[role],
            old(self).signals().dom() == old(self)@.queues.dom(),
    {
        let key = key_of(role);
        let taken = remove_queue(&mut self.roles, key);
        assert(self@.queues =~= old(self)@.queues.remove(role));
        assert(self.signals() =~= old(self).signals().remove(role));
        match taken {
            Some(queue) => queue,
            None => RoleQueue::new(now),
        }
    }

    fn put_back(&mut self, role: Role, queue: RoleQueue)
        ensures
            final(self)@ == old(self)@.with_queue(role, queue@),
            final(self).signals() == old(self).signals().insert(role, queue.signal()),
    {
        let key = key_of(role);
        insert_queue(&mut self.roles, key, queue);
        assert(self@.queues =~= old(self)@.queues.insert(role, queue@));
        assert(self.signals() =~= old(self).signals().insert(role, queue.signal()));
    }

    /// The signal of the role's queue, which is opened where the session lacks it.
    pub fn role_queue(&mut self, role: Role, now: u128) -> (r: Arc<Notify>)
        ensures
            final(self)@ == old(self)@.opened(role, now),
            old(self).signals().submap_of(final(self).signals()),
            final(self).signals().contains_key(role),
            *r == final(self).signals()[role],
    {
        let queue = self.checkout(role, now);
        let notify = queue.notify();
        self.put_back(role, queue);
        assert(self@ =~= old(self)@.opened(role, now));
        notify
    }

    /// Records that the role was heard of.
    pub fn touch(&mut self, role: Role, now: u128)
        ensures
            final(self)@ == old(self)@.touched(role, now),
            old(self).signals().submap_of(final(self).signals()),
    {
        let mut queue = self.checkout(role, now);
        queue.touch(now);
        self.put_back(role, queue);
        assert(self@ =~= old(self)@.touched(role, now));
    }

    /// Puts the command in the queue of its role and gives the signal that wakes
    /// the polls of that role.
    pub fn enqueue(&mut self, cmd: Command, now: u128) -> (r: Wake)
        ensures
            final(self)@ == old(self)@.enqueued(cmd, now),
            old(self).signals().submap_of(final(self).signals()),
            final(self).signals().contains_key(cmd.target_role),
            r.signal() == final(self).signals()[cmd.target_role],
    {
        let role = cmd.target_role;
        let mut queue = self.checkout(role, now);
        let wake = queue.enqueue(cmd);
        self.put_back(role, queue);
        assert(self@ =~= old(self)@.enqueued(cmd, now));
        wake
    }

    /// Hands out the commands that a poll of the role is owed.
    pub fn take_for_poll(&mut self, role: Role, now: u128) -> (r: Vec<Command>)
        requires
            old(self)@.wf(),
        ensures
            old(self)@.queue(role, now).is_batch(now, r@),
            final(self)@ == old(self)@.polled(role, now),
            old(self).signals().submap_of(final(self).signals()),
    {
        let mut queue = self.checkout(role, now);
        let batch = queue.take_for_poll(now);
        self.put_back(role, queue);
        assert(self@ =~= old(self)@.polled(role, now));
        batch
    }

    /// Forgets the commands of this id in the role's queue.
    pub fn ack(&mut self, role: Role, id: u64, now: u128)
        ensures
            final(self)@ == old(self)@.acked(role, id, now),
            old(self).signals().submap_of(final(self).signals()),
    {
        let mut queue = self.checkout(role, now);
        queue.ack(id);
        self.put_back(role, queue);
        assert(self@ =~= old(self)@.acked(role, id, now));
    }

    /// When the role was last heard of, if the session has it.
    fn seen(&self, role: Role) -> (r: Option<u128>)
        ensures
            match r {
                Some(t) => self@.queues.contains_key(role) && t == self@.queues[role].last_seen,
                None => !self@.queues.contains_key(role),
            },
    {
        match get_queue(&self.roles, key_of(role)) {
            Some(e) => Some(queue_value(&e).last_seen()),
            None => None,
        }
    }

    fn list_role(&self, role: Role, now: u128, out: &mut Vec<RoleInfo>)
        ensures
            final(out)@ == old(out)@ + self@.listed_role(role, now),
    {
        if let Some(t) = self.seen(role) {
            let ago = time_since(now, t);
            out.push(
                RoleInfo {
                    role,
                    state: state_for(ago),
                    last_seen_ms: (ago / NANOS_PER_MILLI) as u64,
                },
            );
        }
        assert(out@ =~= old(out)@ + self@.listed_role(role, now));
    }

    /// Lists the roles of the session with their liveness.
    pub fn role_infos(&self, now: u128) -> (r: Vec<RoleInfo>)
        ensures
            r@ == self@.role_infos(now),
    {
        let mut out: Vec<RoleInfo> = Vec::new();
        self.list_role(Role::Client, now, &mut out);
        self.list_role(Role::Plugin, now, &mut out);
        self.list_role(Role::Server, now, &mut out);
        assert(out@ =~= self@.role_infos(now));
        out
    }

    fn silent_for(&self, role: Role, now: u128) -> (r: Option<u128>)
        ensures
            match r {
                Some(t) => self@.queues.contains_key(role) && t == self@.silence(role, now),
                None => !self@.queues.contains_key(role),
            },
    {
        match self.seen(role) {
            Some(t) => Some(time_since(now, t)),
            None => None,
        }
    }

    fn role_is_live(&self, role: Role, now: u128) -> (r: bool)
        ensures
            r == (self@.queues.contains_key(role) && self@.silence(role, now) < STALE_AFTER),
    {
        match self.silent_for(role, now) {
            Some(t) => t < STALE_AFTER,
            None => false,
        }
    }

    fn role_is_dead(&self, role: Role, now: u128) -> (r: bool)
        ensures
            r == (self@.queues.contains_key(role) ==> self@.silence(role, now) >= DEAD_AFTER),
    {
        match self.silent_for(role, now) {
            Some(t) => t >= DEAD_AFTER,
            None => true,
        }
    }

    /// Whether a role was heard of within [`STALE_AFTER`].
    pub fn has_live_role(&self, now: u128) -> (r: bool)
        ensures
            r == self@.has_live_role(now),
    {
        self.role_is_live(Role::Plugin, now) || self.role_is_live(Role::Server, now)
            || self.role_is_live(Role::Client, now)
    }

    /// Whether every role has been silent for [`DEAD_AFTER`].
    pub fn all_dead(&self, now: u128) -> (r: bool)
        ensures
            r == self@.all_dead(now),
    {
        self.role_is_dead(Role::Plugin, now) && self.role_is_dead(Role::Server, now)
            && self.role_is_dead(Role::Client, now)
    }
}

} // verus!
