//! The command queue of one role of a session.
//!
//! A command stays in the queue until its result acknowledges it: handed out
//! by a poll it is in flight, and a poll hands it out again once it has been in
//! flight for [`REDELIVER_AFTER`].
use crate::broker::signal::{new_notify, wake_waiters, Wake};
use crate::protocol::Command;
use std::collections::{BTreeMap, VecDeque};
use std::sync::Arc;
use tokio::sync::Notify;
use vstd::prelude::*;

verus! {

/// How long a command may be in flight before it is handed out again.
pub const REDELIVER_AFTER: u128 = 15_000_000_000;

/// The time from `then` to `now`, zero where `then` is the later one.
pub open spec fn elapsed(now: u128, then: u128) -> u128 {
    if then <= now {
        (now - then) as u128
    } else {
        0
    }
}

/// Computes [`elapsed`].
pub fn time_since(now: u128, then: u128) -> (r: u128)
    ensures
        r == elapsed(now, then),
{
    if then <= now {
        now - then
    } else {
        0
    }
}

/// The first command of `s` with this id.
pub open spec fn first_with_id(s: Seq<Command>, id: u64) -> Option<Command>
    decreases s.len(),
{
    if s.len() == 0 {
        None
    } else if first_with_id(s.drop_last(), id) is Some {
        first_with_id(s.drop_last(), id)
    } else if s.last().id == id {
        Some(s.last())
    } else {
        None
    }
}

/// The last command of `s` with this id.
pub open spec fn last_with_id(s: Seq<Command>, id: u64) -> Option<Command>
    decreases s.len(),
{
    if s.len() == 0 {
        None
    } else if s.last().id == id {
        Some(s.last())
    } else {
        last_with_id(s.drop_last(), id)
    }
}

/// The commands of `s` with another id, in their order.
pub open spec fn without_id(s: Seq<Command>, id: u64) -> Seq<Command> {
    s.filter(|c: Command| c.id != id)
}

/// Whether the ids of `s` increase strictly.
pub open spec fn ascending(s: Seq<Command>) -> bool {
    forall|i: int, j: int| 0 <= i < j < s.len() ==> s[i].id < s[j].id
}

/// The state of a queue.
#[verifier::ext_equal]
pub struct QueueState {
    /// When the role was last heard of.
    pub last_seen: u128,
    /// The commands that no poll has handed out yet, oldest first.
    pub undelivered: Seq<Command>,
    /// The commands in flight by id, each with the time of its delivery.
    pub inflight: Map<u64, (Command, u128)>,
}

impl QueueState {
    /// Every command in flight is filed under its own id.
    pub open spec fn wf(self) -> bool {
        forall|id: u64| #[trigger]
            self.inflight.contains_key(id) ==> self.inflight[id].0.id == id
    }

    /// A queue without commands, heard of at `now`.
    pub open spec fn fresh(now: u128) -> QueueState {
        QueueState { last_seen: now, undelivered: Seq::empty(), inflight: Map::empty() }
    }

    /// The queue once it was heard of at `now`.
    pub open spec fn touched(self, now: u128) -> QueueState {
        QueueState { last_seen: now, ..self }
    }

    /// The queue with one more command at its end.
    pub open spec fn enqueued(self, cmd: Command) -> QueueState {
        QueueState { undelivered: self.undelivered.push(cmd), ..self }
    }

    /// The queue after a poll at `now`: every undelivered command is in flight
    /// since `now`, and the commands in flight before are kept.
    pub open spec fn polled(self, now: u128) -> QueueState {
        QueueState {
            undelivered: Seq::empty(),
            inflight: Map::new(
                |id: u64|
                    self.inflight.contains_key(id) || last_with_id(self.undelivered, id) is Some,
                |id: u64|
                    match last_with_id(self.undelivered, id) {
                        Some(cmd) => (cmd, now),
                        None => self.inflight[id],
                    },
            ),
            ..self
        }
    }

    /// The queue without any command of this id.
    pub open spec fn acked(self, id: u64) -> QueueState {
        QueueState {
            undelivered: without_id(self.undelivered, id),
            inflight: self.inflight.remove(id),
            ..self
        }
    }

    /// Whether the command in flight under this id is to be handed out again.
    pub open spec fn due(self, now: u128, id: u64) -> bool {
        self.inflight.contains_key(id) && elapsed(now, self.inflight[id].1) >= REDELIVER_AFTER
    }

    /// The command that a poll at `now` hands out under this id: the first
    /// undelivered one, else the one in flight if it is due.
    pub open spec fn owed(self, now: u128, id: u64) -> Option<Command> {
        match first_with_id(self.undelivered, id) {
            Some(cmd) => Some(cmd),
            None => if self.due(now, id) {
                Some(self.inflight[id].0)
            } else {
                None
            },
        }
    }

    /// Whether `batch` is what a poll at `now` hands out: the owed commands,
    /// one for each id, by increasing id.
    pub open spec fn is_batch(self, now: u128, batch: Seq<Command>) -> bool {
        &&& ascending(batch)
        &&& forall|c: Command| #[trigger]
            batch.contains(c) <==> self.owed(now, c.id) == Some(c)
    }
}

/// The command queue of one role, with the signal that wakes its polls.
pub struct RoleQueue {
    notify: Arc<Notify>,
    last_seen: u128,
    undelivered: VecDeque<Command>,
    inflight: BTreeMap<u64, (Command, u128)>,
}

impl View for RoleQueue {
    type V = QueueState;

    closed spec fn view(&self) -> QueueState {
        QueueState {
            last_seen: self.last_seen,
            undelivered: self.undelivered@,
            inflight: self.inflight@,
        }
    }
}

/// The first command with an id once a command is added at the end.
pub proof fn lemma_first_of_push(s: Seq<Command>, c: Command, id: u64)
    ensures
        first_with_id(s.push(c), id) == (match first_with_id(s, id) {
            Some(f) => Some(f),
            None => if c.id == id {
                Some(c)
            } else {
                None
            },
        }),
{
    assert(s.push(c).drop_last() =~= s);
}

proof fn lemma_last_of_push(s: Seq<Command>, c: Command, id: u64)
    ensures
        last_with_id(s.push(c), id) == (if c.id == id {
            Some(c)
        } else {
            last_with_id(s, id)
        }),
{
    assert(s.push(c).drop_last() =~= s);
}

/// A command found by id has that id and occurs in the sequence; none is found
/// where no command has the id.
pub proof fn lemma_first_found(s: Seq<Command>, id: u64)
    ensures
        first_with_id(s, id) matches Some(c) ==> c.id == id && s.contains(c),
        first_with_id(s, id) is None <==> forall|i: int| 0 <= i < s.len() ==> s[i].id != id,
    decreases s.len(),
{
    if s.len() > 0 {
        lemma_first_found(s.drop_last(), id);
        if first_with_id(s.drop_last(), id) is Some {
            let c = first_with_id(s.drop_last(), id)->0;
            let i = s.drop_last().index_of(c);
            assert(s[i] == c);
        } else if s.last().id == id {
            assert(s[s.len() - 1] == s.last());
        } else {
            assert forall|i: int| 0 <= i < s.len() implies s[i].id != id by {
                if i < s.len() - 1 {
                    assert(s[i] == s.drop_last()[i]);
                }
            }
        }
        if first_with_id(s, id) is None {
            assert forall|i: int| 0 <= i < s.len() implies s[i].id != id by {
                if i < s.len() - 1 {
                    assert(s[i] == s.drop_last()[i]);
                }
            }
        }
    }
}

/// A last command found by id has that id and occurs in the sequence.
pub proof fn lemma_last_found(s: Seq<Command>, id: u64)
    ensures
        last_with_id(s, id) matches Some(c) ==> c.id == id && s.contains(c),
    decreases s.len(),
{
    if s.len() > 0 {
        lemma_last_found(s.drop_last(), id);
        if s.last().id == id {
            assert(s[s.len() - 1] == s.last());
        } else if last_with_id(s.drop_last(), id) is Some {
            let c = last_with_id(s.drop_last(), id)->0;
            let i = s.drop_last().index_of(c);
            assert(s[i] == c);
        }
    }
}

/// A first and a last command with an id exist together.
pub proof fn lemma_first_iff_last(s: Seq<Command>, id: u64)
    ensures
        first_with_id(s, id) is Some <==> last_with_id(s, id) is Some,
    decreases s.len(),
{
    if s.len() > 0 {
        lemma_first_iff_last(s.drop_last(), id);
    }
}

/// Puts `cmd` at its place by id, unless a command of its id is there already.
fn offer(out: &mut Vec<Command>, cmd: Command)
    requires
        ascending(old(out)@),
    ensures
        ascending(final(out)@),
        forall|c: Command| #[trigger]
            final(out)@.contains(c) <==> old(out)@.contains(c) || (c == cmd && forall|i: int|
                0 <= i < old(out)@.len() ==> old(out)@[i].id != cmd.id),
{
    let mut k: usize = 0;
    while k < out.len() && out[k].id < cmd.id
        invariant
            k <= out.len(),
            out@ == old(out)@,
            forall|i: int| 0 <= i < k ==> out@[i].id < cmd.id,
        decreases out.len() - k,
    {
        k = k + 1;
    }
    if k < out.len() && out[k].id == cmd.id {
        assert(old(out)@[k as int].id == cmd.id);
        return;
    }
    let ghost before = out@;
    out.insert(k, cmd);
    proof {
        assert(forall|i: int| 0 <= i < before.len() ==> before[i].id != cmd.id);
        assert(out@ == before.insert(k as int, cmd));
        assert forall|c: Command| #[trigger] out@.contains(c) <==> before.contains(c) || c
            == cmd by {
            if out@.contains(c) {
                let i = out@.index_of(c);
                if i < k {
                    assert(before[i] == c);
                } else if i > k {
                    assert(before[i - 1] == c);
                }
            }
            if before.contains(c) {
                let i = before.index_of(c);
                if i < k {
                    assert(out@[i] == c);
                } else {
                    assert(out@[i + 1] == c);
                }
            }
            if c == cmd {
                assert(out@[k as int] == c);
            }
        }
    }
}

impl RoleQueue {
    /// The signal that is given whenever a command is enqueued.
    pub closed spec fn signal(&self) -> Notify {
        *self.notify
    }

    /// A queue without commands, heard of at `now`.
    pub fn new(now: u128) -> (r: Self)
        ensures
            r@ == QueueState::fresh(now),
    {
        RoleQueue {
            notify: Arc::new(new_notify()),
            last_seen: now,
            undelivered: VecDeque::new(),
            inflight: BTreeMap::new(),
        }
    }

    /// Records that the role was heard of.
    pub fn touch(&mut self, now: u128)
        ensures
            final(self)@ == old(self)@.touched(now),
            final(self).signal() == old(self).signal(),
    {
        self.last_seen = now;
    }

    /// The signal that is given whenever a command is enqueued.
    pub fn notify(&self) -> (r: Arc<Notify>)
        ensures
            *r == self.signal(),
    {
        Arc::clone(&self.notify)
    }

    /// When the role was last heard of.
    pub fn last_seen(&self) -> (r: u128)
        ensures
            r == self@.last_seen,
    {
        self.last_seen
    }

    /// Adds a command and gives the signal that wakes the queue's polls.
    pub fn enqueue(&mut self, cmd: Command) -> (r: Wake)
        ensures
            final(self)@ == old(self)@.enqueued(cmd),
            final(self).signal() == old(self).signal(),
            r.signal() == final(self).signal(),
    {
        self.undelivered.push_back(cmd);
        wake_waiters(Arc::clone(&self.notify))
    }

    /// Adds the commands that have been in flight for too long.
    fn collect_due(&self, now: u128, out: &mut Vec<Command>)
        requires
            ascending(old(out)@),
            self@.wf(),
        ensures
            ascending(final(out)@),
            forall|c: Command| #[trigger]
                final(out)@.contains(c) <==> old(out)@.contains(c) || (self@.due(now, c.id)
                    && self@.inflight[c.id].0 == c && forall|i: int|
                    0 <= i < old(out)@.len() ==> old(out)@[i].id != c.id),
    {
        let ghost inflight = self.inflight@;
        let ghost start = out@;
        let ghost mut done: Set<u64> = Set::empty();
        broadcast use vstd::std_specs::btree::group_btree_axioms;

        for entry in it: self.inflight.iter()
            invariant
                inflight == self.inflight@,
                self@.wf(),
                ascending(out@),
                forall|c: Command| #[trigger]
                    out@.contains(c) <==> start.contains(c) || (done.contains(c.id)
                        && self@.due(now, c.id) && inflight[c.id].0 == c && forall|i: int|
                        0 <= i < start.len() ==> start[i].id != c.id),
                forall|id: u64| #[trigger]
                    done.contains(id) <==> exists|i: int|
                        0 <= i < it.index() && *it.seq()[i].0 == id,
        {
            let (id, flight) = entry;
            let ghost before = out@;
            let ghost seen = done;
            assert(inflight.contains_key(*id) && inflight[*id] == *flight);
            if time_since(now, flight.1) >= REDELIVER_AFTER {
                offer(out, flight.0.clone());
            }
            proof {
                done = seen.insert(*id);
                let cmd = flight.0;
                assert forall|c: Command| #[trigger]
                    out@.contains(c) <==> start.contains(c) || (done.contains(c.id) && self@.due(
                        now,
                        c.id,
                    ) && inflight[c.id].0 == c && forall|i: int|
                        0 <= i < start.len() ==> start[i].id != c.id) by {
                    if c == cmd && self@.due(now, *id) {
                        if forall|i: int| 0 <= i < start.len() ==> start[i].id != cmd.id {
                            assert forall|i: int| 0 <= i < before.len() && before[i].id
                                == cmd.id implies before[i] == cmd by {
                                assert(before.contains(before[i]));
                                if start.contains(before[i]) {
                                    let j = start.index_of(before[i]);
                                    assert(start[j].id == cmd.id);
                                }
                            }
                            if exists|i: int| 0 <= i < before.len() && before[i].id == cmd.id {
                                let i = choose|i: int|
                                    0 <= i < before.len() && before[i].id == cmd.id;
                                assert(before.contains(before[i]));
                            }
                        } else {
                            let i = choose|i: int|
                                0 <= i < start.len() && start[i].id == cmd.id;
                            assert(start.contains(start[i]));
                            assert(before.contains(start[i]));
                            let j = before.index_of(start[i]);
                            assert(before[j].id == cmd.id);
                        }
                    }
                }
            }
        }
    }

    /// Hands out the commands that a poll is owed.
    pub fn take_for_poll(&mut self, now: u128) -> (r: Vec<Command>)
        requires
            old(self)@.wf(),
        ensures
            final(self)@.wf(),
            old(self)@.is_batch(now, r@),
            final(self)@ == old(self)@.polled(now),
            final(self).signal() == old(self).signal(),
    {
        let mut out: Vec<Command> = Vec::new();
        let ghost start = self@;
        let ghost mut taken: Seq<Command> = Seq::empty();
        loop
            invariant
                taken + self.undelivered@ == start.undelivered,
                self.last_seen == start.last_seen,
                self.signal() == old(self).signal(),
                start == old(self)@,
                ascending(out@),
                forall|c: Command| #[trigger]
                    out@.contains(c) <==> first_with_id(taken, c.id) == Some(c),
                self.inflight@ =~= (QueueState { undelivered: taken, ..start }).polled(
                    now,
                ).inflight,
            ensures
                self.undelivered@.len() == 0,
                taken == start.undelivered,
            decreases self.undelivered@.len(),
        {
            let ghost rest = self.undelivered@;
            match self.undelivered.pop_front() {
                Some(cmd) => {
                    let ghost before = out@;
                    let ghost had = taken;
                    let id = cmd.id;
                    offer(&mut out, cmd.clone());
                    self.inflight.insert(id, (cmd, now));
                    proof {
                        taken = had.push(cmd);
                        assert(taken + self.undelivered@ =~= had + rest);
                        assert forall|c: Command| #[trigger]
                            out@.contains(c) <==> first_with_id(taken, c.id) == Some(c) by {
                            lemma_first_of_push(had, cmd, c.id);
                            lemma_first_found(had, cmd.id);
                            lemma_first_found(had, c.id);
                            if first_with_id(had, cmd.id) is Some {
                                assert(before.contains(first_with_id(had, cmd.id)->0));
                            }
                            if c == cmd && first_with_id(had, cmd.id) is None {
                                assert forall|i: int| 0 <= i < before.len() implies before[i].id
                                    != cmd.id by {
                                    assert(before.contains(before[i]));
                                    lemma_first_found(had, before[i].id);
                                }
                            }
                        }
                        assert forall|i: u64| #[trigger]
                            last_with_id(taken, i) == (if cmd.id == i {
                                Some(cmd)
                            } else {
                                last_with_id(had, i)
                            }) by {
                            lemma_last_of_push(had, cmd, i);
                        }
                    }
                },
                None => {
                    assert(taken =~= start.undelivered);
                    break;
                },
            }
        }
        let ghost queued = out@;
        proof {
            assert(self@ =~= start.polled(now));
            assert forall|id: u64| #[trigger] self@.inflight.contains_key(id) implies
                self@.inflight[id].0.id == id by {
                lemma_last_found(start.undelivered, id);
            }
        }
        self.collect_due(now, &mut out);
        proof {
            assert forall|c: Command| #[trigger] out@.contains(c) <==> start.owed(now, c.id)
                == Some(c) by {
                lemma_first_iff_last(start.undelivered, c.id);
                lemma_first_found(start.undelivered, c.id);
                if first_with_id(start.undelivered, c.id) is None {
                    assert forall|i: int| 0 <= i < queued.len() implies queued[i].id != c.id by {
                        assert(queued.contains(queued[i]));
                    }
                } else {
                    assert(queued.contains(first_with_id(start.undelivered, c.id)->0));
                }
            }
        }
        out
    }

    /// Forgets every command of this id.
    pub fn ack(&mut self, id: u64)
        ensures
            final(self)@ == old(self)@.acked(id),
            final(self).signal() == old(self).signal(),
    {
        self.inflight.remove(&id);
        let mut kept: VecDeque<Command> = VecDeque::new();
        let ghost all = self.undelivered@;
        let ghost keep = |c: Command| c.id != id;
        let ghost mut done: int = 0;
        assert(all.take(0).filter(keep) =~= Seq::<Command>::empty()) by {
            reveal(Seq::filter);
        }
        loop
            invariant
                0 <= done <= all.len(),
                self.undelivered@ == all.skip(done),
                kept@ == all.take(done).filter(keep),
                keep == (|c: Command| c.id != id),
                self.last_seen == old(self).last_seen,
                self.inflight@ == old(self).inflight@.remove(id),
                self.signal() == old(self).signal(),
            ensures
                done == all.len(),
            decreases all.len() - done,
        {
            match self.undelivered.pop_front() {
                Some(cmd) => {
                    proof {
                        reveal(Seq::filter);
                        assert(all.take(done + 1).drop_last() =~= all.take(done));
                        assert(all.take(done + 1).last() == cmd);
                        assert(self.undelivered@ =~= all.skip(done + 1));
                        done = done + 1;
                    }
                    if cmd.id != id {
                        kept.push_back(cmd);
                    }
                },
                None => {
                    break;
                },
            }
        }
        assert(all.take(done) =~= all);
        self.undelivered = kept;
    }
}

/// What a poll hands out is determined by the queue and the time.
pub proof fn law_batch_is_determined(q: QueueState, now: u128, a: Seq<Command>, b: Seq<Command>)
    requires
        q.is_batch(now, a),
        q.is_batch(now, b),
    ensures
        a == b,
{
    lemma_same_members_same_order(a, b);
}

proof fn lemma_same_members_same_order(a: Seq<Command>, b: Seq<Command>)
    requires
        ascending(a),
        ascending(b),
        forall|c: Command| #[trigger] a.contains(c) <==> b.contains(c),
    ensures
        a == b,
    decreases a.len(),
{
    if a.len() == 0 {
        if b.len() > 0 {
            assert(b.contains(b[0]));
            assert(a.contains(b[0]));
        }
        assert(a =~= b);
    } else {
        assert(a.contains(a.last()));
        let k = b.index_of(a.last());
        assert(b[k] == a.last());
        assert(b.contains(b.last()));
        assert(a.contains(b.last()));
        let m = a.index_of(b.last());
        assert(a[m] == b.last());
        assert(a.last() == b.last());
        let a1 = a.drop_last();
        let b1 = b.drop_last();
        assert forall|c: Command| #[trigger] a1.contains(c) <==> b1.contains(c) by {
            if a1.contains(c) {
                let i = a1.index_of(c);
                assert(a[i] == c);
                assert(a.contains(c));
                let j = b.index_of(c);
                assert(b[j] == c);
                assert(j != b.len() - 1);
                assert(b1[j] == c);
            }
            if b1.contains(c) {
                let i = b1.index_of(c);
                assert(b[i] == c);
                assert(b.contains(c));
                assert(a.contains(c));
                let j = a.index_of(c);
                assert(a[j] == c);
                assert(j != a.len() - 1);
                assert(a1[j] == c);
            }
        }
        lemma_same_members_same_order(a1, b1);
        assert(a =~= a1.push(a.last()));
        assert(b =~= b1.push(b.last()));
    }
}

/// The next poll hands out an enqueued command, unless an earlier command of
/// the same id is still undelivered: then it hands out that one.
pub proof fn law_enqueued_is_delivered(
    q: QueueState,
    cmd: Command,
    now: u128,
    batch: Seq<Command>,
)
    requires
        q.enqueued(cmd).is_batch(now, batch),
    ensures
        match first_with_id(q.undelivered, cmd.id) {
            None => batch.contains(cmd),
            Some(earlier) => batch.contains(earlier),
        },
{
    lemma_first_of_push(q.undelivered, cmd, cmd.id);
    lemma_first_found(q.undelivered, cmd.id);
    match first_with_id(q.undelivered, cmd.id) {
        None => assert(q.enqueued(cmd).owed(now, cmd.id) == Some(cmd)),
        Some(earlier) => assert(q.enqueued(cmd).owed(now, earlier.id) == Some(earlier)),
    }
}

/// Without the commands of an id none of it is found, and every other id is
/// found as before.
pub proof fn lemma_filter_by_id(s: Seq<Command>, id: u64)
    ensures
        without_id(without_id(s, id), id) == without_id(s, id),
        first_with_id(without_id(s, id), id) is None,
        forall|other: u64|
            other != id ==> #[trigger] first_with_id(without_id(s, id), other) == first_with_id(
                s,
                other,
            ),
    decreases s.len(),
{
    reveal(Seq::filter);
    if s.len() > 0 {
        lemma_filter_by_id(s.drop_last(), id);
        let rest = without_id(s.drop_last(), id);
        if s.last().id != id {
            assert(without_id(s, id) == rest.push(s.last()));
            assert(rest.push(s.last()).drop_last() =~= rest);
            assert forall|other: u64| other != id implies #[trigger] first_with_id(
                without_id(s, id),
                other,
            ) == first_with_id(s, other) by {
                lemma_first_of_push(rest, s.last(), other);
            }
            lemma_first_of_push(rest, s.last(), id);
        }
    }
}

/// An acknowledged command is not handed out again, however late the poll.
pub proof fn law_acked_is_forgotten(q: QueueState, id: u64, now: u128, batch: Seq<Command>)
    requires
        q.acked(id).is_batch(now, batch),
    ensures
        forall|i: int| 0 <= i < batch.len() ==> (#[trigger] batch[i]).id != id,
{
    lemma_filter_by_id(q.undelivered, id);
    assert forall|i: int| 0 <= i < batch.len() implies (#[trigger] batch[i]).id != id by {
        assert(batch.contains(batch[i]));
        assert(q.acked(id).owed(now, batch[i].id) == Some(batch[i]));
    }
}

/// A second acknowledgement changes nothing.
pub proof fn law_ack_is_idempotent(q: QueueState, id: u64)
    ensures
        q.acked(id).acked(id) == q.acked(id),
{
    lemma_filter_by_id(q.undelivered, id);
    assert(q.acked(id).acked(id) =~= q.acked(id));
}

/// An acknowledgement leaves what is owed under every other id.
pub proof fn law_ack_keeps_others(q: QueueState, id: u64, other: u64, now: u128)
    requires
        other != id,
    ensures
        q.acked(id).owed(now, other) == q.owed(now, other),
{
    lemma_filter_by_id(q.undelivered, id);
}

/// A command that a poll handed out and nobody acknowledged is owed again at
/// every time from [`REDELIVER_AFTER`] later on; where no two undelivered
/// commands had its id, it is that very command.
pub proof fn law_unacked_is_redelivered(
    q: QueueState,
    now: u128,
    batch: Seq<Command>,
    cmd: Command,
    later: u128,
)
    requires
        q.is_batch(now, batch),
        batch.contains(cmd),
        now + REDELIVER_AFTER <= later,
    ensures
        q.polled(now).owed(later, cmd.id) is Some,
        first_with_id(q.undelivered, cmd.id) == last_with_id(q.undelivered, cmd.id)
            ==> q.polled(now).owed(later, cmd.id) == Some(cmd),
{
    lemma_first_iff_last(q.undelivered, cmd.id);
    assert(q.owed(now, cmd.id) == Some(cmd));
    assert(q.polled(now).undelivered.len() == 0);
    assert(first_with_id(q.polled(now).undelivered, cmd.id) is None);
}

/// A command that a poll handed out for the first time is not owed again
/// before [`REDELIVER_AFTER`] has passed.
pub proof fn law_no_early_redelivery(q: QueueState, now: u128, id: u64, later: u128)
    requires
        first_with_id(q.undelivered, id) is Some,
        later < now + REDELIVER_AFTER,
    ensures
        q.polled(now).owed(later, id) is None,
{
    lemma_first_iff_last(q.undelivered, id);
    assert(first_with_id(q.polled(now).undelivered, id) is None);
}

/// No operation breaks the filing of the commands in flight.
pub proof fn law_queue_stays_well_formed(q: QueueState, now: u128, cmd: Command, id: u64)
    requires
        q.wf(),
    ensures
        QueueState::fresh(now).wf(),
        q.touched(now).wf(),
        q.enqueued(cmd).wf(),
        q.polled(now).wf(),
        q.acked(id).wf(),
{
    assert forall|k: u64| #[trigger] q.polled(now).inflight.contains_key(k) implies q.polled(
        now,
    ).inflight[k].0.id == k by {
        lemma_last_found(q.undelivered, k);
    }
}

} // verus!
