//! What the operations on a command queue do.
use crate::broker::queue::{
    first_with_id, last_with_id, lemma_first_found, lemma_first_iff_last, time_since, RoleQueue,
};
use crate::broker::signal::Wake;
use crate::protocol::Command;
use std::sync::Arc;
use tokio::sync::Notify;
use vstd::prelude::*;

verus! {

/// The time between two points in time, in either order of the two.
pub proof fn law_time_since(now: u128, then: u128, r: u128)
    requires
        call_ensures(time_since, (now, then), r),
    ensures
        then <= now ==> then + r == now,
        now < then ==> r == 0,
{
}

/// A new queue is empty and was heard of when it was made.
pub proof fn law_new_queue(now: u128, r: RoleQueue)
    requires
        call_ensures(RoleQueue::new, (now,), r),
    ensures
        r@.last_seen == now,
        r@.undelivered.len() == 0,
        forall|k: u64| !(#[trigger] r@.inflight.contains_key(k)),
{
}

/// To be heard of changes the time of that and nothing else.
pub proof fn law_touch(q: &mut RoleQueue, now: u128)
    requires
        call_ensures(RoleQueue::touch, (q, now), ()),
    ensures
        final(q)@.last_seen == now,
        final(q)@.undelivered == old(q)@.undelivered,
        final(q)@.inflight == old(q)@.inflight,
        final(q).signal() == old(q).signal(),
{
}

/// What is read of a queue is what it holds.
pub proof fn law_queue_is_read(q: &RoleQueue, seen: u128, notify: Arc<Notify>)
    requires
        call_ensures(RoleQueue::last_seen, (q,), seen),
        call_ensures(RoleQueue::notify, (q,), notify),
    ensures
        seen == q@.last_seen,
        *notify == q.signal(),
{
}

/// A command that is added comes last, changes nothing else, and gives the
/// queue's own signal.
pub proof fn law_enqueue(q: &mut RoleQueue, cmd: Command, r: Wake)
    requires
        call_ensures(RoleQueue::enqueue, (q, cmd), r),
    ensures
        final(q)@.undelivered == old(q)@.undelivered.push(cmd),
        final(q)@.inflight == old(q)@.inflight,
        final(q)@.last_seen == old(q)@.last_seen,
        final(q).signal() == old(q).signal(),
        r.signal() == old(q).signal(),
{
}

/// An acknowledgement removes the commands of its id, undelivered or in flight,
/// and no others, and keeps the others in their order.
pub proof fn law_ack(q: &mut RoleQueue, id: u64)
    requires
        call_ensures(RoleQueue::ack, (q, id), ()),
    ensures
        final(q)@.undelivered == old(q)@.undelivered.filter(|c: Command| c.id != id),
        forall|k: u64| #[trigger]
            final(q)@.inflight.contains_key(k) <==> k != id && old(q)@.inflight.contains_key(k),
        forall|k: u64| #[trigger]
            final(q)@.inflight.contains_key(k) ==> final(q)@.inflight[k] == old(q)@.inflight[k],
        final(q)@.last_seen == old(q)@.last_seen,
        final(q).signal() == old(q).signal(),
{
}

/// Whether the command is at this place, with none of its id before it.
pub open spec fn first_at(s: Seq<Command>, i: int) -> bool {
    0 <= i < s.len() && forall|j: int| 0 <= j < i ==> (#[trigger] s[j]).id != s[i].id
}

/// Whether the command is at this place, with none of its id after it.
pub open spec fn last_at(s: Seq<Command>, i: int) -> bool {
    0 <= i < s.len() && forall|j: int| i < j < s.len() ==> (#[trigger] s[j]).id != s[i].id
}

/// Whether a command of the sequence has this id.
pub open spec fn has_id(s: Seq<Command>, id: u64) -> bool {
    exists|i: int| 0 <= i < s.len() && (#[trigger] s[i]).id == id
}

proof fn lemma_first_at(s: Seq<Command>, i: int)
    requires
        first_at(s, i),
    ensures
        first_with_id(s, s[i].id) == Some(s[i]),
    decreases s.len(),
{
    let front = s.drop_last();
    if i < s.len() - 1 {
        assert(front[i] == s[i]);
        assert forall|j: int| 0 <= j < i implies (#[trigger] front[j]).id != front[i].id by {
            assert(front[j] == s[j]);
        }
        lemma_first_at(front, i);
    } else {
        lemma_first_found(front, s[i].id);
        assert forall|j: int| 0 <= j < front.len() implies front[j].id != s[i].id by {
            assert(front[j] == s[j]);
        }
    }
}

proof fn lemma_first_is_at(s: Seq<Command>, id: u64) -> (i: int)
    requires
        first_with_id(s, id) is Some,
    ensures
        first_at(s, i),
        s[i] == first_with_id(s, id)->0,
        s[i].id == id,
    decreases s.len(),
{
    let front = s.drop_last();
    if first_with_id(front, id) is Some {
        let i = lemma_first_is_at(front, id);
        assert forall|j: int| 0 <= j < i implies (#[trigger] s[j]).id != s[i].id by {
            assert(front[j] == s[j]);
        }
        i
    } else {
        lemma_first_found(front, id);
        let i = s.len() - 1;
        assert forall|j: int| 0 <= j < i implies (#[trigger] s[j]).id != s[i].id by {
            assert(front[j] == s[j]);
        }
        i
    }
}

proof fn lemma_last_is_at(s: Seq<Command>, id: u64) -> (i: int)
    requires
        last_with_id(s, id) is Some,
    ensures
        last_at(s, i),
        s[i] == last_with_id(s, id)->0,
        s[i].id == id,
    decreases s.len(),
{
    if s.last().id == id {
        s.len() - 1
    } else {
        let front = s.drop_last();
        let i = lemma_last_is_at(front, id);
        assert forall|j: int| i < j < s.len() implies (#[trigger] s[j]).id != s[i].id by {
            if j < s.len() - 1 {
                assert(front[j] == s[j]);
            }
        }
        i
    }
}

proof fn lemma_ids_agree(s: Seq<Command>, id: u64)
    ensures
        has_id(s, id) <==> first_with_id(s, id) is Some,
        has_id(s, id) <==> last_with_id(s, id) is Some,
{
    lemma_first_found(s, id);
    lemma_first_iff_last(s, id);
    if has_id(s, id) {
        let i = choose|i: int| 0 <= i < s.len() && (#[trigger] s[i]).id == id;
        assert(s[i].id == id);
    }
}

/// A poll is handed, by increasing id, the first undelivered command of every id
/// and every command that has been in flight for fifteen seconds, unless a newer
/// one of its id was undelivered; and nothing else.
pub proof fn law_poll_is_handed_what_it_is_owed(q: &mut RoleQueue, now: u128, r: Vec<Command>)
    requires
        old(q)@.wf(),
        call_ensures(RoleQueue::take_for_poll, (q, now), r),
    ensures
        forall|i: int, j: int| 0 <= i < j < r@.len() ==> r@[i].id < r@[j].id,
        forall|i: int|
            #![trigger old(q)@.undelivered[i]]
            first_at(old(q)@.undelivered, i) ==> r@.contains(old(q)@.undelivered[i]),
        forall|k: u64| #[trigger]
            old(q)@.inflight.contains_key(k) && !has_id(old(q)@.undelivered, k) ==> (r@.contains(
                old(q)@.inflight[k].0,
            ) <==> now - old(q)@.inflight[k].1 >= 15_000_000_000),
        forall|n: int|
            0 <= n < r@.len() ==> {
                let c = #[trigger] r@[n];
                ||| exists|i: int|
                    first_at(old(q)@.undelivered, i) && #[trigger] old(q)@.undelivered[i] == c
                ||| old(q)@.inflight.contains_key(c.id) && old(q)@.inflight[c.id].0 == c
                    && !has_id(old(q)@.undelivered, c.id)
            },
{
    let u = old(q)@.undelivered;
    assert forall|i: int| #![trigger u[i]] first_at(u, i) implies r@.contains(u[i]) by {
        lemma_first_at(u, i);
        assert(old(q)@.owed(now, u[i].id) == Some(u[i]));
    }
    assert forall|k: u64| #[trigger]
        old(q)@.inflight.contains_key(k) && !has_id(u, k) implies (r@.contains(
        old(q)@.inflight[k].0,
    ) <==> now - old(q)@.inflight[k].1 >= 15_000_000_000) by {
        lemma_ids_agree(u, k);
        assert(old(q)@.inflight[k].0.id == k);
    }
    assert forall|n: int| 0 <= n < r@.len() implies {
        let c = #[trigger] r@[n];
        ||| exists|i: int| first_at(u, i) && #[trigger] u[i] == c
        ||| old(q)@.inflight.contains_key(c.id) && old(q)@.inflight[c.id].0 == c && !has_id(
            u,
            c.id,
        )
    } by {
        let c = r@[n];
        assert(r@.contains(c));
        lemma_ids_agree(u, c.id);
        if has_id(u, c.id) {
            let i = lemma_first_is_at(u, c.id);
            assert(u[i] == c);
        }
    }
}

/// A poll leaves nothing undelivered and loses nothing: the last undelivered
/// command of every id is in flight since now, and what was in flight under
/// another id is so as before.
pub proof fn law_poll_loses_nothing(q: &mut RoleQueue, now: u128, r: Vec<Command>)
    requires
        old(q)@.wf(),
        call_ensures(RoleQueue::take_for_poll, (q, now), r),
    ensures
        final(q)@.undelivered.len() == 0,
        final(q)@.last_seen == old(q)@.last_seen,
        final(q).signal() == old(q).signal(),
        forall|k: u64| #[trigger]
            final(q)@.inflight.contains_key(k) <==> old(q)@.inflight.contains_key(k) || has_id(
                old(q)@.undelivered,
                k,
            ),
        forall|i: int|
            #![trigger old(q)@.undelivered[i]]
            last_at(old(q)@.undelivered, i) ==> final(q)@.inflight[old(q)@.undelivered[i].id] == (
                old(q)@.undelivered[i],
                now,
            ),
        forall|k: u64| #[trigger]
            old(q)@.inflight.contains_key(k) && !has_id(old(q)@.undelivered, k)
                ==> final(q)@.inflight[k] == old(q)@.inflight[k],
{
    let u = old(q)@.undelivered;
    assert forall|k: u64| #[trigger]
        final(q)@.inflight.contains_key(k) <==> old(q)@.inflight.contains_key(k) || has_id(
            u,
            k,
        ) by {
        lemma_ids_agree(u, k);
    }
    assert forall|i: int| #![trigger u[i]] last_at(u, i) implies final(q)@.inflight[u[i].id] == (
        u[i],
        now,
    ) by {
        assert(has_id(u, u[i].id));
        lemma_ids_agree(u, u[i].id);
        let j = lemma_last_is_at(u, u[i].id);
        assert(i == j) by {
            if i < j {
                assert(u[j].id != u[i].id);
            } else if j < i {
                assert(u[i].id != u[j].id);
            }
        }
    }
    assert forall|k: u64| #[trigger]
        old(q)@.inflight.contains_key(k) && !has_id(u, k) implies final(q)@.inflight[k]
        == old(q)@.inflight[k] by {
        lemma_ids_agree(u, k);
    }
}

} // verus!
