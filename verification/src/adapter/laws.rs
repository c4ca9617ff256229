//! What holds of the adapter as a whole, and of the adapter with the broker.
use crate::adapter::broker_client::CLIENT_TIMEOUT_SLACK;
use crate::adapter::resolve::{answers_to, first_match, live, live_ones, resolution};
use crate::adapter::spawn::recognized;
use crate::broker::routes::{CommandRequest, Credentials};
use crate::broker::session::NANOS_PER_MILLI;
use crate::broker::BrokerState;
use crate::protocol::{BrokerInfo, SessionInfo, PROTOCOL_VERSION};
use vstd::prelude::*;

verus! {

/// What a selector finds is a listed session that goes by it, and it finds one
/// if there is any.
pub proof fn law_selector_finds(sessions: Seq<SessionInfo>, selector: Seq<char>)
    ensures
        match first_match(sessions, selector) {
            Some(s) => sessions.contains(s) && answers_to(s, selector),
            None => forall|i: int|
                0 <= i < sessions.len() ==> !answers_to(#[trigger] sessions[i], selector),
        },
    decreases sessions.len(),
{
    if sessions.len() > 0 {
        if answers_to(sessions[0], selector) {
            assert(sessions.contains(sessions[0]));
        } else {
            let rest = sessions.drop_first();
            law_selector_finds(rest, selector);
            match first_match(rest, selector) {
                Some(s) => {
                    let i = choose|i: int| 0 <= i < rest.len() && rest[i] == s;
                    assert(sessions[i + 1] == s);
                },
                None => {
                    assert forall|i: int| 0 <= i < sessions.len() implies !answers_to(
                        #[trigger] sessions[i],
                        selector,
                    ) by {
                        if i > 0 {
                            assert(sessions[i] == rest[i - 1]);
                        }
                    }
                },
            }
        }
    }
}

/// Whether the id is that of a listed session that the selector allows: one
/// that goes by it, or, without a selector, a live one.
pub open spec fn allowed(
    sessions: Seq<SessionInfo>,
    selector: Option<Seq<char>>,
    id: Seq<char>,
) -> bool {
    exists|i: int|
        0 <= i < sessions.len() && (#[trigger] sessions[i]).session_id@ == id && match selector {
            Some(sel) => answers_to(sessions[i], sel),
            None => live(sessions[i]),
        }
}

/// A call is only ever meant for a listed session that the selector allows.
pub proof fn law_resolution_is_listed(sessions: Seq<SessionInfo>, selector: Option<Seq<char>>)
    ensures
        resolution(sessions, selector) matches Ok(id) ==> allowed(sessions, selector, id),
{
    match selector {
        Some(sel) => {
            law_selector_finds(sessions, sel);
            if let Some(s) = first_match(sessions, sel) {
                let i = choose|i: int| 0 <= i < sessions.len() && sessions[i] == s;
                assert(sessions[i].session_id@ == s.session_id@);
            }
        },
        None => {
            let pred = |s: SessionInfo| live(s);
            let found = live_ones(sessions);
            if found.len() == 1 {
                assert(found.contains(found[0]));
                sessions.lemma_filter_contains_rev(pred, found[0]);
                assert(live(found[0])) by {
                    sessions.lemma_filter_pred(pred, 0);
                }
                let i = choose|i: int| 0 <= i < sessions.len() && sessions[i] == found[0];
                assert(sessions[i].session_id@ == found[0].session_id@);
            }
        },
    }
}

/// A call without a selector is refused where two sessions are live: there is
/// no guessing between them.
pub proof fn law_no_guessing(sessions: Seq<SessionInfo>, i: int, j: int)
    requires
        0 <= i < j < sessions.len(),
        live(sessions[i]),
        live(sessions[j]),
    ensures
        resolution(sessions, None) is Err,
{
    let pred = |s: SessionInfo| live(s);
    let front = sessions.take(j);
    let back = sessions.skip(j);
    assert(sessions =~= front + back);
    Seq::filter_distributes_over_add(front, back, pred);
    assert(front[i] == sessions[i] && back[0] == sessions[j]);
    front.lemma_filter_contains(pred, i);
    back.lemma_filter_contains(pred, 0);
    assert(front.filter(pred).len() > 0);
    assert(back.filter(pred).len() > 0);
}

/// A call without a selector goes to the only live session.
pub proof fn law_only_live_is_default(sessions: Seq<SessionInfo>, i: int)
    requires
        0 <= i < sessions.len(),
        live(sessions[i]),
        forall|j: int| 0 <= j < sessions.len() && j != i ==> !live(#[trigger] sessions[j]),
    ensures
        resolution(sessions, None) == Ok::<Seq<char>, Seq<char>>(sessions[i].session_id@),
{
    let pred = |s: SessionInfo| live(s);
    lemma_one_passes(sessions, pred, i);
}

proof fn lemma_none_pass<A>(s: Seq<A>, pred: spec_fn(A) -> bool)
    requires
        forall|j: int| 0 <= j < s.len() ==> !pred(#[trigger] s[j]),
    ensures
        s.filter(pred) == Seq::<A>::empty(),
    decreases s.len(),
{
    reveal(Seq::filter);
    if s.len() > 0 {
        lemma_none_pass(s.drop_last(), pred);
    }
}

proof fn lemma_one_passes<A>(s: Seq<A>, pred: spec_fn(A) -> bool, i: int)
    requires
        0 <= i < s.len(),
        pred(s[i]),
        forall|j: int| 0 <= j < s.len() && j != i ==> !pred(#[trigger] s[j]),
    ensures
        s.filter(pred) == seq![s[i]],
    decreases s.len(),
{
    reveal(Seq::filter);
    if i == s.len() - 1 {
        lemma_none_pass(s.drop_last(), pred);
        assert(s.filter(pred) =~= seq![s[i]]);
    } else {
        lemma_one_passes(s.drop_last(), pred, i);
        assert(!pred(s[s.len() - 1]));
    }
}

/// A call without a selector is refused where no session is live, and a session
/// that is not live is then still reached by its id or label.
pub proof fn law_selector_reaches_the_silent(sessions: Seq<SessionInfo>, i: int)
    requires
        0 <= i < sessions.len(),
        forall|j: int| 0 <= j < sessions.len() ==> !live(#[trigger] sessions[j]),
    ensures
        resolution(sessions, None) is Err,
        resolution(sessions, Some(sessions[i].session_id@)) is Ok,
        sessions[i].label is Some ==> resolution(sessions, Some(sessions[i].label->0@)) is Ok,
{
    lemma_none_pass(sessions, |s: SessionInfo| live(s));
    law_selector_finds(sessions, sessions[i].session_id@);
    assert(answers_to(sessions[i], sessions[i].session_id@));
    if sessions[i].label is Some {
        law_selector_finds(sessions, sessions[i].label->0@);
        assert(answers_to(sessions[i], sessions[i].label->0@));
    }
}

/// The broker lets in the adapter that presents the token of the rendezvous
/// file after `Bearer `, whatever else the adapter presents.
pub proof fn law_bearer_is_let_in(credentials: Credentials, token: Seq<char>)
    requires
        credentials.authorization is Some,
        credentials.authorization->0@ == "Bearer "@ + token,
    ensures
        credentials.token() == Some(token),
{
    let text = credentials.authorization->0@;
    assert("Bearer "@.is_prefix_of(text)) by {
        assert(text.take("Bearer "@.len() as int) =~= "Bearer "@);
    }
    assert(text.skip("Bearer "@.len() as int) =~= token);
}

/// The adapter waits longer for the answer to a command than the broker waits
/// for its result, so the broker's own answer arrives.
pub proof fn law_adapter_outwaits_broker(req: CommandRequest, timeout_ms: u64)
    requires
        req.timeout_ms == Some(timeout_ms),
    ensures
        req.timeout() < timeout_ms * NANOS_PER_MILLI + CLIENT_TIMEOUT_SLACK,
{
}

/// An adapter recognizes the broker that wrote the rendezvous file.
pub proof fn law_own_broker_is_recognized(st: BrokerState, info: BrokerInfo)
    requires
        info.broker_uuid == st.health.broker_uuid,
        st.health.protocol == PROTOCOL_VERSION,
    ensures
        recognized(info, Some(st.health)),
{
}

/// An adapter does not take one broker for another.
pub proof fn law_foreign_broker_is_not_recognized(st: BrokerState, info: BrokerInfo)
    requires
        info.broker_uuid@ != st.health.broker_uuid@ || st.health.protocol != PROTOCOL_VERSION,
    ensures
        !recognized(info, Some(st.health)),
{
}

} // verus!
