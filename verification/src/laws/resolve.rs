//! What the choice of a session does.
use crate::adapter::resolve::{
    answers_to, candidates, describe, description, first_match, is_live, is_role_live, live,
    live_ones, resolution, resolve_session,
};
use crate::laws::text::{base_ten, law_decimal_stands_for_its_number, plain_digits};
use crate::protocol::{LiveState, Role, SessionInfo};
use vstd::prelude::*;

verus! {

/// Whether a session is listed under this id or this label.
pub open spec fn goes_by(s: SessionInfo, name: Seq<char>) -> bool {
    ||| s.session_id@ == name
    ||| s.label is Some && s.label->0@ == name
}

/// Whether a role of the session is listed as live.
pub open spec fn has_live(s: SessionInfo) -> bool {
    exists|i: int| 0 <= i < s.roles@.len() && (#[trigger] s.roles@[i]).state == LiveState::Live
}

/// Whether the session is the first one that goes by this name.
pub open spec fn first_by(sessions: Seq<SessionInfo>, name: Seq<char>, i: int) -> bool {
    &&& 0 <= i < sessions.len()
    &&& goes_by(sessions[i], name)
    &&& forall|j: int| 0 <= j < i ==> !goes_by(#[trigger] sessions[j], name)
}

/// A session is live where one of its roles is, and a role is live where the
/// listing says so of that role.
pub proof fn law_listed_liveness(s: &SessionInfo, role: Role, any: bool, one: bool)
    requires
        call_ensures(is_live, (s,), any),
        call_ensures(is_role_live, (s, role), one),
    ensures
        any <==> exists|i: int|
            0 <= i < s.roles@.len() && (#[trigger] s.roles@[i]).state == LiveState::Live,
        one <==> exists|i: int|
            0 <= i < s.roles@.len() && (#[trigger] s.roles@[i]).role == role && s.roles@[i].state
                == LiveState::Live,
{
}

/// A session is described by its label, where it has one, its place, or a
/// stand-in for an unnamed one, and its id.
pub proof fn law_description(s: &SessionInfo, r: String)
    requires
        call_ensures(describe, (s,), r),
    ensures
        ({
            let place = if s.place_name@.len() > 0 {
                s.place_name@
            } else {
                "<unnamed>"@
            };
            &&& s.label is Some ==> r@ == "'"@ + s.label->0@ + "' ("@ + place + ", id "@
                + s.session_id@ + ")"@
            &&& s.label is None ==> r@ == place + " (id "@ + s.session_id@ + ")"@
        }),
{
}

/// The descriptions of several sessions follow each other with a semicolon in
/// between.
pub proof fn law_candidates_are_joined(some: Seq<SessionInfo>, s: SessionInfo)
    ensures
        candidates(seq![s]) == description(s),
        some.len() > 0 ==> candidates(some.push(s)) == candidates(some) + "; "@ + description(s),
{
    assert(some.push(s).drop_last() =~= some);
}

proof fn lemma_first(sessions: Seq<SessionInfo>, name: Seq<char>)
    ensures
        match first_match(sessions, name) {
            Some(s) => exists|i: int| #[trigger]
                first_by(sessions, name, i) && sessions[i] == s,
            None => forall|i: int|
                0 <= i < sessions.len() ==> !goes_by(#[trigger] sessions[i], name),
        },
    decreases sessions.len(),
{
    if sessions.len() > 0 {
        assert(answers_to(sessions[0], name) <==> goes_by(sessions[0], name));
        if answers_to(sessions[0], name) {
            assert(first_by(sessions, name, 0));
        } else {
            let rest = sessions.drop_first();
            lemma_first(rest, name);
            match first_match(rest, name) {
                Some(s) => {
                    let i = choose|i: int| #[trigger]
                        first_by(rest, name, i) && rest[i] == s;
                    assert(sessions[i + 1] == s);
                    assert forall|j: int| 0 <= j < i + 1 implies !goes_by(
                        #[trigger] sessions[j],
                        name,
                    ) by {
                        if j > 0 {
                            assert(rest[j - 1] == sessions[j]);
                        }
                    }
                    assert(first_by(sessions, name, i + 1));
                },
                None => {
                    assert forall|i: int| 0 <= i < sessions.len() implies !goes_by(
                        #[trigger] sessions[i],
                        name,
                    ) by {
                        if i > 0 {
                            assert(rest[i - 1] == sessions[i]);
                        }
                    }
                },
            }
        }
    }
}

/// A name chooses the first listed session that goes by it, live or not, and is
/// refused where none does.
pub proof fn lemma_named(sessions: Seq<SessionInfo>, name: Seq<char>)
    ensures
        match resolution(sessions, Some(name)) {
            Ok(id) => exists|i: int| #[trigger]
                first_by(sessions, name, i) && sessions[i].session_id@ == id,
            Err(m) => {
                &&& forall|i: int|
                    0 <= i < sessions.len() ==> !goes_by(#[trigger] sessions[i], name)
                &&& m == "no connected session matches '"@ + name
                    + "'. Call list_sessions to see the open places and their ids/labels."@
            },
        },
{
    lemma_first(sessions, name);
}

/// A name chooses the first listed session that goes by it, live or not, and is
/// refused where none does.
pub proof fn law_named_session_is_chosen(
    sessions: &[SessionInfo],
    name: &str,
    r: Result<String, String>,
)
    requires
        call_ensures(resolve_session, (sessions, Some(name)), r),
    ensures
        r is Ok ==> exists|i: int| #[trigger]
            first_by(sessions@, name@, i) && sessions@[i].session_id@ == r->Ok_0@,
        r is Err ==> forall|i: int|
            0 <= i < sessions@.len() ==> !goes_by(#[trigger] sessions@[i], name@),
        r is Err ==> r->Err_0@ == "no connected session matches '"@ + name@
            + "'. Call list_sessions to see the open places and their ids/labels."@,
{
    lemma_named(sessions@, name@);
}

proof fn lemma_live_ones(sessions: Seq<SessionInfo>)
    ensures
        live_ones(sessions).len() == 0 <==> forall|i: int|
            0 <= i < sessions.len() ==> !has_live(#[trigger] sessions[i]),
        live_ones(sessions).len() == 1 ==> exists|i: int|
            0 <= i < sessions.len() && has_live(#[trigger] sessions[i]) && live_ones(sessions)[0]
                == sessions[i] && forall|j: int|
                0 <= j < sessions.len() && j != i ==> !has_live(#[trigger] sessions[j]),
        live_ones(sessions).len() > 1 ==> exists|i: int, j: int|
            0 <= i < j < sessions.len() && has_live(#[trigger] sessions[i]) && has_live(
                #[trigger] sessions[j],
            ),
    decreases sessions.len(),
{
    reveal(Seq::filter);
    if sessions.len() > 0 {
        let front = sessions.drop_last();
        let s = sessions.last();
        let n = sessions.len() - 1;
        lemma_live_ones(front);
        assert(live(s) <==> has_live(s));
        assert(sessions[n] == s);
        assert forall|i: int| 0 <= i < n implies #[trigger] sessions[i] == front[i] by {}
        let before = live_ones(front);
        if live(s) {
            assert(live_ones(sessions) == before.push(s));
            if before.len() == 0 {
                assert forall|j: int| 0 <= j < sessions.len() && j != n implies !has_live(
                    #[trigger] sessions[j],
                ) by {
                    assert(front[j] == sessions[j]);
                }
                assert(has_live(sessions[n]));
            } else {
                let i = if before.len() == 1 {
                    choose|i: int|
                        0 <= i < front.len() && has_live(#[trigger] front[i]) && before[0]
                            == front[i]
                } else {
                    let (i, j) = choose|i: int, j: int|
                        0 <= i < j < front.len() && has_live(#[trigger] front[i]) && has_live(
                            #[trigger] front[j],
                        );
                    i
                };
                assert(0 <= i < front.len() && has_live(front[i]));
                assert(has_live(sessions[i]));
                assert(has_live(sessions[n]));
            }
        } else {
            assert(live_ones(sessions) == before);
            if before.len() == 0 {
                assert forall|i: int| 0 <= i < sessions.len() implies !has_live(
                    #[trigger] sessions[i],
                ) by {
                    if i < n {
                        assert(front[i] == sessions[i]);
                    }
                }
            } else if before.len() == 1 {
                let i = choose|i: int|
                    0 <= i < front.len() && has_live(#[trigger] front[i]) && before[0] == front[i]
                        && forall|j: int|
                        0 <= j < front.len() && j != i ==> !has_live(#[trigger] front[j]);
                assert(sessions[i] == front[i]);
                assert forall|j: int| 0 <= j < sessions.len() && j != i implies !has_live(
                    #[trigger] sessions[j],
                ) by {
                    if j < n {
                        assert(front[j] == sessions[j]);
                    }
                }
            } else {
                let (i, j) = choose|i: int, j: int|
                    0 <= i < j < front.len() && has_live(#[trigger] front[i]) && has_live(
                        #[trigger] front[j],
                    );
                assert(has_live(sessions[i]) && has_live(sessions[j]));
            }
        }
    }
}

/// Without a name the only live session is chosen. With none live, and with
/// several, the call is refused.
pub proof fn lemma_unnamed(sessions: Seq<SessionInfo>)
    ensures
        match resolution(sessions, None) {
            Ok(id) => exists|i: int|
                0 <= i < sessions.len() && has_live(#[trigger] sessions[i])
                    && sessions[i].session_id@ == id && forall|j: int|
                    0 <= j < sessions.len() && j != i ==> !has_live(#[trigger] sessions[j]),
            Err(m) => {
                ||| forall|i: int| 0 <= i < sessions.len() ==> !has_live(#[trigger] sessions[i])
                ||| exists|i: int, j: int|
                    0 <= i < j < sessions.len() && has_live(#[trigger] sessions[i]) && has_live(
                        #[trigger] sessions[j],
                    )
            },
        },
{
    lemma_live_ones(sessions);
    if live_ones(sessions).len() == 1 {
        let i = choose|i: int|
            0 <= i < sessions.len() && has_live(#[trigger] sessions[i]) && live_ones(sessions)[0]
                == sessions[i] && forall|j: int|
                0 <= j < sessions.len() && j != i ==> !has_live(#[trigger] sessions[j]);
        assert(sessions[i].session_id@ == live_ones(sessions)[0].session_id@);
    }
}

/// Without a name the only live session is chosen. With none live, and with
/// several, the call is refused; the message then says that none is, or how many
/// are and which.
pub proof fn law_only_live_session_is_chosen(sessions: &[SessionInfo], r: Result<String, String>)
    requires
        call_ensures(resolve_session, (sessions, None), r),
    ensures
        r is Ok ==> exists|i: int|
            0 <= i < sessions@.len() && has_live(#[trigger] sessions@[i])
                && sessions@[i].session_id@ == r->Ok_0@ && forall|j: int|
                0 <= j < sessions@.len() && j != i ==> !has_live(#[trigger] sessions@[j]),
        r is Err ==> {
            ||| r->Err_0@
                == "no live Studio sessions are connected. Open the place in Studio with the Dust plugin enabled (and 'Allow HTTP Requests' on), call list_sessions to see that it is there, then retry."@
                && forall|i: int| 0 <= i < sessions@.len() ==> !has_live(#[trigger] sessions@[i])
            ||| {
                &&& exists|i: int, j: int|
                    0 <= i < j < sessions@.len() && has_live(#[trigger] sessions@[i]) && has_live(
                        #[trigger] sessions@[j],
                    )
                &&& exists|count: Seq<char>| #[trigger]
                    plain_digits(count) && base_ten(count) == sessions@.filter(
                        |s: SessionInfo| has_live(s),
                    ).len() && r->Err_0@ == count
                        + " live Studio sessions are connected; refusing to guess which place to target. Call list_sessions, then pass session=<id or label>. Candidates: "@
                        + candidates(sessions@.filter(|s: SessionInfo| has_live(s)))
            }
        },
{
    lemma_unnamed(sessions@);
    lemma_live_ones(sessions@);
    let found = live_ones(sessions@);
    law_decimal_stands_for_its_number(found.len());
    assert((|s: SessionInfo| live(s)) =~= (|s: SessionInfo| has_live(s)));
    assert(found == sessions@.filter(|s: SessionInfo| has_live(s)));
}

} // verus!
