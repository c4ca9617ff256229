//! The choice of the session that a tool call is meant for.
use crate::protocol::{LiveState, Role, SessionInfo};
use crate::text::{decimal, decimal_text};
use vstd::prelude::*;

verus! {

/// Whether a role of the session is live.
pub open spec fn live(s: SessionInfo) -> bool {
    exists|i: int| 0 <= i < s.roles@.len() && (#[trigger] s.roles@[i]).state == LiveState::Live
}

/// Computes [`live`].
pub fn is_live(s: &SessionInfo) -> (r: bool)
    ensures
        r == live(*s),
{
    for i in 0..s.roles.len()
        invariant
            forall|j: int| 0 <= j < i ==> (#[trigger] s.roles@[j]).state != LiveState::Live,
    {
        if s.roles[i].state == LiveState::Live {
            return true;
        }
    }
    false
}

/// Whether the session has the role, and the role is live.
pub open spec fn role_live(s: SessionInfo, role: Role) -> bool {
    exists|i: int|
        0 <= i < s.roles@.len() && (#[trigger] s.roles@[i]).role == role && s.roles@[i].state
            == LiveState::Live
}

/// Computes [`role_live`].
pub fn is_role_live(s: &SessionInfo, role: Role) -> (r: bool)
    ensures
        r == role_live(*s, role),
{
    for i in 0..s.roles.len()
        invariant
            forall|j: int|
                0 <= j < i ==> !((#[trigger] s.roles@[j]).role == role && s.roles@[j].state
                    == LiveState::Live),
    {
        if s.roles[i].role == role && s.roles[i].state == LiveState::Live {
            return true;
        }
    }
    false
}

/// The name of a place, or a stand-in for an empty one.
pub open spec fn place_text(s: SessionInfo) -> Seq<char> {
    if s.place_name@.len() == 0 {
        "<unnamed>"@
    } else {
        s.place_name@
    }
}

/// How a session is named to a person: its label where it has one, its place
/// and its id.
pub open spec fn description(s: SessionInfo) -> Seq<char> {
    match s.label {
        Some(label) => "'"@ + label@ + "' ("@ + place_text(s) + ", id "@ + s.session_id@ + ")"@,
        None => place_text(s) + " (id "@ + s.session_id@ + ")"@,
    }
}

/// Computes [`description`].
pub fn describe(s: &SessionInfo) -> (r: String)
    ensures
        r@ == description(*s),
{
    let name = if s.place_name.as_str().is_empty() {
        "<unnamed>"
    } else {
        s.place_name.as_str()
    };
    match &s.label {
        Some(label) => "'".to_string().concat(label.as_str()).concat("' (").concat(name).concat(
            ", id ",
        ).concat(s.session_id.as_str()).concat(")"),
        None => name.to_string().concat(" (id ").concat(s.session_id.as_str()).concat(")"),
    }
}

/// The descriptions of the sessions with `; ` between them.
pub open spec fn candidates(sessions: Seq<SessionInfo>) -> Seq<char>
    decreases sessions.len(),
{
    if sessions.len() == 0 {
        Seq::empty()
    } else if sessions.len() == 1 {
        description(sessions[0])
    } else {
        candidates(sessions.drop_last()) + "; "@ + description(sessions.last())
    }
}

/// Whether the session goes by this id or this label.
pub open spec fn answers_to(s: SessionInfo, selector: Seq<char>) -> bool {
    s.session_id@ == selector || (s.label is Some && s.label->0@ == selector)
}

/// The first session that goes by this id or this label.
pub open spec fn first_match(sessions: Seq<SessionInfo>, selector: Seq<char>) -> Option<SessionInfo>
    decreases sessions.len(),
{
    if sessions.len() == 0 {
        None
    } else if answers_to(sessions[0], selector) {
        Some(sessions[0])
    } else {
        first_match(sessions.drop_first(), selector)
    }
}

/// The live sessions, in their order.
pub open spec fn live_ones(sessions: Seq<SessionInfo>) -> Seq<SessionInfo> {
    sessions.filter(|s: SessionInfo| live(s))
}

/// The answer to a selector that no session goes by.
pub open spec fn no_match_text(selector: Seq<char>) -> Seq<char> {
    "no connected session matches '"@ + selector
        + "'. Call list_sessions to see the open places and their ids/labels."@
}

/// The answer where no session is live.
pub open spec fn no_live_text() -> Seq<char> {
    "no live Studio sessions are connected. Open the place in Studio with the Dust plugin enabled (and 'Allow HTTP Requests' on), call list_sessions to see that it is there, then retry."@
}

/// The answer where several sessions are live.
pub open spec fn ambiguous_text(live: Seq<SessionInfo>) -> Seq<char> {
    decimal(live.len())
        + " live Studio sessions are connected; refusing to guess which place to target. Call list_sessions, then pass session=<id or label>. Candidates: "@
        + candidates(live)
}

/// The session id that a call is meant for, or why there is none. A selector
/// picks the first session that goes by it, live or not; without one the only
/// live session is meant, and several are not told apart.
pub open spec fn resolution(sessions: Seq<SessionInfo>, selector: Option<Seq<char>>) -> Result<
    Seq<char>,
    Seq<char>,
> {
    match selector {
        Some(sel) => match first_match(sessions, sel) {
            Some(s) => Ok(s.session_id@),
            None => Err(no_match_text(sel)),
        },
        None => {
            let live = live_ones(sessions);
            if live.len() == 0 {
                Err(no_live_text())
            } else if live.len() == 1 {
                Ok(live[0].session_id@)
            } else {
                Err(ambiguous_text(live))
            }
        },
    }
}

/// A result with strings, as a result with their characters.
pub open spec fn text_result(r: Result<String, String>) -> Result<Seq<char>, Seq<char>> {
    match r {
        Ok(id) => Ok(id@),
        Err(m) => Err(m@),
    }
}

/// A selector with its characters.
pub open spec fn text_option(s: Option<&str>) -> Option<Seq<char>> {
    match s {
        Some(t) => Some(t@),
        None => None,
    }
}

fn find_match(sessions: &[SessionInfo], sel: &str) -> (r: Option<String>)
    ensures
        match first_match(sessions@, sel@) {
            Some(s) => r is Some && r->0@ == s.session_id@,
            None => r is None,
        },
{
    let wanted = sel.to_string();
    assert(sessions@.skip(0) =~= sessions@);
    for i in 0..sessions.len()
        invariant
            wanted@ == sel@,
            first_match(sessions@, sel@) == first_match(sessions@.skip(i as int), sel@),
    {
        assert(sessions@.skip(i as int).drop_first() =~= sessions@.skip(i + 1));
        let s = &sessions[i];
        if s.session_id == wanted {
            return Some(s.session_id.clone());
        }
        if let Some(label) = &s.label {
            if *label == wanted {
                return Some(s.session_id.clone());
            }
        }
    }
    None
}

/// Says which session a call is meant for.
pub fn resolve_session(sessions: &[SessionInfo], selector: Option<&str>) -> (r: Result<
    String,
    String,
>)
    ensures
        text_result(r) == resolution(sessions@, text_option(selector)),
{
    if let Some(sel) = selector {
        return match find_match(sessions, sel) {
            Some(id) => Ok(id),
            None => Err(
                "no connected session matches '".to_string().concat(sel).concat(
                    "'. Call list_sessions to see the open places and their ids/labels.",
                ),
            ),
        };
    }
    let mut count: u64 = 0;
    let mut only = String::new();
    let mut list = String::new();
    let ghost pred = |s: SessionInfo| live(s);
    proof {
        reveal(Seq::filter);
        assert(sessions@.take(0).filter(pred) =~= Seq::<SessionInfo>::empty());
    }
    for i in 0..sessions.len()
        invariant
            pred == (|s: SessionInfo| live(s)),
            count == sessions@.take(i as int).filter(pred).len(),
            count <= i,
            count > 0 ==> only@ == sessions@.take(i as int).filter(pred)[0].session_id@,
            list@ == candidates(sessions@.take(i as int).filter(pred)),
    {
        let ghost before = sessions@.take(i as int).filter(pred);
        proof {
            reveal(Seq::filter);
            assert(sessions@.take(i + 1).drop_last() =~= sessions@.take(i as int));
            assert(sessions@.take(i + 1).last() == sessions@[i as int]);
        }
        let s = &sessions[i];
        if is_live(s) {
            if count == 0 {
                only = s.session_id.clone();
                list = describe(s);
            } else {
                list.append("; ");
                let text = describe(s);
                list.append(text.as_str());
            }
            count = count + 1;
            assert(before.push(*s).drop_last() =~= before);
        }
    }
    assert(sessions@.take(sessions.len() as int) =~= sessions@);
    if count == 0 {
        Err(
            "no live Studio sessions are connected. Open the place in Studio with the Dust plugin enabled (and 'Allow HTTP Requests' on), call list_sessions to see that it is there, then retry.".to_string(),
        )
    } else if count == 1 {
        Ok(only)
    } else {
        Err(
            decimal_text(count).concat(
                " live Studio sessions are connected; refusing to guess which place to target. Call list_sessions, then pass session=<id or label>. Candidates: ",
            ).concat(list.as_str()),
        )
    }
}

} // verus!
