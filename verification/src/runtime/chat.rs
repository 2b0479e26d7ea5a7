//! A chat turn as the runtime's own API takes it: the session opened (a new
//! one when none is named), the user's message added, the conversation for
//! the model assembled from the agent configuration, the skill the message
//! calls for and the history; and afterwards the answer kept.

use vstd::prelude::*;

use crate::api::handlers::run_response;
use crate::api::turn::{added, is_system_text, lemma_trim_twice, opened, plain_message, queued, system_count, turn_session};
use crate::session::manager::trim_history;
use crate::api::types::{ApiError, RunRequest, RunResponse};
use crate::json::JsonValue;
use crate::llm::types::ChatMessage;
use crate::runtime::agent::{llm_call_view, llm_role};
use crate::session::manager::{access_in, PersistenceActionView, SessionManager};
use crate::session::types::{messages_view, new_session_view, Message, MessageRole, MessageView, SessionView};
use crate::skill::types::{Skill, SkillManager, triggered_by};
use crate::text::concat3;

verus! {

broadcast use vstd::string::group_string_axioms;

/// The sessions once a chat has made sure of its session at time `now`: the
/// fresh id gets a new session when none is named; a named session stays when
/// live and gives way to a new one when missing or expired.
pub open spec fn chat_opened_sessions(before: SessionManager, request: RunRequest, fresh_id: Seq<char>, now: int) -> Map<Seq<char>, SessionView> {
    match request.session_id {
        None => before@.insert(fresh_id, new_session_view(fresh_id, now)),
        Some(s) => opened(before@, before.ttl(), s@, now),
    }
}

/// The persistence work once a chat has made sure of its session.
pub open spec fn chat_opened_queue(before: SessionManager, request: RunRequest, fresh_id: Seq<char>, now: int) -> Seq<PersistenceActionView> {
    let id = turn_session(request, fresh_id);
    if request.session_id is Some && access_in(before@, before.ttl(), id, now) is Live {
        before.pending()
    } else {
        queued(before.pending(), before.persists(), PersistenceActionView::Save(new_session_view(id, now)))
    }
}

/// The sessions once the user's message is in the chat's session.
pub open spec fn chat_with_message(before: SessionManager, request: RunRequest, fresh_id: Seq<char>, now: int) -> Map<Seq<char>, SessionView> {
    added(
        chat_opened_sessions(before, request, fresh_id, now),
        turn_session(request, fresh_id),
        plain_message(MessageRole::User, request.message@),
        before.max_history(),
        now,
    )
}

/// Why the session part of a chat fails, if it does: the session is no
/// longer live once opened, or once the message is in (only with a negative
/// time-to-live).
pub open spec fn chat_failure(before: SessionManager, request: RunRequest, fresh_id: Seq<char>, now: int) -> Option<Seq<char>> {
    let id = turn_session(request, fresh_id);
    let ttl = before.ttl();
    if access_in(chat_opened_sessions(before, request, fresh_id, now), ttl, id, now) !is Live
        || access_in(chat_with_message(before, request, fresh_id, now), ttl, id, now) !is Live {
        Some("Session expired: "@ + id)
    } else {
        None
    }
}

/// What the session part of a chat does to the manager (`before`, then
/// `after`): the session opened, the user's message added and a save asked
/// for each change; a session found expired on the way is dropped.
pub open spec fn chat_sessions_after(before: SessionManager, after: SessionManager, request: RunRequest, fresh_id: Seq<char>, now: int) -> bool {
    let id = turn_session(request, fresh_id);
    let ttl = before.ttl();
    let keep = before.persists();
    let m1 = chat_opened_sessions(before, request, fresh_id, now);
    let m2 = chat_with_message(before, request, fresh_id, now);
    let p1 = chat_opened_queue(before, request, fresh_id, now);
    &&& after.max_history() == before.max_history()
    &&& after.ttl() == before.ttl()
    &&& after.persists() == before.persists()
    &&& access_in(m1, ttl, id, now) !is Live ==> after@ == m1.remove(id) && after.pending() == p1
    &&& access_in(m1, ttl, id, now) is Live && access_in(m2, ttl, id, now) !is Live
        ==> after@ == m2.remove(id) && after.pending() == queued(p1, keep, PersistenceActionView::Save(m2[id]))
    &&& access_in(m1, ttl, id, now) is Live && access_in(m2, ttl, id, now) is Live
        ==> after@ == m2 && after.pending() == queued(p1, keep, PersistenceActionView::Save(m2[id]))
}

/// What opening a chat at time `now` does and gives back: the session part
/// (see [`chat_sessions_after`]), then the session's id and history, or the
/// session error.
pub open spec fn chat_opened(
    before: SessionManager,
    after: SessionManager,
    request: RunRequest,
    fresh_id: Seq<char>,
    now: int,
    r: Result<(String, Vec<Message>), ApiError>,
) -> bool {
    &&& chat_sessions_after(before, after, request, fresh_id, now)
    &&& match chat_failure(before, request, fresh_id, now) {
        Some(e) => r matches Err(ApiError::InternalServerError(m)) && m@ == e,
        None => r matches Ok((sid, h)) && sid@ == turn_session(request, fresh_id)
            && messages_view(h@) == chat_with_message(before, request, fresh_id, now)[turn_session(request, fresh_id)].messages,
    }
}

/// Opens a chat at time `now` on `sessions` (see [`chat_opened`]).
pub fn open_chat_at(sessions: &mut SessionManager, request: &RunRequest, fresh_id: String, now: i64) -> (r: Result<(String, Vec<Message>), ApiError>)
    requires
        old(sessions).wf(),
    ensures
        final(sessions).wf(),
        chat_opened(*old(sessions), *final(sessions), *request, fresh_id@, now as int, r),
{
    let ghost m0 = sessions@;
    let ghost p0 = sessions.pending();
    let ghost before = *sessions;
    let session_id: String = match &request.session_id {
        None => {
            let id = fresh_id;
            let _ = sessions.create_session_with_id_at(id.clone(), now);
            id
        },
        Some(s) => {
            let id = s.clone();
            match sessions.get_session_at(id.as_str(), now) {
                Ok(_) => {},
                Err(_) => {
                    let _ = sessions.create_session_with_id_at(id.clone(), now);
                    proof {
                        if access_in(m0, sessions.ttl(), id@, now as int) is Expired {
                            assert(m0.remove(id@).insert(id@, new_session_view(id@, now as int))
                                =~= m0.insert(id@, new_session_view(id@, now as int)));
                        }
                    }
                },
            }
            id
        },
    };
    let ghost id = session_id@;
    let ghost m1 = sessions@;
    assert(id == turn_session(*request, fresh_id@));
    assert(m1 == chat_opened_sessions(before, *request, fresh_id@, now as int));
    assert(sessions.pending() == chat_opened_queue(before, *request, fresh_id@, now as int));
    assert(m1.contains_key(id));
    let user = Message::new(MessageRole::User, request.message.clone());
    match sessions.add_message_at(session_id.as_str(), user, now) {
        Ok(()) => {},
        Err(e) => {
            assert(access_in(m1, sessions.ttl(), id, now as int) is Expired);
            return Err(ApiError::InternalServerError(e.message()));
        },
    }
    let ghost m2 = sessions@;
    assert(m2 == chat_with_message(before, *request, fresh_id@, now as int));
    assert(m2.contains_key(id));
    match sessions.get_history_at(session_id.as_str(), now) {
        Err(e) => {
            assert(access_in(m2, sessions.ttl(), id, now as int) is Expired);
            Err(ApiError::InternalServerError(e.message()))
        },
        Ok(history) => Ok((session_id, history)),
    }
}

/// The system note for a skill a message calls for.
pub open spec fn skill_note(sk: Skill) -> Seq<char> {
    "\n\n[Skill: "@ + sk.metadata.name@ + "]\n"@ + sk.content@ + "\n"@
}

/// The system note for a skill a message calls for.
pub fn skill_note_text(sk: &Skill) -> (t: String)
    ensures
        t@ == skill_note(*sk),
{
    let mut t = concat3("\n\n[Skill: ", sk.metadata.name.as_str(), "]\n");
    t.append(sk.content.as_str());
    t.append("\n");
    t
}

/// Skill `order[i]` is the first, in storage order, that the message calls for.
pub open spec fn first_triggered_at(m: SkillManager, message: Seq<char>, i: int) -> bool {
    &&& 0 <= i < m.order().len()
    &&& triggered_by(m.skills()[m.order()[i]], message)
    &&& forall|j: int| 0 <= j < i ==> !triggered_by(#[trigger] m.skills()[m.order()[j]], message)
}

/// The first skill, in storage order, that a message calls for.
pub open spec fn first_triggered(m: SkillManager, message: Seq<char>) -> Option<Skill> {
    if exists|i: int| first_triggered_at(m, message, i) {
        Some(m.skills()[m.order()[choose|i: int| first_triggered_at(m, message, i)]])
    } else {
        None
    }
}

/// The skill found first is the one [`first_triggered`] names.
pub proof fn lemma_first_triggered(m: SkillManager, message: Seq<char>, i: int)
    requires
        first_triggered_at(m, message, i),
    ensures
        first_triggered(m, message) == Some(m.skills()[m.order()[i]]),
{
    let c = choose|c: int| first_triggered_at(m, message, c);
    assert(first_triggered_at(m, message, c));
    if c < i {
        assert(!triggered_by(m.skills()[m.order()[c]], message));
    }
    if i < c {
        assert(!triggered_by(m.skills()[m.order()[i]], message));
    }
}

/// When no skill is called for, [`first_triggered`] names none.
pub proof fn lemma_none_triggered(m: SkillManager, message: Seq<char>)
    requires
        forall|i: int| 0 <= i < m.order().len() ==> !triggered_by(#[trigger] m.skills()[m.order()[i]], message),
    ensures
        first_triggered(m, message) is None,
{
    if exists|i: int| first_triggered_at(m, message, i) {
        let c = choose|c: int| first_triggered_at(m, message, c);
        assert(!triggered_by(m.skills()[m.order()[c]], message));
    }
}

/// The note a chat adds for the skill its message calls for, if any.
pub open spec fn chat_note(skills: Option<SkillManager>, message: Seq<char>) -> Option<Seq<char>> {
    match skills {
        Some(m) => match first_triggered(m, message) {
            Some(sk) => Some(skill_note(sk)),
            None => None,
        },
        None => None,
    }
}

/// How the model is shown a stored message: same role, text, name, tool
/// calls and tool call id.
pub open spec fn shows(c: ChatMessage, m: MessageView) -> bool {
    &&& c.role == llm_role(m.role)
    &&& c.content@ == m.content
    &&& crate::session::types::opt_str_view(c.name) == m.name
    &&& (match c.tool_calls {
        Some(tc) => m.tool_calls == Some(tc@.map_values(|x: crate::llm::types::ToolCall| llm_call_view(x))),
        None => m.tool_calls is None,
    })
    &&& crate::session::types::opt_str_view(c.tool_call_id) == m.tool_call_id
}

/// What starting a chat at time `now` on an initialized runtime does to the
/// sessions (`before`, then `after`) and gives back (`r`): the session part
/// (see [`chat_sessions_after`]); then, with a model to call, the session's
/// id and the conversation: the agent configuration `system` as a system
/// message, the skill `note` as a system message, then the history.
pub open spec fn chat_started(
    before: SessionManager,
    after: SessionManager,
    request: RunRequest,
    fresh_id: Seq<char>,
    now: int,
    system: Option<Seq<char>>,
    note: Option<Seq<char>>,
    has_llm: bool,
    r: Result<(String, Vec<ChatMessage>), ApiError>,
) -> bool {
    let id = turn_session(request, fresh_id);
    let h = chat_with_message(before, request, fresh_id, now)[id].messages;
    let k1 = system_count(system);
    let k2 = system_count(note);
    &&& chat_sessions_after(before, after, request, fresh_id, now)
    &&& match chat_failure(before, request, fresh_id, now) {
        Some(e) => r matches Err(ApiError::InternalServerError(m)) && m@ == e,
        None => if !has_llm {
            r matches Err(ApiError::InternalServerError(m)) && m@ == "LLM connector not initialized"@
        } else {
            r matches Ok((sid, ms)) && sid@ == id
                && ms@.len() == k1 + k2 + h.len()
                && (system matches Some(c) ==> is_system_text(ms@[0], c))
                && (note matches Some(t) ==> is_system_text(ms@[k1], t))
                && forall|i: int| 0 <= i < h.len() ==> shows(#[trigger] ms@[k1 + k2 + i], h[i])
        },
    }
}

/// What finishing a chat at time `now` does to the sessions (`before`, then
/// `after`) and gives back (`r`): the answer added to the session and the
/// chat's response, or the session error.
pub open spec fn chat_finished(
    before: SessionManager,
    after: SessionManager,
    session_id: Seq<char>,
    reply: Seq<char>,
    now: int,
    r: Result<RunResponse, ApiError>,
) -> bool {
    &&& after.max_history() == before.max_history()
    &&& after.ttl() == before.ttl()
    &&& after.persists() == before.persists()
    &&& access_in(before@, before.ttl(), session_id, now) is Missing
        ==> after@ == before@ && after.pending() == before.pending()
        && (r matches Err(ApiError::InternalServerError(e)) && e@ == "Session not found: "@ + session_id)
    &&& access_in(before@, before.ttl(), session_id, now) is Expired
        ==> after@ == before@.remove(session_id) && after.pending() == before.pending()
        && (r matches Err(ApiError::InternalServerError(e)) && e@ == "Session expired: "@ + session_id)
    &&& access_in(before@, before.ttl(), session_id, now) is Live
        ==> after@ == added(before@, session_id, plain_message(MessageRole::Assistant, reply), before.max_history(), now)
        && after.pending() == queued(before.pending(), before.persists(), PersistenceActionView::Save(after@[session_id]))
        && (r matches Ok(resp) && resp.response@ == reply && resp.tool_calls@.len() == 0
            && resp.session_id@ == session_id && resp.finish_reason@ == "stop"@ && resp.skill_used is None)
}

/// Keeps a chat's answer at time `now` in `sessions` (see [`chat_finished`]).
pub fn record_chat_answer_at(sessions: &mut SessionManager, session_id: String, reply: String, now: i64) -> (r: Result<RunResponse, ApiError>)
    requires
        old(sessions).wf(),
    ensures
        final(sessions).wf(),
        chat_finished(*old(sessions), *final(sessions), session_id@, reply@, now as int, r),
{
    let answer = Message::new(MessageRole::Assistant, reply.clone());
    match sessions.add_message_at(session_id.as_str(), answer, now) {
        Ok(()) => {
            let records: Vec<JsonValue> = Vec::new();
            Ok(run_response(reply, records, session_id))
        },
        Err(e) => Err(ApiError::InternalServerError(e.message())),
    }
}

/// A chat that names no session opens one under its fresh id: when that id
/// was not in use, the sessions afterwards are the ones before plus the new
/// session, which holds just the user's message (with room for at least
/// one), and every other session is left as it was.
pub proof fn law_chat_opens_a_new_session(before: SessionManager, request: RunRequest, fresh_id: Seq<char>, now: int)
    requires
        request.session_id is None,
        !before@.contains_key(fresh_id),
    ensures
        chat_with_message(before, request, fresh_id, now).dom() == before@.dom().insert(fresh_id),
        forall|k: Seq<char>| #[trigger] before@.contains_key(k)
            ==> chat_with_message(before, request, fresh_id, now)[k] == before@[k],
        before.max_history() >= 1 ==> chat_with_message(before, request, fresh_id, now)[fresh_id].messages
            == seq![plain_message(MessageRole::User, request.message@)],
{
    let m2 = chat_with_message(before, request, fresh_id, now);
    assert(m2.dom() =~= before@.dom().insert(fresh_id));
    assert forall|k: Seq<char>| #[trigger] before@.contains_key(k) implies m2[k] == before@[k] by {
        assert(k != fresh_id);
    }
    let u = plain_message(MessageRole::User, request.message@);
    assert(Seq::<MessageView>::empty().push(u) =~= seq![u]);
}

/// The messages a session holds after a chat, as its two halves leave them:
/// the user's message and the answer follow the messages of the named session
/// when it was live (none for a new one), and of these the newest `max` are
/// kept.
pub proof fn law_chat_keeps_conversation(
    before: SessionManager,
    request: RunRequest,
    fresh_id: Seq<char>,
    answer: Seq<char>,
    t1: int,
    t2: int,
)
    ensures
        ({
            let id = turn_session(request, fresh_id);
            let max = before.max_history();
            let u = plain_message(MessageRole::User, request.message@);
            let a = plain_message(MessageRole::Assistant, answer);
            let prior = if request.session_id is Some && access_in(before@, before.ttl(), id, t1) is Live {
                before@[id].messages
            } else {
                Seq::empty()
            };
            added(chat_with_message(before, request, fresh_id, t1), id, a, max, t2)[id].messages
                == trim_history(prior.push(u).push(a), max)
        }),
{
    let id = turn_session(request, fresh_id);
    let max = before.max_history();
    let u = plain_message(MessageRole::User, request.message@);
    let a = plain_message(MessageRole::Assistant, answer);
    let prior = if request.session_id is Some && access_in(before@, before.ttl(), id, t1) is Live {
        before@[id].messages
    } else {
        Seq::<MessageView>::empty()
    };
    assert(chat_opened_sessions(before, request, fresh_id, t1)[id].messages == prior);
    lemma_trim_twice(prior.push(u), a, max);
}

} // verus!
