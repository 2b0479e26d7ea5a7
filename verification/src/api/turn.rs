//! A turn of a conversation as the run endpoint takes it, around the model
//! call: opening the session and adding the user's message before, adding the
//! answer after. The model call and the tools run in between are the caller's.

use vstd::prelude::*;

use crate::api::handlers::{check_run_request, history_for_llm, llm_unavailable, run_response, run_session_id, step_failure};
use crate::api::types::{ApiError, RunRequest, RunResponse};
use crate::json::JsonValue;
use crate::llm::types::{ChatMessage, MessageRole as LlmRole};
use crate::runtime::agent::llm_role;
use crate::session::manager::{access_in, trim_history, Access, PersistenceActionView, SessionManager};
use crate::text::owned;
use crate::session::types::{new_session_view, opt_str_view, Message, MessageRole, MessageView, SessionView};

verus! {

broadcast use vstd::string::group_string_axioms;

/// The sessions once a turn has made sure of session `id` at time `now`: a
/// live session stays; a missing or expired one gives way to a fresh one.
pub open spec fn opened(m: Map<Seq<char>, SessionView>, ttl: Option<i64>, id: Seq<char>, now: int) -> Map<Seq<char>, SessionView> {
    if access_in(m, ttl, id, now) is Live {
        m
    } else {
        m.insert(id, new_session_view(id, now))
    }
}

/// Session `s` once `msg` is added at time `now`, keeping the newest `max` messages.
pub open spec fn with_message(s: SessionView, msg: MessageView, max: nat, now: int) -> SessionView {
    SessionView { messages: trim_history(s.messages.push(msg), max), updated_at: now, ..s }
}

/// The sessions once `msg` is added to session `id` at time `now`.
pub open spec fn added(m: Map<Seq<char>, SessionView>, id: Seq<char>, msg: MessageView, max: nat, now: int) -> Map<Seq<char>, SessionView> {
    m.insert(id, with_message(m[id], msg, max, now))
}

/// A message with a role and a text only.
pub open spec fn plain_message(role: MessageRole, content: Seq<char>) -> MessageView {
    MessageView { role, content, name: None, tool_calls: None, tool_call_id: None }
}

/// How the model is shown a stored message: same role, text, name and tool
/// call id, no tool calls.
pub open spec fn shown_as(c: ChatMessage, m: MessageView) -> bool {
    &&& c.role == llm_role(m.role)
    &&& c.content@ == m.content
    &&& opt_str_view(c.name) == m.name
    &&& c.tool_calls is None
    &&& opt_str_view(c.tool_call_id) == m.tool_call_id
}

/// A system message holding text `s` and nothing else.
pub open spec fn is_system_text(c: ChatMessage, s: Seq<char>) -> bool {
    &&& c.role == LlmRole::System
    &&& c.content@ == s
    &&& c.name is None
    &&& c.tool_calls is None
    &&& c.tool_call_id is None
}

/// How many messages come before the conversation: one for the agent
/// configuration when there is one.
pub open spec fn system_count(system: Option<Seq<char>>) -> int {
    if system is Some { 1 } else { 0 }
}

/// `ms` with the agent configuration in front as a system message, when
/// there is one.
pub fn prepend_system(system: Option<&str>, ms: Vec<ChatMessage>) -> (r: Vec<ChatMessage>)
    ensures
        r@.len() == ms@.len() + system_count(opt_ref_view(system)),
        system matches Some(s) ==> is_system_text(r@[0], s@),
        forall|i: int| 0 <= i < ms@.len() ==> r@[i + system_count(opt_ref_view(system))] == #[trigger] ms@[i],
{
    match system {
        None => ms,
        Some(s) => {
            let mut r: Vec<ChatMessage> = Vec::new();
            r.push(ChatMessage::new(LlmRole::System, owned(s)));
            let mut rest = ms;
            let ghost tail = rest@;
            r.append(&mut rest);
            assert(forall|i: int| 0 <= i < tail.len() ==> r@[i + 1] == tail[i]);
            r
        },
    }
}

/// The value of an optional string slice.
pub open spec fn opt_ref_view(o: Option<&str>) -> Option<Seq<char>> {
    match o {
        Some(s) => Some(s@),
        None => None,
    }
}

/// The persistence queue `p` after a change that calls for `a`.
pub open spec fn queued(p: Seq<PersistenceActionView>, persists: bool, a: PersistenceActionView) -> Seq<PersistenceActionView> {
    if persists {
        p.push(a)
    } else {
        p
    }
}

/// Whether a turn goes past its checks: a message, an initialized runtime and
/// a model to call.
pub open spec fn turn_accepted(request: RunRequest, initialized: bool, has_llm: bool) -> bool {
    request.message@.len() > 0 && initialized && has_llm
}

/// The session a turn goes to: the one named, or the fresh id.
pub open spec fn turn_session(request: RunRequest, fresh_id: Seq<char>) -> Seq<char> {
    match request.session_id {
        Some(s) => s@,
        None => fresh_id,
    }
}

/// What the first half of a turn at time `now` does to the sessions
/// (`before`, then `after`) and gives back (`r`): the request's checks; then
/// the session (a live one, or a fresh one in place of a missing or expired
/// one), the user's message added to it, and the conversation shown to the
/// model: the agent configuration `system` first, as a system message, when
/// there is one. A refused turn leaves the sessions as they were.
pub open spec fn turn_started(
    before: SessionManager,
    after: SessionManager,
    request: RunRequest,
    system: Option<Seq<char>>,
    fresh_id: Seq<char>,
    initialized: bool,
    has_llm: bool,
    now: int,
    r: Result<(String, Vec<ChatMessage>), ApiError>,
) -> bool {
    &&& after.max_history() == before.max_history()
    &&& after.ttl() == before.ttl()
    &&& after.persists() == before.persists()
    &&& request.message@.len() == 0 ==> (r matches Err(ApiError::BadRequest(m)) && m@ == "Message cannot be empty"@)
    &&& request.message@.len() > 0 && !initialized ==> (r matches Err(ApiError::InternalServerError(m))
        && m@ == "AgentRuntime not initialized"@)
    &&& request.message@.len() > 0 && initialized && !has_llm ==> (r matches Err(ApiError::InternalServerError(m))
        && m@ == "LLM connector not available"@)
    &&& !turn_accepted(request, initialized, has_llm) ==> after@ == before@ && after.pending() == before.pending()
    &&& turn_accepted(request, initialized, has_llm) ==> ({
        let id = turn_session(request, fresh_id);
        let ttl = before.ttl();
        let max = before.max_history();
        let keep = before.persists();
        let m1 = opened(before@, ttl, id, now);
        let m2 = added(m1, id, plain_message(MessageRole::User, request.message@), max, now);
        let p1 = if access_in(before@, ttl, id, now) is Live {
            before.pending()
        } else {
            queued(before.pending(), keep, PersistenceActionView::Save(new_session_view(id, now)))
        };
        &&& access_in(m1, ttl, id, now) !is Live ==> after@ == m1.remove(id)
            && after.pending() == p1
            && (r matches Err(ApiError::InternalServerError(e)) && e@ == "Failed to add message: Session expired: "@ + id)
        &&& access_in(m1, ttl, id, now) is Live && access_in(m2, ttl, id, now) !is Live
            ==> after@ == m2.remove(id)
            && after.pending() == queued(p1, keep, PersistenceActionView::Save(m2[id]))
            && (r matches Err(ApiError::InternalServerError(e)) && e@ == "Failed to get history: Session expired: "@ + id)
        &&& access_in(m1, ttl, id, now) is Live && access_in(m2, ttl, id, now) is Live
            ==> after@ == m2
            && after.pending() == queued(p1, keep, PersistenceActionView::Save(m2[id]))
            && (r matches Ok((sid, ms)) && sid@ == id
                && ms@.len() == system_count(system) + m2[id].messages.len()
                && (system matches Some(c) ==> is_system_text(ms@[0], c))
                && forall|i: int| 0 <= i < m2[id].messages.len()
                    ==> shown_as(#[trigger] ms@[i + system_count(system)], m2[id].messages[i]))
    })
}

/// The first half of a turn at time `now` (see [`turn_started`]).
pub fn start_turn_at(
    sessions: &mut SessionManager,
    request: &RunRequest,
    system: Option<&str>,
    fresh_id: String,
    initialized: bool,
    has_llm: bool,
    now: i64,
) -> (r: Result<(String, Vec<ChatMessage>), ApiError>)
    requires
        old(sessions).wf(),
    ensures
        final(sessions).wf(),
        turn_started(*old(sessions), *final(sessions), *request, opt_ref_view(system), fresh_id@, initialized, has_llm, now as int, r),
{
    match check_run_request(request, initialized) {
        Err(e) => return Err(e),
        Ok(()) => {},
    }
    let session_id = run_session_id(request, fresh_id);
    if !has_llm {
        return Err(llm_unavailable());
    }
    let ghost id = session_id@;
    let ghost m0 = sessions@;
    let ghost p0 = sessions.pending();
    match sessions.get_session_at(session_id.as_str(), now) {
        Ok(_) => {},
        Err(_) => {
            let created = sessions.create_session_with_id_at(session_id.clone(), now);
            proof {
                if access_in(m0, sessions.ttl(), id, now as int) is Expired {
                    assert(m0.remove(id).insert(id, new_session_view(id, now as int)) =~= m0.insert(id, new_session_view(id, now as int)));
                }
            }
            match created {
                Ok(_) => {},
                Err(e) => return Err(step_failure("create session", e.message().as_str())),
            }
        },
    }
    let ghost m1 = sessions@;
    let ghost p1 = sessions.pending();
    assert(id == turn_session(*request, fresh_id@));
    assert(m1 == opened(m0, sessions.ttl(), id, now as int));
    assert(p1 == if access_in(m0, sessions.ttl(), id, now as int) is Live {
        p0
    } else {
        queued(p0, sessions.persists(), PersistenceActionView::Save(new_session_view(id, now as int)))
    });
    assert(m1.contains_key(id));
    let user = Message::new(MessageRole::User, request.message.clone());
    match sessions.add_message_at(session_id.as_str(), user, now) {
        Ok(()) => {},
        Err(e) => {
            assert(access_in(m1, sessions.ttl(), id, now as int) is Expired);
            proof {
                reveal_strlit("Failed to ");
                reveal_strlit("add message");
                reveal_strlit(": ");
                reveal_strlit("Session expired: ");
                reveal_strlit("Failed to add message: Session expired: ");
                assert("Failed to "@ + "add message"@ + ": "@ + ("Session expired: "@ + id)
                    =~= "Failed to add message: Session expired: "@ + id);
            }
            return Err(step_failure("add message", e.message().as_str()));
        },
    }
    let ghost m2 = sessions@;
    assert(m2.contains_key(id));
    match sessions.get_history_at(session_id.as_str(), now) {
        Err(e) => {
            assert(access_in(m2, sessions.ttl(), id, now as int) is Expired);
            proof {
                reveal_strlit("Failed to ");
                reveal_strlit("get history");
                reveal_strlit(": ");
                reveal_strlit("Session expired: ");
                reveal_strlit("Failed to get history: Session expired: ");
                assert("Failed to "@ + "get history"@ + ": "@ + ("Session expired: "@ + id)
                    =~= "Failed to get history: Session expired: "@ + id);
            }
            Err(step_failure("get history", e.message().as_str()))
        },
        Ok(history) => {
            let shown = history_for_llm(&history);
            proof {
                assert forall|i: int| 0 <= i < shown@.len() implies shown_as(#[trigger] shown@[i], m2[id].messages[i]) by {
                    assert(crate::session::types::messages_view(history@)[i] == history@[i]@);
                }
            }
            let ms = prepend_system(system, shown);
            proof {
                let k = system_count(opt_ref_view(system));
                assert forall|i: int| 0 <= i < m2[id].messages.len()
                    implies shown_as(#[trigger] ms@[i + k], m2[id].messages[i]) by {
                    assert(ms@[i + k] == shown@[i]);
                }
            }
            Ok((session_id, ms))
        },
    }
}

/// What the second half of a turn at time `now` does to the sessions
/// (`before`, then `after`) and gives back (`r`): the answer added to the
/// session and the run's response, with the records of the tools that ran.
pub open spec fn turn_finished(
    before: SessionManager,
    after: SessionManager,
    session_id: Seq<char>,
    reply: Seq<char>,
    records: Seq<JsonValue>,
    now: int,
    r: Result<RunResponse, ApiError>,
) -> bool {
    &&& after.max_history() == before.max_history()
    &&& after.ttl() == before.ttl()
    &&& after.persists() == before.persists()
    &&& access_in(before@, before.ttl(), session_id, now) is Missing
        ==> after@ == before@
        && after.pending() == before.pending()
        && (r matches Err(ApiError::InternalServerError(e))
            && e@ == "Failed to add assistant message: Session not found: "@ + session_id)
    &&& access_in(before@, before.ttl(), session_id, now) is Expired
        ==> after@ == before@.remove(session_id)
        && after.pending() == before.pending()
        && (r matches Err(ApiError::InternalServerError(e))
            && e@ == "Failed to add assistant message: Session expired: "@ + session_id)
    &&& access_in(before@, before.ttl(), session_id, now) is Live
        ==> after@ == added(before@, session_id, plain_message(MessageRole::Assistant, reply), before.max_history(), now)
        && after.pending() == queued(before.pending(), before.persists(), PersistenceActionView::Save(after@[session_id]))
        && (r matches Ok(resp) && resp.response@ == reply && resp.tool_calls@ == records
            && resp.session_id@ == session_id && resp.finish_reason@ == "stop"@ && resp.skill_used is None)
}

/// The second half of a turn at time `now` (see [`turn_finished`]).
pub fn finish_turn_at(
    sessions: &mut SessionManager,
    session_id: String,
    reply: String,
    records: Vec<JsonValue>,
    now: i64,
) -> (r: Result<RunResponse, ApiError>)
    requires
        old(sessions).wf(),
    ensures
        final(sessions).wf(),
        turn_finished(*old(sessions), *final(sessions), session_id@, reply@, records@, now as int, r),
{
    let ghost id = session_id@;
    let answer = Message::new(MessageRole::Assistant, reply.clone());
    match sessions.add_message_at(session_id.as_str(), answer, now) {
        Ok(()) => Ok(run_response(reply, records, session_id)),
        Err(e) => {
            proof {
                reveal_strlit("Failed to ");
                reveal_strlit("add assistant message");
                reveal_strlit(": ");
                reveal_strlit("Session expired: ");
                reveal_strlit("Session not found: ");
                reveal_strlit("Failed to add assistant message: Session expired: ");
                reveal_strlit("Failed to add assistant message: Session not found: ");
                assert("Failed to "@ + "add assistant message"@ + ": "@ + ("Session expired: "@ + id)
                    =~= "Failed to add assistant message: Session expired: "@ + id);
                assert("Failed to "@ + "add assistant message"@ + ": "@ + ("Session not found: "@ + id)
                    =~= "Failed to add assistant message: Session not found: "@ + id);
            }
            Err(step_failure("add assistant message", e.message().as_str()))
        },
    }
}

/// The messages a session holds after a turn, as the turn's two halves leave
/// them: a turn's user message and answer follow the messages of the session
/// it found live (none for a fresh one), and of these the newest `max` are
/// kept, whatever the limit trimmed on the way.
pub proof fn law_turn_keeps_conversation(
    m: Map<Seq<char>, SessionView>,
    ttl: Option<i64>,
    id: Seq<char>,
    user: Seq<char>,
    answer: Seq<char>,
    max: nat,
    t1: int,
    t2: int,
)
    ensures
        ({
            let u = plain_message(MessageRole::User, user);
            let a = plain_message(MessageRole::Assistant, answer);
            let prior = if access_in(m, ttl, id, t1) is Live { m[id].messages } else { Seq::empty() };
            added(added(opened(m, ttl, id, t1), id, u, max, t1), id, a, max, t2)[id].messages
                == trim_history(prior.push(u).push(a), max)
        }),
{
    let u = plain_message(MessageRole::User, user);
    let a = plain_message(MessageRole::Assistant, answer);
    let prior = if access_in(m, ttl, id, t1) is Live { m[id].messages } else { Seq::<MessageView>::empty() };
    assert(opened(m, ttl, id, t1)[id].messages == prior);
    lemma_trim_twice(prior.push(u), a, max);
}

/// Keeping the newest `max` messages, adding one and keeping the newest `max`
/// again keeps what one trim of the whole would.
pub(crate) proof fn lemma_trim_twice(s: Seq<MessageView>, a: MessageView, max: nat)
    ensures
        trim_history(trim_history(s, max).push(a), max) == trim_history(s.push(a), max),
{
    let t = trim_history(s, max);
    if s.len() > max {
        assert(t.push(a).len() == max + 1);
        assert(trim_history(t.push(a), max) =~= trim_history(s.push(a), max));
    } else {
        assert(t == s);
    }
}

/// Without a time-to-live, or with one that is not negative, a turn never
/// loses its session: the session it opens is live, and still live once the
/// user's message is in.
pub proof fn law_turn_session_stays_live(
    m: Map<Seq<char>, SessionView>,
    ttl: Option<i64>,
    id: Seq<char>,
    msg: MessageView,
    max: nat,
    now: int,
)
    requires
        ttl matches Some(t) ==> t >= 0,
    ensures
        access_in(opened(m, ttl, id, now), ttl, id, now) is Live,
        access_in(added(opened(m, ttl, id, now), id, msg, max, now), ttl, id, now) is Live,
{
    assert(crate::session::types::whole_seconds(0) == 0);
}

} // verus!
