//! Properties of session management that relate several operations.

use vstd::prelude::*;

use crate::session::manager::{
    Access, SessionError, SessionManager, access_in, created_at, history_read_at, looked_up_at,
    message_added_at, session_cleared_at, trim_history,
};
use crate::session::types::{Message, Session};
use crate::session::persistence::{last_nonblank, session_file_name, session_id_of_file};
use crate::text::{is_blank, lemma_newline_pos, lines_of};
use crate::session::types::{MessageView, SessionView, expired_at, new_session_view, whole_seconds};

verus! {

/// After a message is added, the history holds at most `max` messages, ends
/// with the new message (when `max` is at least one), and is the newest part of
/// the old history followed by the new message.
pub proof fn law_history_keeps_newest(history: Seq<MessageView>, message: MessageView, max: nat)
    ensures
        trim_history(history.push(message), max).len() == if history.len() + 1 > max {
            max
        } else {
            history.len() + 1
        },
        max >= 1 ==> trim_history(history.push(message), max).last() == message,
        trim_history(history.push(message), max) == history.push(message).subrange(
            history.len() + 1 - trim_history(history.push(message), max).len(),
            history.len() + 1 as int,
        ),
{
    let full = history.push(message);
    if full.len() > max {
        assert(trim_history(full, max) == full.subrange(full.len() - max, full.len() as int));
    } else {
        assert(full.subrange(0, full.len() as int) =~= full);
    }
}

/// A session created at time `now` is live at that time, unless the
/// time-to-live is negative.
pub proof fn law_fresh_session_is_live(
    m: Map<Seq<char>, SessionView>,
    ttl: Option<i64>,
    id: Seq<char>,
    now: int,
)
    requires
        ttl matches Some(t) ==> t >= 0,
    ensures
        access_in(
            m.insert(id, new_session_view(id, now)),
            ttl,
            id,
            now,
        ) is Live,
{
    assert(whole_seconds(0) == 0);
}

/// A deleted session id resolves as missing, whatever the time.
pub proof fn law_deleted_session_is_missing(
    m: Map<Seq<char>, SessionView>,
    ttl: Option<i64>,
    id: Seq<char>,
    now: int,
)
    ensures
        access_in(m.remove(id), ttl, id, now) is Missing,
{
}

/// Once a session has expired it stays expired as time goes on.
pub proof fn law_expiry_is_permanent(updated_at: int, ttl: int, t1: int, t2: int)
    requires
        t1 <= t2,
        expired_at(updated_at, ttl, t1),
    ensures
        expired_at(updated_at, ttl, t2),
{
    let d1 = t1 - updated_at;
    let d2 = t2 - updated_at;
    if d1 >= 0 {
        assert(d1 / 1000 <= d2 / 1000) by (nonlinear_arith)
            requires
                0 <= d1 <= d2,
        ;
    } else if d2 >= 0 {
        assert(whole_seconds(d1) <= 0) by (nonlinear_arith)
            requires
                d1 < 0,
                whole_seconds(d1) == -((-d1) / 1000),
        ;
    } else {
        assert((-d2) / 1000 <= (-d1) / 1000) by (nonlinear_arith)
            requires
                0 < -d2 <= -d1,
        ;
    }
}

/// After expired sessions are cleaned up, every remaining session is live at
/// that time, and the removed and remaining sessions together are the sessions
/// there were.
pub proof fn law_cleanup_leaves_live_sessions(m: Map<Seq<char>, SessionView>, ttl: i64, now: int)
    requires
        m.dom().finite(),
    ensures
        forall|k: Seq<char>|
            #[trigger] SessionManager::unexpired(m, ttl as int, now).contains_key(k) ==> access_in(
                SessionManager::unexpired(m, ttl as int, now),
                Some(ttl),
                k,
                now,
            ) is Live,
        SessionManager::unexpired(m, ttl as int, now).dom() + SessionManager::expired_ids(m, ttl as int, now)
            == m.dom(),
        SessionManager::unexpired(m, ttl as int, now).dom().len() + SessionManager::expired_ids(
            m,
            ttl as int,
            now,
        ).len() == m.dom().len(),
{
    let kept = SessionManager::unexpired(m, ttl as int, now).dom();
    let gone = SessionManager::expired_ids(m, ttl as int, now);
    assert(kept + gone =~= m.dom());
    assert(kept.disjoint(gone));
    assert(kept.subset_of(m.dom()));
    vstd::set_lib::lemma_len_subset(kept, m.dom());
    vstd::set_lib::lemma_len_subset(gone, m.dom());
    vstd::set_lib::lemma_set_disjoint_lens(kept, gone);
}

/// A session saved under a non-empty id is found again under that id when the
/// storage directory is listed.
pub proof fn law_session_file_round_trip(id: Seq<char>)
    requires
        id.len() > 0,
    ensures
        session_id_of_file(session_file_name(id)) == Some(id),
{
    let name = session_file_name(id);
    reveal_strlit(".jsonl");
    reveal_strlit("jsonl");
    let i = id.len() as int;
    assert(name[i] == '.');
    assert(name.subrange(i + 1, name.len() as int) =~= "jsonl"@);
    assert(forall|j: int| i < j < name.len() ==> name[j] != '.');
    let w = choose|w: int|
        0 < w < name.len() && name[w] == '.' && name.subrange(w + 1, name.len() as int) == "jsonl"@
            && forall|j: int| w < j < name.len() ==> name[j] != '.';
    assert(w == i);
    assert(name.subrange(0, i) =~= id);
}

/// Reading back a saved session file gives the state that was saved: the last
/// non-blank line of the file written for a state's line is that line, when
/// the line is not blank, holds no '\n' and does not end with '\r' (as a
/// line of compact JSON never does).
pub proof fn law_saved_state_read_back(line: Seq<char>)
    requires
        !is_blank(line),
        forall|i: int| 0 <= i < line.len() ==> line[i] != '\n',
        line.len() > 0 ==> line[line.len() - 1] != '\r',
    ensures
        last_nonblank(lines_of(line.push('\n'))) == Some(line),
{
    let s = line.push('\n');
    let n = line.len() as int;
    assert forall|i: int| 0 <= i < n implies s[i] != '\n' by {
        assert(s[i] == line[i]);
    }
    lemma_newline_pos(s, n);
    assert(s.subrange(0, n) =~= line);
    assert(s.subrange(n + 1, s.len() as int) =~= Seq::<char>::empty());
    assert(lines_of(Seq::<char>::empty()) =~= Seq::<Seq<char>>::empty());
    assert(lines_of(s) =~= seq![line]);
    let one = seq![line];
    assert(one[one.len() - 1] == line);
}

/// Every session holds at most `max` messages.
pub open spec fn histories_within(m: Map<Seq<char>, SessionView>, max: nat) -> bool {
    forall|k: Seq<char>| #[trigger] m.contains_key(k) ==> m[k].messages.len() <= max
}

/// One change of the session manager through its operations at some time:
/// creating, looking up, adding a message, reading a history or clearing.
#[verifier::opaque]
pub open spec fn session_step(before: SessionManager, after: SessionManager) -> bool {
    ||| exists|id: Seq<char>, now: int, r: Result<Session, SessionError>| #[trigger] created_at(before, after, id, now, r)
    ||| exists|id: Seq<char>, now: int, r: Result<Session, SessionError>| #[trigger] looked_up_at(before, after, id, now, r)
    ||| exists|id: Seq<char>, msg: MessageView, now: int, r: Result<(), SessionError>| #[trigger] message_added_at(before, after, id, msg, now, r)
    ||| exists|id: Seq<char>, now: int, r: Result<Vec<Message>, SessionError>| #[trigger] history_read_at(before, after, id, now, r)
    ||| exists|id: Seq<char>, now: int, r: Result<(), SessionError>| #[trigger] session_cleared_at(before, after, id, now, r)
}

/// Adding a message leaves that session with at most `max_history` messages,
/// however many it held before.
pub proof fn law_added_history_within_limit(
    before: SessionManager,
    after: SessionManager,
    id: Seq<char>,
    msg: MessageView,
    now: int,
    r: Result<(), SessionError>,
)
    requires
        message_added_at(before, after, id, msg, now, r),
        r is Ok,
    ensures
        after@[id].messages.len() <= after.max_history(),
{
}

/// Each session operation keeps every history within the limit.
pub proof fn law_step_keeps_history_limit(before: SessionManager, after: SessionManager)
    requires
        histories_within(before@, before.max_history()),
        session_step(before, after),
    ensures
        histories_within(after@, after.max_history()),
        after.max_history() == before.max_history(),
        after.ttl() == before.ttl(),
{
    reveal(session_step);
    if exists|id: Seq<char>, now: int, r: Result<Session, SessionError>| #[trigger] created_at(before, after, id, now, r) {
        let (id, now, r) = choose|id: Seq<char>, now: int, r: Result<Session, SessionError>| #[trigger] created_at(before, after, id, now, r);
        assert forall|k: Seq<char>| #[trigger] after@.contains_key(k) implies after@[k].messages.len() <= after.max_history() by {
            if k != id {
                assert(before@.contains_key(k));
            }
        }
    } else if exists|id: Seq<char>, now: int, r: Result<Session, SessionError>| #[trigger] looked_up_at(before, after, id, now, r) {
        let (id, now, r) = choose|id: Seq<char>, now: int, r: Result<Session, SessionError>| #[trigger] looked_up_at(before, after, id, now, r);
        assert forall|k: Seq<char>| #[trigger] after@.contains_key(k) implies after@[k].messages.len() <= after.max_history() by {
            assert(before@.contains_key(k));
        }
    } else if exists|id: Seq<char>, msg: MessageView, now: int, r: Result<(), SessionError>| #[trigger] message_added_at(before, after, id, msg, now, r) {
        let (id, msg, now, r) = choose|id: Seq<char>, msg: MessageView, now: int, r: Result<(), SessionError>| #[trigger] message_added_at(before, after, id, msg, now, r);
        assert forall|k: Seq<char>| #[trigger] after@.contains_key(k) implies after@[k].messages.len() <= after.max_history() by {
            if k != id {
                assert(before@.contains_key(k));
            }
        }
    } else if exists|id: Seq<char>, now: int, r: Result<Vec<Message>, SessionError>| #[trigger] history_read_at(before, after, id, now, r) {
        let (id, now, r) = choose|id: Seq<char>, now: int, r: Result<Vec<Message>, SessionError>| #[trigger] history_read_at(before, after, id, now, r);
        assert forall|k: Seq<char>| #[trigger] after@.contains_key(k) implies after@[k].messages.len() <= after.max_history() by {
            assert(before@.contains_key(k));
        }
    } else {
        let (id, now, r) = choose|id: Seq<char>, now: int, r: Result<(), SessionError>| #[trigger] session_cleared_at(before, after, id, now, r);
        assert forall|k: Seq<char>| #[trigger] after@.contains_key(k) implies after@[k].messages.len() <= after.max_history() by {
            if k != id {
                assert(before@.contains_key(k));
            }
        }
    }
}

/// Over any sequence of session operations, a manager whose histories are
/// within its limit keeps them within it: no session ever holds more than
/// `max_history` messages.
pub proof fn law_history_limit_over_any_sequence(states: Seq<SessionManager>)
    requires
        states.len() > 0,
        histories_within(states[0]@, states[0].max_history()),
        forall|i: int| 0 <= i < states.len() - 1 ==> session_step(#[trigger] states[i], states[i + 1]),
    ensures
        forall|i: int| 0 <= i < states.len() ==> histories_within((#[trigger] states[i])@, states[0].max_history()),
        forall|i: int| 0 <= i < states.len() ==> (#[trigger] states[i]).ttl() == states[0].ttl()
            && states[i].max_history() == states[0].max_history(),
    decreases states.len(),
{
    if states.len() > 1 {
        let front = states.drop_last();
        assert forall|i: int| 0 <= i < front.len() - 1 implies session_step(#[trigger] front[i], front[i + 1]) by {
            assert(front[i] == states[i]);
            assert(front[i + 1] == states[i + 1]);
            assert(session_step(states[i], states[i + 1]));
        }
        law_history_limit_over_any_sequence(front);
        let n = states.len() - 1;
        assert(front[0] == states[0]);
        assert(front[n - 1] == states[n - 1]);
        assert(session_step(states[n - 1], states[n]));
        law_step_keeps_history_limit(states[n - 1], states[n]);
        assert forall|i: int| 0 <= i < states.len() implies histories_within((#[trigger] states[i])@, states[0].max_history())
            && states[i].ttl() == states[0].ttl() && states[i].max_history() == states[0].max_history() by {
            if i < n {
                assert(front[i] == states[i]);
            }
        }
    }
}

/// A session left idle for more than the time-to-live is reported expired
/// when it is looked up.
pub proof fn law_idle_session_reported_expired(
    before: SessionManager,
    after: SessionManager,
    id: Seq<char>,
    now: int,
    r: Result<Session, SessionError>,
)
    requires
        before@.contains_key(id),
        before.ttl() matches Some(t) && expired_at(before@[id].updated_at, t as int, now),
        looked_up_at(before, after, id, now, r),
    ensures
        r matches Err(SessionError::Expired(e)) && e@ == id,
        !after@.contains_key(id),
{
}

} // verus!
