//! The session manager: sessions by id, the history limit, time-to-live expiry,
//! and the persistence actions (save, delete) that each change calls for.

use vstd::prelude::*;

use crate::session::persistence::SessionPersistenceManager;
use crate::session::types::{Message, MessageView, Session, SessionConfig, SessionView, expired_at};
use crate::text::{concat2, str_equal};

verus! {

broadcast use vstd::string::group_string_axioms;

/// Why a session operation was refused.
#[derive(Debug, Clone)]
pub enum SessionError {
    /// No session has this id.
    NotFound(String),
    /// The session had expired; it has been removed.
    Expired(String),
}

impl SessionError {
    /// The error message: "Session not found: <id>" or "Session expired: <id>".
    pub fn message(&self) -> (m: String)
        ensures
            self matches SessionError::NotFound(id) ==> m@ == "Session not found: "@ + id@,
            self matches SessionError::Expired(id) ==> m@ == "Session expired: "@ + id@,
    {
        match self {
            SessionError::NotFound(id) => concat2("Session not found: ", id.as_str()),
            SessionError::Expired(id) => concat2("Session expired: ", id.as_str()),
        }
    }
}

/// Work for the persistence layer that a change of the sessions calls for.
#[derive(Debug, Clone)]
pub enum PersistenceAction {
    /// Write this session state to disk.
    Save(Session),
    /// Remove the stored file of this session id.
    Delete(String),
}

/// Mathematical value of a persistence action.
pub enum PersistenceActionView {
    Save(SessionView),
    Delete(Seq<char>),
}

impl View for PersistenceAction {
    type V = PersistenceActionView;

    open spec fn view(&self) -> PersistenceActionView {
        match self {
            PersistenceAction::Save(s) => PersistenceActionView::Save(s@),
            PersistenceAction::Delete(id) => PersistenceActionView::Delete(id@),
        }
    }
}

/// The values of a list of persistence actions.
pub open spec fn actions_view(v: Seq<PersistenceAction>) -> Seq<PersistenceActionView> {
    v.map_values(|a: PersistenceAction| a@)
}

/// The last `max` messages of `msgs` (all of them when there are at most `max`).
pub open spec fn trim_history(msgs: Seq<MessageView>, max: nat) -> Seq<MessageView> {
    if msgs.len() > max {
        msgs.subrange(msgs.len() - max, msgs.len() as int)
    } else {
        msgs
    }
}

/// How an access to a session id resolves.
pub enum Access {
    /// No session has the id.
    Missing,
    /// The session exists but its time-to-live has run out.
    Expired,
    /// The session exists and is live.
    Live,
}

/// How an access to `id` at time `now` resolves among the sessions `m` under
/// time-to-live `ttl`.
pub open spec fn access_in(m: Map<Seq<char>, SessionView>, ttl: Option<i64>, id: Seq<char>, now: int) -> Access {
    if !m.contains_key(id) {
        Access::Missing
    } else if ttl matches Some(t) && expired_at(m[id].updated_at, t as int, now) {
        Access::Expired
    } else {
        Access::Live
    }
}

/// The session manager.
pub struct SessionManager {
    sessions: Vec<Session>,
    config: SessionConfig,
    persistence_manager: Option<SessionPersistenceManager>,
    pending: Vec<PersistenceAction>,
    model: Ghost<Map<Seq<char>, SessionView>>,
}

impl View for SessionManager {
    type V = Map<Seq<char>, SessionView>;

    /// The sessions by id.
    closed spec fn view(&self) -> Map<Seq<char>, SessionView> {
        self.model@
    }
}

impl SessionManager {
    /// The internal consistency of the manager.
    pub closed spec fn wf(&self) -> bool {
        &&& forall|i: int, j: int|
            0 <= i < self.sessions@.len() && 0 <= j < self.sessions@.len() && i != j
                ==> self.sessions@[i].id@ != self.sessions@[j].id@
        &&& forall|i: int|
            0 <= i < self.sessions@.len() ==> self.model@.contains_key(#[trigger] self.sessions@[i].id@)
                && self.model@[self.sessions@[i].id@] == self.sessions@[i]@
        &&& forall|k: Seq<char>|
            #[trigger] self.model@.contains_key(k) ==> exists|i: int|
                0 <= i < self.sessions@.len() && self.sessions@[i].id@ == k
        &&& self.model@.dom().finite()
        &&& self.model@.dom().len() == self.sessions@.len()
    }

    /// Most messages a session keeps.
    pub closed spec fn max_history(&self) -> nat {
        self.config.max_history_length as nat
    }

    /// Time-to-live in seconds, if sessions expire.
    pub closed spec fn ttl(&self) -> Option<i64> {
        self.config.session_ttl
    }

    /// Whether a persistence manager is attached.
    pub closed spec fn persists(&self) -> bool {
        self.persistence_manager is Some
    }

    /// Persistence work not yet taken by the caller, oldest first.
    pub closed spec fn pending(&self) -> Seq<PersistenceActionView> {
        actions_view(self.pending@)
    }

    /// How an access to `id` at time `now` resolves.
    pub open spec fn access(&self, id: Seq<char>, now: int) -> Access {
        access_in(self@, self.ttl(), id, now)
    }

    /// `pending` after a change that calls for `action`.
    pub open spec fn pending_after(&self, action: PersistenceActionView) -> Seq<PersistenceActionView> {
        if self.persists() {
            self.pending().push(action)
        } else {
            self.pending()
        }
    }

    /// An empty manager with the given limits and no persistence.
    pub fn new(config: SessionConfig) -> (m: SessionManager)
        ensures
            m.wf(),
            m@ == Map::<Seq<char>, SessionView>::empty(),
            m.max_history() == config.max_history_length,
            m.ttl() == config.session_ttl,
            !m.persists(),
            m.pending() == Seq::<PersistenceActionView>::empty(),
    {
        let m = SessionManager {
            sessions: Vec::new(),
            config,
            persistence_manager: None,
            pending: Vec::new(),
            model: Ghost(Map::empty()),
        };
        assert(m.pending() =~= Seq::<PersistenceActionView>::empty());
        m
    }

    /// An empty manager with the given limits that reports persistence work.
    pub fn with_persistence(config: SessionConfig, pm: SessionPersistenceManager) -> (m: SessionManager)
        ensures
            m.wf(),
            m@ == Map::<Seq<char>, SessionView>::empty(),
            m.max_history() == config.max_history_length,
            m.ttl() == config.session_ttl,
            m.persists(),
            m.pending() == Seq::<PersistenceActionView>::empty(),
    {
        let mut m = SessionManager::new(config);
        m.persistence_manager = Some(pm);
        m
    }

    /// Takes new limits; they apply to the messages added and the accesses
    /// made from now on. The sessions and the persistence work stay.
    pub fn set_config(&mut self, config: SessionConfig)
        requires
            old(self).wf(),
        ensures
            final(self).wf(),
            final(self)@ == old(self)@,
            final(self).max_history() == config.max_history_length,
            final(self).ttl() == config.session_ttl,
            final(self).persists() == old(self).persists(),
            final(self).pending() == old(self).pending(),
    {
        self.config = config;
        assert(self.sessions@ == old(self).sessions@);
        assert(self.model@ == old(self).model@);
    }

    /// Attaches a persistence manager; later changes report persistence work.
    pub fn set_persistence_manager(&mut self, pm: SessionPersistenceManager)
        requires
            old(self).wf(),
        ensures
            final(self).wf(),
            final(self)@ == old(self)@,
            final(self).max_history() == old(self).max_history(),
            final(self).ttl() == old(self).ttl(),
            final(self).persists(),
            final(self).pending() == old(self).pending(),
    {
        self.persistence_manager = Some(pm);
        assert(self.sessions@ == old(self).sessions@);
        assert(self.model@ == old(self).model@);
    }

    /// The attached persistence manager, if any.
    pub fn get_persistence_manager(&self) -> (pm: Option<&SessionPersistenceManager>)
        ensures
            pm is Some == self.persists(),
    {
        self.persistence_manager.as_ref()
    }

    /// Index of the session with id `id`.
    fn find_index(&self, id: &str) -> (r: Option<usize>)
        requires
            self.wf(),
        ensures
            r matches Some(i) ==> i < self.sessions@.len() && self.sessions@[i as int].id@ == id@,
            r is None <==> !self@.contains_key(id@),
    {
        let mut i: usize = 0;
        while i < self.sessions.len()
            invariant
                self.wf(),
                i <= self.sessions@.len(),
                forall|j: int| 0 <= j < i ==> self.sessions@[j].id@ != id@,
            decreases self.sessions.len() - i,
        {
            if str_equal(self.sessions[i].id.as_str(), id) {
                return Some(i);
            }
            i = i + 1;
        }
        proof {
            if self@.contains_key(id@) {
                let j = choose|j: int| 0 <= j < self.sessions@.len() && self.sessions@[j].id@ == id@;
                assert(self.sessions@[j].id@ == id@);
            }
        }
        None
    }

    /// Replaces the session at `i` by one with the same id.
    fn replace_at(&mut self, i: usize, s: Session)
        requires
            old(self).wf(),
            i < old(self).sessions@.len(),
            s@.id == old(self).sessions@[i as int].id@,
        ensures
            final(self).wf(),
            final(self)@ == old(self)@.insert(s@.id, s@),
            final(self).config == old(self).config,
            final(self).persistence_manager == old(self).persistence_manager,
            final(self).pending == old(self).pending,
    {
        let ghost k = s@.id;
        let ghost sv = s@;
        self.sessions.set(i, s);
        proof {
            self.model@ = self.model@.insert(k, sv);
            assert(self.model@.dom() =~= old(self).model@.dom());
            assert forall|j: int| 0 <= j < self.sessions@.len() implies self.model@.contains_key(
                #[trigger] self.sessions@[j].id@,
            ) && self.model@[self.sessions@[j].id@] == self.sessions@[j]@ by {
                if j != i {
                    assert(self.sessions@[j] == old(self).sessions@[j]);
                }
            }
            assert forall|key: Seq<char>| #[trigger] self.model@.contains_key(key) implies exists|
                j: int,
            | 0 <= j < self.sessions@.len() && self.sessions@[j].id@ == key by {
                let j = choose|j: int| 0 <= j < old(self).sessions@.len() && old(self).sessions@[j].id@ == key;
                assert(self.sessions@[j].id@ == key);
            }
        }
    }

    /// Adds a session whose id no session has.
    fn push_new(&mut self, s: Session)
        requires
            old(self).wf(),
            !old(self)@.contains_key(s@.id),
        ensures
            final(self).wf(),
            final(self)@ == old(self)@.insert(s@.id, s@),
            final(self).config == old(self).config,
            final(self).persistence_manager == old(self).persistence_manager,
            final(self).pending == old(self).pending,
    {
        let ghost k = s@.id;
        let ghost sv = s@;
        let ghost n = self.sessions@.len();
        self.sessions.push(s);
        proof {
            self.model@ = self.model@.insert(k, sv);
            assert forall|a: int, b: int|
                0 <= a < self.sessions@.len() && 0 <= b < self.sessions@.len() && a != b
                    implies self.sessions@[a].id@ != self.sessions@[b].id@ by {
                if a < n && b < n {
                    assert(self.sessions@[a] == old(self).sessions@[a]);
                    assert(self.sessions@[b] == old(self).sessions@[b]);
                } else if a < n {
                    assert(old(self).model@.contains_key(old(self).sessions@[a].id@));
                } else if b < n {
                    assert(old(self).model@.contains_key(old(self).sessions@[b].id@));
                }
            }
            assert forall|j: int| 0 <= j < self.sessions@.len() implies self.model@.contains_key(
                #[trigger] self.sessions@[j].id@,
            ) && self.model@[self.sessions@[j].id@] == self.sessions@[j]@ by {
                if j < n {
                    assert(self.sessions@[j] == old(self).sessions@[j]);
                    assert(old(self).model@.contains_key(old(self).sessions@[j].id@));
                }
            }
            assert forall|key: Seq<char>| #[trigger] self.model@.contains_key(key) implies exists|
                j: int,
            | 0 <= j < self.sessions@.len() && self.sessions@[j].id@ == key by {
                if key == k {
                    assert(self.sessions@[n as int].id@ == key);
                } else {
                    let j = choose|j: int| 0 <= j < old(self).sessions@.len() && old(self).sessions@[j].id@ == key;
                    assert(self.sessions@[j].id@ == key);
                }
            }
        }
    }

    /// Removes the session at `i`.
    fn remove_at(&mut self, i: usize)
        requires
            old(self).wf(),
            i < old(self).sessions@.len(),
        ensures
            final(self).wf(),
            final(self)@ == old(self)@.remove(old(self).sessions@[i as int].id@),
            final(self).sessions@ == old(self).sessions@.remove(i as int),
            final(self).config == old(self).config,
            final(self).persistence_manager == old(self).persistence_manager,
            final(self).pending == old(self).pending,
    {
        let ghost k = self.sessions@[i as int].id@;
        let ghost old_s = self.sessions@;
        self.sessions.remove(i);
        proof {
            self.model@ = self.model@.remove(k);
            assert forall|a: int, b: int|
                0 <= a < self.sessions@.len() && 0 <= b < self.sessions@.len() && a != b
                    implies self.sessions@[a].id@ != self.sessions@[b].id@ by {
                let a0 = if a < i { a } else { a + 1 };
                let b0 = if b < i { b } else { b + 1 };
                assert(self.sessions@[a] == old_s[a0]);
                assert(self.sessions@[b] == old_s[b0]);
            }
            assert forall|j: int| 0 <= j < self.sessions@.len() implies self.model@.contains_key(
                #[trigger] self.sessions@[j].id@,
            ) && self.model@[self.sessions@[j].id@] == self.sessions@[j]@ by {
                let j0 = if j < i { j } else { j + 1 };
                assert(self.sessions@[j] == old_s[j0]);
                assert(old_s[j0].id@ != k);
                assert(old(self).model@.contains_key(old_s[j0].id@));
            }
            assert forall|key: Seq<char>| #[trigger] self.model@.contains_key(key) implies exists|
                j: int,
            | 0 <= j < self.sessions@.len() && self.sessions@[j].id@ == key by {
                let j0 = choose|j: int| 0 <= j < old_s.len() && old_s[j].id@ == key;
                assert(j0 != i);
                let j = if j0 < i { j0 } else { j0 - 1 };
                assert(self.sessions@[j] == old_s[j0]);
            }
        }
    }

    /// Resolves an access to `id` at time `now`: the index of the live session,
    /// or the error; an expired session is removed.
    fn check_access(&mut self, id: &str, now: i64) -> (r: Result<usize, SessionError>)
        requires
            old(self).wf(),
        ensures
            final(self).wf(),
            final(self).config == old(self).config,
            final(self).persistence_manager == old(self).persistence_manager,
            final(self).pending == old(self).pending,
            old(self).access(id@, now as int) is Missing ==> final(self)@ == old(self)@
                && (r matches Err(SessionError::NotFound(e)) && e@ == id@),
            old(self).access(id@, now as int) is Expired ==> final(self)@ == old(self)@.remove(id@)
                && (r matches Err(SessionError::Expired(e)) && e@ == id@),
            old(self).access(id@, now as int) is Live ==> final(self)@ == old(self)@
                && (r matches Ok(i) && i < final(self).sessions@.len()
                && final(self).sessions@[i as int].id@ == id@ && final(self).sessions == old(self).sessions),
    {
        match self.find_index(id) {
            None => Err(SessionError::NotFound(crate::text::owned(id))),
            Some(i) => {
                match self.config.session_ttl {
                    Some(ttl) => {
                        if self.sessions[i].is_expired_at(ttl, now) {
                            self.remove_at(i);
                            Err(SessionError::Expired(crate::text::owned(id)))
                        } else {
                            Ok(i)
                        }
                    },
                    None => Ok(i),
                }
            },
        }
    }

    /// Records a persistence action when a persistence manager is attached.
    fn note(&mut self, action: PersistenceAction)
        requires
            old(self).wf(),
        ensures
            final(self).wf(),
            final(self)@ == old(self)@,
            final(self).config == old(self).config,
            final(self).persistence_manager == old(self).persistence_manager,
            final(self).pending() == old(self).pending_after(action@),
            final(self).sessions == old(self).sessions,
    {
        if self.persistence_manager.is_some() {
            let ghost before = self.pending@;
            self.pending.push(action);
            assert(actions_view(self.pending@) =~= actions_view(before).push(action@));
        }
        assert(self.sessions@ == old(self).sessions@);
        assert(self.model@ == old(self).model@);
    }

    /// Creates an empty session with id `session_id` at time `now`, replacing any
    /// session with that id, and asks for it to be saved.
    pub fn create_session_with_id_at(&mut self, session_id: String, now: i64) -> (r: Result<Session, SessionError>)
        requires
            old(self).wf(),
        ensures
            final(self).wf(),
            created_at(*old(self), *final(self), session_id@, now as int, r),

    {
        let session = Session::new_at(session_id, now);
        let copy = session.duplicate();
        let saved = session.duplicate();
        match self.find_index(copy.id.as_str()) {
            Some(i) => self.replace_at(i, session),
            None => self.push_new(session),
        }
        self.note(PersistenceAction::Save(saved));
        Ok(copy)
    }

    /// Creates an empty session with id `session_id` now, replacing any session
    /// with that id, and asks for it to be saved.
    pub fn create_session_with_id(&mut self, session_id: String) -> (r: Result<Session, SessionError>)
        requires
            old(self).wf(),
        ensures
            final(self).wf(),
            exists|t: int| #[trigger] created_at(*old(self), *final(self), session_id@, t, r),

    {
        let now = crate::clock::current_time_millis();
        self.create_session_with_id_at(session_id, now)
    }

    /// Creates an empty session under a fresh random id.
    pub fn create_session(&mut self) -> (r: Result<Session, SessionError>)
        requires
            old(self).wf(),
        ensures
            final(self).wf(),
            exists|t: int| #[trigger] created_at(*old(self), *final(self), r->Ok_0@.id, t, r),
            r matches Ok(s) && s@.id.len() == 36,

    {
        let id = new_session_id();
        let ghost idv = id@;
        let r = self.create_session_with_id(id);
        proof {
            let t = choose|t: int| #[trigger] created_at(*old(self), *self, idv, t, r);
            assert(r->Ok_0@.id == idv);
            assert(created_at(*old(self), *self, r->Ok_0@.id, t, r));
        }
        r
    }

    /// The session `session_id` as of time `now`.
    pub fn get_session_at(&mut self, session_id: &str, now: i64) -> (r: Result<Session, SessionError>)
        requires
            old(self).wf(),
        ensures
            final(self).wf(),
            looked_up_at(*old(self), *final(self), session_id@, now as int, r),

    {
        match self.check_access(session_id, now) {
            Err(e) => Err(e),
            Ok(i) => Ok(self.sessions[i].duplicate()),
        }
    }

    /// The session `session_id` as of now.
    pub fn get_session(&mut self, session_id: &str) -> (r: Result<Session, SessionError>)
        requires
            old(self).wf(),
        ensures
            final(self).wf(),
            exists|t: int| #[trigger] looked_up_at(*old(self), *final(self), session_id@, t, r),

    {
        let now = crate::clock::current_time_millis();
        self.get_session_at(session_id, now)
    }

    /// Adds (or replaces) a session as it is, without asking for it to be saved.
    pub fn add_session(&mut self, session: Session)
        requires
            old(self).wf(),
        ensures
            final(self).wf(),
            final(self)@ == old(self)@.insert(session@.id, session@),
            final(self).max_history() == old(self).max_history(),
            final(self).ttl() == old(self).ttl(),
            final(self).persists() == old(self).persists(),
            final(self).pending() == old(self).pending(),
    {
        match self.find_index(session.id.as_str()) {
            Some(i) => self.replace_at(i, session),
            None => self.push_new(session),
        }
    }

    /// Appends `message` to session `session_id` at time `now`, keeps only the
    /// newest `max_history_length` messages, and asks for the session to be saved.
    pub fn add_message_at(&mut self, session_id: &str, message: Message, now: i64) -> (r: Result<(), SessionError>)
        requires
            old(self).wf(),
        ensures
            final(self).wf(),
            message_added_at(*old(self), *final(self), session_id@, message@, now as int, r),

    {
        match self.check_access(session_id, now) {
            Err(e) => Err(e),
            Ok(i) => {
                let mut s = self.sessions[i].duplicate();
                let ghost before = s@;
                let ghost mv = message@;
                s.add_message_at(message, now);
                let max = self.config.max_history_length;
                if s.messages.len() > max {
                    let excess = s.messages.len() - max;
                    let ghost full = s.messages@;
                    let tail = s.messages.split_off(excess);
                    s.messages = tail;
                    assert(crate::session::types::messages_view(s.messages@) =~= trim_history(
                        crate::session::types::messages_view(full),
                        max as nat,
                    ));
                }
                assert(s@ == (SessionView {
                    messages: trim_history(before.messages.push(mv), max as nat),
                    updated_at: now as int,
                    ..before
                }));
                let saved = s.duplicate();
                self.replace_at(i, s);
                self.note(PersistenceAction::Save(saved));
                Ok(())
            },
        }
    }

    /// Appends `message` to session `session_id` now (see `add_message_at`).
    pub fn add_message(&mut self, session_id: &str, message: Message) -> (r: Result<(), SessionError>)
        requires
            old(self).wf(),
        ensures
            final(self).wf(),
            exists|t: int| #[trigger] message_added_at(*old(self), *final(self), session_id@, message@, t, r),

    {
        let now = crate::clock::current_time_millis();
        let r = self.add_message_at(session_id, message, now);
        proof {
            if r is Ok {
                assert(final(self)@.dom() =~= old(self)@.dom());
            }
        }
        r
    }

    /// The messages of session `session_id` as of time `now`.
    pub fn get_history_at(&mut self, session_id: &str, now: i64) -> (r: Result<Vec<Message>, SessionError>)
        requires
            old(self).wf(),
        ensures
            final(self).wf(),
            history_read_at(*old(self), *final(self), session_id@, now as int, r),

    {
        match self.check_access(session_id, now) {
            Err(e) => Err(e),
            Ok(i) => Ok(crate::session::types::copy_messages(&self.sessions[i].messages)),
        }
    }

    /// The messages of session `session_id` as of now.
    pub fn get_history(&mut self, session_id: &str) -> (r: Result<Vec<Message>, SessionError>)
        requires
            old(self).wf(),
        ensures
            final(self).wf(),
            exists|t: int| #[trigger] history_read_at(*old(self), *final(self), session_id@, t, r),

    {
        let now = crate::clock::current_time_millis();
        self.get_history_at(session_id, now)
    }

    /// Removes every message of session `session_id` at time `now` and asks for
    /// the session to be saved.
    pub fn clear_session_at(&mut self, session_id: &str, now: i64) -> (r: Result<(), SessionError>)
        requires
            old(self).wf(),
        ensures
            final(self).wf(),
            session_cleared_at(*old(self), *final(self), session_id@, now as int, r),

    {
        match self.check_access(session_id, now) {
            Err(e) => Err(e),
            Ok(i) => {
                let mut s = self.sessions[i].duplicate();
                s.clear_messages_at(now);
                let saved = s.duplicate();
                self.replace_at(i, s);
                self.note(PersistenceAction::Save(saved));
                Ok(())
            },
        }
    }

    /// Removes every message of session `session_id` now.
    pub fn clear_session(&mut self, session_id: &str) -> (r: Result<(), SessionError>)
        requires
            old(self).wf(),
        ensures
            final(self).wf(),
            exists|t: int| #[trigger] session_cleared_at(*old(self), *final(self), session_id@, t, r),

    {
        let now = crate::clock::current_time_millis();
        let r = self.clear_session_at(session_id, now);
        proof {
            if r is Ok {
                assert(final(self)@.dom() =~= old(self)@.dom());
            }
        }
        r
    }

    /// Removes session `session_id` (expired or not) and asks for its stored
    /// file to be deleted.
    pub fn delete_session(&mut self, session_id: &str) -> (r: Result<(), SessionError>)
        requires
            old(self).wf(),
        ensures
            final(self).wf(),
            final(self).max_history() == old(self).max_history(),
            final(self).ttl() == old(self).ttl(),
            final(self).persists() == old(self).persists(),
            !old(self)@.contains_key(session_id@) ==> final(self)@ == old(self)@
                && final(self).pending() == old(self).pending()
                && (r matches Err(SessionError::NotFound(e)) && e@ == session_id@),
            old(self)@.contains_key(session_id@) ==> r is Ok
                && final(self)@ == old(self)@.remove(session_id@)
                && final(self).pending() == old(self).pending_after(PersistenceActionView::Delete(session_id@)),
    {
        match self.find_index(session_id) {
            None => Err(SessionError::NotFound(crate::text::owned(session_id))),
            Some(i) => {
                self.remove_at(i);
                self.note(PersistenceAction::Delete(crate::text::owned(session_id)));
                Ok(())
            },
        }
    }

    /// The ids of all sessions, each once.
    pub fn list_sessions(&self) -> (ids: Vec<String>)
        requires
            self.wf(),
        ensures
            ids@.len() == self@.dom().len(),
            forall|i: int, j: int| 0 <= i < ids@.len() && 0 <= j < ids@.len() && i != j ==> ids@[i]@ != ids@[j]@,
            forall|k: Seq<char>| self@.contains_key(k) <==> exists|i: int| 0 <= i < ids@.len() && ids@[i]@ == k,
    {
        let mut ids: Vec<String> = Vec::new();
        let mut i: usize = 0;
        while i < self.sessions.len()
            invariant
                self.wf(),
                i <= self.sessions@.len(),
                ids@.len() == i,
                forall|j: int| 0 <= j < i ==> #[trigger] ids@[j]@ == self.sessions@[j].id@,
            decreases self.sessions.len() - i,
        {
            ids.push(self.sessions[i].id.clone());
            i = i + 1;
        }
        assert forall|k: Seq<char>| self@.contains_key(k) implies exists|i: int| 0 <= i < ids@.len() && ids@[i]@ == k by {
            let j = choose|j: int| 0 <= j < self.sessions@.len() && self.sessions@[j].id@ == k;
            assert(ids@[j]@ == k);
        }
        assert forall|k: Seq<char>| (exists|i: int| 0 <= i < ids@.len() && ids@[i]@ == k) implies self@.contains_key(k) by {
            let j = choose|j: int| 0 <= j < ids@.len() && ids@[j]@ == k;
            assert(self.model@.contains_key(self.sessions@[j].id@));
        }
        ids
    }

    /// The number of sessions.
    pub fn session_count(&self) -> (n: usize)
        requires
            self.wf(),
        ensures
            n == self@.dom().len(),
    {
        self.sessions.len()
    }

    /// The sessions of `m` that have not expired at time `now` under `ttl`.
    pub open spec fn unexpired(m: Map<Seq<char>, SessionView>, ttl: int, now: int) -> Map<Seq<char>, SessionView> {
        Map::new(
            |k: Seq<char>| m.contains_key(k) && !expired_at(m[k].updated_at, ttl, now),
            |k: Seq<char>| m[k],
        )
    }

    /// The ids of the sessions of `m` that have expired at time `now` under `ttl`.
    pub open spec fn expired_ids(m: Map<Seq<char>, SessionView>, ttl: int, now: int) -> Set<Seq<char>> {
        m.dom().filter(|k: Seq<char>| expired_at(m[k].updated_at, ttl, now))
    }

    /// Removes every session that has expired at time `now`, asks for the stored
    /// file of each to be deleted, and returns how many were removed. Without a
    /// time-to-live nothing expires.
    pub fn cleanup_expired_sessions_at(&mut self, now: i64) -> (n: usize)
        requires
            old(self).wf(),
        ensures
            final(self).wf(),
            expired_cleaned_at(*old(self), *final(self), now as int, n),

    {
        let ttl = match self.config.session_ttl {
            Some(t) => t,
            None => {
                return 0;
            },
        };
        let ghost orig = self@;
        let ghost orig_pending = self.pending();
        let ghost mut removed: Set<Seq<char>> = Set::empty();
        let mut count: usize = 0;
        let mut i: usize = 0;
        let n0 = self.sessions.len();
        while i < self.sessions.len()
            invariant
                self.wf(),
                self.config.session_ttl == Some(ttl),
                self.config.max_history_length == old(self).config.max_history_length,
                self.persistence_manager == old(self).persistence_manager,
                orig == old(self)@,
                orig_pending == old(self).pending(),
                orig.dom().finite(),
                orig.dom().len() == old(self).sessions@.len(),
                n0 == old(self).sessions@.len(),
                count + self.sessions@.len() == n0,
                i <= self.sessions@.len(),
                forall|k: Seq<char>| #[trigger] self@.contains_key(k) ==> orig.contains_key(k) && self@[k] == orig[k],
                forall|k: Seq<char>| #[trigger] orig.contains_key(k) ==> (self@.contains_key(k) || removed.contains(k)),
                forall|k: Seq<char>| #[trigger] removed.contains(k) ==> orig.contains_key(k) && !self@.contains_key(k)
                    && expired_at(orig[k].updated_at, ttl as int, now as int),
                forall|j: int| 0 <= j < i ==> !expired_at(#[trigger] self.sessions@[j].updated_at as int, ttl as int, now as int),
                removed.finite(),
                removed.len() == count,
                !self.persists() ==> self.pending() == orig_pending,
                self.persists() ==> {
                    &&& self.pending().len() == orig_pending.len() + count
                    &&& self.pending().subrange(0, orig_pending.len() as int) == orig_pending
                    &&& forall|j: int| orig_pending.len() <= j < self.pending().len() ==>
                        (#[trigger] self.pending()[j] matches PersistenceActionView::Delete(k) && removed.contains(k))
                    &&& forall|a: int, b: int| orig_pending.len() <= a < b < self.pending().len() ==>
                        #[trigger] self.pending()[a] != #[trigger] self.pending()[b]
                    &&& forall|k: Seq<char>| #[trigger] removed.contains(k) ==> exists|j: int|
                        orig_pending.len() <= j < self.pending().len()
                        && #[trigger] self.pending()[j] == PersistenceActionView::Delete(k)
                },
            decreases self.sessions@.len() - i,
        {
            if self.sessions[i].is_expired_at(ttl, now) {
                let id = self.sessions[i].id.clone();
                let ghost k = id@;
                let ghost before_pending = self.pending();
                let ghost before_sessions = self.sessions@;
                let ghost old_removed = removed;
                proof {
                    assert(self.model@.contains_key(self.sessions@[i as int].id@));
                    assert(!removed.contains(k));
                    assert(orig.contains_key(k));
                    assert(removed.insert(k).subset_of(orig.dom()));
                    vstd::set_lib::lemma_len_subset(removed.insert(k), orig.dom());
                    assert(removed.insert(k).len() == count + 1);
                    assert(count + 1 <= old(self).sessions@.len());
                }
                self.remove_at(i);
                self.note(PersistenceAction::Delete(id));
                proof {
                    removed = removed.insert(k);
                    if self.persists() {
                        assert(self.pending() == before_pending.push(PersistenceActionView::Delete(k)));
                        assert(self.pending().subrange(0, orig_pending.len() as int) =~= before_pending.subrange(0, orig_pending.len() as int));
                        assert forall|a: int, b: int| orig_pending.len() <= a < b < self.pending().len()
                            implies self.pending()[a] != self.pending()[b] by {
                            if b == self.pending().len() - 1 {
                                assert(self.pending()[a] == before_pending[a]);
                                assert(before_pending[a] matches PersistenceActionView::Delete(x) && old_removed.contains(x));
                                assert(!old_removed.contains(k));
                            } else {
                                assert(self.pending()[a] == before_pending[a]);
                                assert(self.pending()[b] == before_pending[b]);
                            }
                        }
                        assert forall|j: int| orig_pending.len() <= j < self.pending().len() implies
                            (#[trigger] self.pending()[j] matches PersistenceActionView::Delete(x) && removed.contains(x)) by {
                            if j < self.pending().len() - 1 {
                                assert(self.pending()[j] == before_pending[j]);
                            }
                        }
                        assert forall|x: Seq<char>| #[trigger] removed.contains(x) implies exists|j: int|
                            orig_pending.len() <= j < self.pending().len()
                            && #[trigger] self.pending()[j] == PersistenceActionView::Delete(x) by {
                            if x == k {
                                assert(self.pending()[self.pending().len() - 1] == PersistenceActionView::Delete(k));
                            } else {
                                assert(old_removed.contains(x));
                                let j = choose|j: int| orig_pending.len() <= j < before_pending.len()
                                    && #[trigger] before_pending[j] == PersistenceActionView::Delete(x);
                                assert(self.pending()[j] == before_pending[j]);
                            }
                        }
                    }
                    assert forall|j: int| 0 <= j < i implies !expired_at(#[trigger] self.sessions@[j].updated_at as int, ttl as int, now as int) by {
                        assert(self.sessions@[j] == before_sessions[j]);
                    }
                }
                count = count + 1;
            } else {
                i = i + 1;
            }
        }
        proof {
            assert(self@ =~= Self::unexpired(orig, ttl as int, now as int)) by {
                assert forall|k: Seq<char>| #[trigger] orig.contains_key(k) && !expired_at(orig[k].updated_at, ttl as int, now as int)
                    implies self@.contains_key(k) by {
                }
                assert forall|k: Seq<char>| #[trigger] self@.contains_key(k)
                    implies !expired_at(orig[k].updated_at, ttl as int, now as int) by {
                    let j = choose|j: int| 0 <= j < self.sessions@.len() && self.sessions@[j].id@ == k;
                    assert(self.model@[self.sessions@[j].id@] == self.sessions@[j]@);
                    assert(!expired_at(self.sessions@[j].updated_at as int, ttl as int, now as int));
                }
            }
            assert(removed =~= Self::expired_ids(orig, ttl as int, now as int));
        }
        count
    }

    /// Removes every session that has expired now (see `cleanup_expired_sessions_at`).
    pub fn cleanup_expired_sessions(&mut self) -> (n: usize)
        requires
            old(self).wf(),
        ensures
            final(self).wf(),
            exists|t: int| #[trigger] expired_cleaned_at(*old(self), *final(self), t, n),

    {
        let now = crate::clock::current_time_millis();
        self.cleanup_expired_sessions_at(now)
    }

    /// Hands over the persistence work recorded so far, oldest first.
    pub fn take_pending_actions(&mut self) -> (actions: Vec<PersistenceAction>)
        requires
            old(self).wf(),
        ensures
            final(self).wf(),
            final(self)@ == old(self)@,
            final(self).max_history() == old(self).max_history(),
            final(self).ttl() == old(self).ttl(),
            final(self).persists() == old(self).persists(),
            actions_view(actions@) == old(self).pending(),
            final(self).pending() == Seq::<PersistenceActionView>::empty(),
    {
        let mut taken: Vec<PersistenceAction> = Vec::new();
        std::mem::swap(&mut taken, &mut self.pending);
        assert(actions_view(self.pending@) =~= Seq::<PersistenceActionView>::empty());
        assert(self.sessions@ == old(self).sessions@);
        assert(self.model@ == old(self).model@);
        taken
    }
}

/// A fresh random session id: `uuid::Uuid::new_v4` written with `to_string`,
/// which gives the hyphenated form of 36 characters. Which id comes is left
/// open; only its length is claimed.
#[verifier::external_body]
fn new_session_id() -> (id: String)
    ensures
        id@.len() == 36,
{
    uuid::Uuid::new_v4().to_string()
}

/// What creating session `id` at time `now` does to the manager (`before`,
/// then `after`) and gives back (`r`): an empty session of that id, created
/// then, in place of any session of that id, and asked to be saved.
pub open spec fn created_at(before: SessionManager, after: SessionManager, id: Seq<char>, now: int, r: Result<Session, SessionError>) -> bool {
    &&& r matches Ok(s) && s@ == (SessionView {
            id: id,
            messages: Seq::empty(),
            created_at: now,
            updated_at: now,
        })
    &&& after@ == before@.insert(id, r->Ok_0@)
    &&& after.max_history() == before.max_history()
    &&& after.ttl() == before.ttl()
    &&& after.persists() == before.persists()
    &&& after.pending() == before.pending_after(PersistenceActionView::Save(r->Ok_0@))
}

/// What looking session `id` up at time `now` does to the manager (`before`,
/// then `after`) and gives back (`r`): a missing id is not found; an expired
/// session is removed and reported; a live one is handed back.
pub open spec fn looked_up_at(before: SessionManager, after: SessionManager, id: Seq<char>, now: int, r: Result<Session, SessionError>) -> bool {
    &&& after.max_history() == before.max_history()
    &&& after.ttl() == before.ttl()
    &&& after.persists() == before.persists()
    &&& after.pending() == before.pending()
    &&& before.access(id, now) is Missing ==> after@ == before@
            && (r matches Err(SessionError::NotFound(e)) && e@ == id)
    &&& before.access(id, now) is Expired ==> after@ == before@.remove(id)
            && (r matches Err(SessionError::Expired(e)) && e@ == id)
    &&& before.access(id, now) is Live ==> after@ == before@
            && (r matches Ok(s) && s@ == before@[id])
}

/// What adding `msg` to session `id` at time `now` does to the manager
/// (`before`, then `after`) and gives back (`r`): a live session takes the
/// message, keeps its newest `max_history` messages, counts as changed then
/// and is asked to be saved; a missing or expired one is refused as
/// [`looked_up_at`] refuses it.
pub open spec fn message_added_at(before: SessionManager, after: SessionManager, id: Seq<char>, msg: MessageView, now: int, r: Result<(), SessionError>) -> bool {
    &&& after.max_history() == before.max_history()
    &&& after.ttl() == before.ttl()
    &&& after.persists() == before.persists()
    &&& before.access(id, now) is Missing ==> after@ == before@
            && after.pending() == before.pending()
            && (r matches Err(SessionError::NotFound(e)) && e@ == id)
    &&& before.access(id, now) is Expired ==> after@ == before@.remove(id)
            && after.pending() == before.pending()
            && (r matches Err(SessionError::Expired(e)) && e@ == id)
    &&& before.access(id, now) is Live ==> r is Ok
            && after@ == before@.insert(id, SessionView {
                messages: trim_history(before@[id].messages.push(msg), before.max_history()),
                updated_at: now,
                ..before@[id]
            })
            && after.pending() == before.pending_after(PersistenceActionView::Save(after@[id]))
}

/// What reading the history of session `id` at time `now` does to the manager
/// (`before`, then `after`) and gives back (`r`): the messages of a live
/// session; a missing or expired one is refused as [`looked_up_at`] refuses it.
pub open spec fn history_read_at(before: SessionManager, after: SessionManager, id: Seq<char>, now: int, r: Result<Vec<Message>, SessionError>) -> bool {
    &&& after.max_history() == before.max_history()
    &&& after.ttl() == before.ttl()
    &&& after.persists() == before.persists()
    &&& after.pending() == before.pending()
    &&& before.access(id, now) is Missing ==> after@ == before@
            && (r matches Err(SessionError::NotFound(e)) && e@ == id)
    &&& before.access(id, now) is Expired ==> after@ == before@.remove(id)
            && (r matches Err(SessionError::Expired(e)) && e@ == id)
    &&& before.access(id, now) is Live ==> after@ == before@
            && (r matches Ok(h) && crate::session::types::messages_view(h@) == before@[id].messages)
}

/// What clearing session `id` at time `now` does to the manager (`before`,
/// then `after`) and gives back (`r`): a live session loses its messages,
/// counts as changed then and is asked to be saved; a missing or expired one
/// is refused as [`looked_up_at`] refuses it.
pub open spec fn session_cleared_at(before: SessionManager, after: SessionManager, id: Seq<char>, now: int, r: Result<(), SessionError>) -> bool {
    &&& after.max_history() == before.max_history()
    &&& after.ttl() == before.ttl()
    &&& after.persists() == before.persists()
    &&& before.access(id, now) is Missing ==> after@ == before@
            && after.pending() == before.pending()
            && (r matches Err(SessionError::NotFound(e)) && e@ == id)
    &&& before.access(id, now) is Expired ==> after@ == before@.remove(id)
            && after.pending() == before.pending()
            && (r matches Err(SessionError::Expired(e)) && e@ == id)
    &&& before.access(id, now) is Live ==> r is Ok
            && after@ == before@.insert(id, SessionView {
                messages: Seq::empty(),
                updated_at: now,
                ..before@[id]
            })
            && after.pending() == before.pending_after(PersistenceActionView::Save(after@[id]))
}

/// What removing the sessions expired at time `now` does to the manager
/// (`before`, then `after`) and gives back (`n`, how many were removed): only
/// the unexpired sessions stay, and with persistence a deletion of each
/// removed session's file is asked for, once. Without a time-to-live nothing
/// changes.
pub open spec fn expired_cleaned_at(before: SessionManager, after: SessionManager, now: int, n: usize) -> bool {
    &&& after.max_history() == before.max_history()
    &&& after.ttl() == before.ttl()
    &&& after.persists() == before.persists()
    &&& before.ttl() is None ==> n == 0 && after@ == before@
            && after.pending() == before.pending()
    &&& before.ttl() matches Some(t) ==> after@ == SessionManager::unexpired(before@, t as int, now)
            && n == SessionManager::expired_ids(before@, t as int, now).len()
    &&& before.ttl() is Some && !before.persists() ==> after.pending() == before.pending()
    &&& before.persists() ==> (before.ttl() matches Some(t) ==> {
            &&& after.pending().len() == before.pending().len() + n
            &&& after.pending().subrange(0, before.pending().len() as int) == before.pending()
            &&& forall|j: int| before.pending().len() <= j < after.pending().len() ==>
                (#[trigger] after.pending()[j] matches PersistenceActionView::Delete(k)
                    && SessionManager::expired_ids(before@, t as int, now).contains(k))
            &&& forall|a: int, b: int| before.pending().len() <= a < b < after.pending().len() ==>
                #[trigger] after.pending()[a] != #[trigger] after.pending()[b]
            &&& forall|k: Seq<char>| #[trigger] SessionManager::expired_ids(before@, t as int, now).contains(k)
                ==> exists|j: int| before.pending().len() <= j < after.pending().len()
                    && #[trigger] after.pending()[j] == PersistenceActionView::Delete(k)
        })
}

} // verus!
