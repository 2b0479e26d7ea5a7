//! A store of sessions kept in memory, by id.

use vstd::prelude::*;

use crate::keyed::KeyedList;
use crate::session::types::{Session, SessionView};

verus! {

/// Sessions kept in memory, by id.
pub struct InMemorySessionStore {
    sessions: KeyedList<Session>,
}

impl InMemorySessionStore {
    /// The store's invariant.
    pub closed spec fn wf(&self) -> bool {
        self.sessions.wf()
    }

    /// The stored sessions, by id, as values.
    pub closed spec fn stored(&self) -> Map<Seq<char>, SessionView> {
        self.sessions@.map_values(|s: Session| s@)
    }

    /// An empty store.
    pub fn new() -> (s: InMemorySessionStore)
        ensures
            s.wf(),
            s.stored() == Map::<Seq<char>, SessionView>::empty(),
    {
        let s = InMemorySessionStore { sessions: KeyedList::new() };
        assert(s.stored() =~= Map::<Seq<char>, SessionView>::empty());
        s
    }

    /// Keeps a copy of the session under its id, replacing one with that id.
    pub fn save(&mut self, session: &Session)
        requires
            old(self).wf(),
        ensures
            final(self).wf(),
            final(self).stored() == old(self).stored().insert(session.id@, session@),
    {
        let copy = session.duplicate();
        self.sessions.insert(session.id.clone(), copy);
        assert(self.stored() =~= old(self).stored().insert(session.id@, session@));
    }

    /// A copy of the session with this id, if stored.
    pub fn load(&self, session_id: &str) -> (r: Option<Session>)
        requires
            self.wf(),
        ensures
            self.stored().contains_key(session_id@) ==> (r matches Some(s) && s@ == self.stored()[session_id@]),
            !self.stored().contains_key(session_id@) ==> r is None,
    {
        match self.sessions.get(session_id) {
            Some(s) => Some(s.duplicate()),
            None => None,
        }
    }

    /// Forgets the session with this id.
    pub fn delete(&mut self, session_id: &str)
        requires
            old(self).wf(),
        ensures
            final(self).wf(),
            final(self).stored() == old(self).stored().remove(session_id@),
    {
        let ghost before = self.sessions@;
        self.sessions.remove(session_id);
        assert(self.stored() =~= old(self).stored().remove(session_id@));
    }

    /// The ids of the stored sessions, each once.
    pub fn list_ids(&self) -> (ids: Vec<String>)
        requires
            self.wf(),
        ensures
            ids@.len() == self.stored().dom().len(),
            forall|k: Seq<char>| self.stored().contains_key(k) <==> exists|i: int| 0 <= i < ids@.len() && ids@[i]@ == k,
    {
        let ks = self.sessions.keys();
        proof {
            self.sessions.lemma_names();
            assert(self.stored().dom() =~= self.sessions@.dom());
        }
        ks
    }
}

} // verus!
