use vstd::prelude::*;

use crate::error::AuthError;

verus! {

/// A server-side session: an opaque id, and the user it is bound to, if any.
/// An entry without a bound user is an anonymous session.
pub struct SessionEntry {
    pub session_id: String,
    pub bound_user_id: Option<i64>,
}

/// Session ids are unique.
pub open spec fn sessions_wf(s: Seq<SessionEntry>) -> bool {
    forall|i: int, j: int|
        0 <= i < s.len() && 0 <= j < s.len() && i != j ==> s[i].session_id@ != s[j].session_id@
}

pub open spec fn has_session(s: Seq<SessionEntry>, sid: Seq<char>) -> bool {
    exists|i: int| 0 <= i < s.len() && s[i].session_id@ == sid
}

pub open spec fn session_position(s: Seq<SessionEntry>, sid: Seq<char>) -> int {
    choose|i: int| 0 <= i < s.len() && s[i].session_id@ == sid
}

/// The user that the session is bound to; `None` for an unknown or
/// anonymous session.
pub open spec fn binding(s: Seq<SessionEntry>, sid: Seq<char>) -> Option<i64> {
    if has_session(s, sid) {
        s[session_position(s, sid)].bound_user_id
    } else {
        None
    }
}

/// `after` is `before` with the binding of session `sid` set to `b`, and
/// every other entry as it was.
pub open spec fn rebound(
    before: Seq<SessionEntry>,
    after: Seq<SessionEntry>,
    sid: Seq<char>,
    b: Option<i64>,
) -> bool {
    &&& after.len() == before.len()
    &&& forall|j: int|
        0 <= j < before.len() ==> {
            &&& (#[trigger] after[j]).session_id@ == before[j].session_id@
            &&& after[j].bound_user_id == if before[j].session_id@ == sid {
                b
            } else {
                before[j].bound_user_id
            }
        }
}

/// One value of a session's scratch data, kept apart from its binding.
pub struct SessionDatum {
    pub session_id: String,
    pub key: String,
    pub value: String,
}

/// The value most recently stored under `key` for session `sid`.
pub open spec fn lookup_data(d: Seq<SessionDatum>, sid: Seq<char>, key: Seq<char>) -> Option<
    Seq<char>,
>
    decreases d.len(),
{
    if d.len() == 0 {
        None
    } else if d.last().session_id@ == sid && d.last().key@ == key {
        Some(d.last().value@)
    } else {
        lookup_data(d.drop_last(), sid, key)
    }
}

/// The session store: one entry per client session, and the sessions'
/// scratch data.
pub struct SessionStore {
    sessions: Vec<SessionEntry>,
    data: Vec<SessionDatum>,
}

impl View for SessionStore {
    type V = Seq<SessionEntry>;

    closed spec fn view(&self) -> Seq<SessionEntry> {
        self.sessions@
    }
}

impl SessionStore {
    /// The scratch data, oldest first.
    pub closed spec fn data_view(&self) -> Seq<SessionDatum> {
        self.data@
    }

    pub open spec fn wf(&self) -> bool {
        sessions_wf(self@)
    }

    /// An empty store.
    pub fn new() -> (r: SessionStore)
        ensures
            r.wf(),
            r@ == Seq::<SessionEntry>::empty(),
            r.data_view() == Seq::<SessionDatum>::empty(),
    {
        SessionStore { sessions: Vec::new(), data: Vec::new() }
    }

    fn position(&self, sid: &String) -> (r: Option<usize>)
        requires
            self.wf(),
        ensures
            match r {
                Some(i) => i < self@.len() && self@[i as int].session_id@ == sid@ && session_position(
                    self@,
                    sid@,
                ) == i,
                None => !has_session(self@, sid@),
            },
    {
        let mut i: usize = 0;
        while i < self.sessions.len()
            invariant
                self.wf(),
                i <= self.sessions@.len(),
                forall|j: int| 0 <= j < i ==> self.sessions@[j].session_id@ != sid@,
            decreases self.sessions@.len() - i,
        {
            if self.sessions[i].session_id == *sid {
                proof {
                    assert(has_session(self@, sid@));
                    let p = session_position(self@, sid@);
                    if p != i {
                        assert(self@[p].session_id@ != self@[i as int].session_id@);
                    }
                }
                return Some(i);
            }
            i += 1;
        }
        None
    }

    /// Whether an entry with this id exists.
    pub fn contains(&self, sid: &String) -> (r: bool)
        requires
            self.wf(),
        ensures
            r == has_session(self@, sid@),
    {
        self.position(sid).is_some()
    }

    /// Returns the entry for `token`, creating an unbound one where there is
    /// none yet.
    pub fn create_or_get(&mut self, token: &String) -> (r: SessionEntry)
        requires
            old(self).wf(),
        ensures
            final(self).wf(),
            final(self).data_view() == old(self).data_view(),
            has_session(old(self)@, token@) ==> final(self)@ == old(self)@,
            !has_session(old(self)@, token@) ==> final(self)@ == old(self)@.push(
                (SessionEntry { session_id: r.session_id, bound_user_id: None }),
            ),
            has_session(final(self)@, token@),
            r.session_id@ == token@,
            r.bound_user_id == binding(final(self)@, token@),
    {
        match self.position(token) {
            Some(i) => {
                let e = &self.sessions[i];
                SessionEntry { session_id: e.session_id.clone(), bound_user_id: e.bound_user_id }
            },
            None => {
                let ghost before = self.sessions@;
                let fresh = SessionEntry { session_id: token.clone(), bound_user_id: None };
                let copy = SessionEntry { session_id: token.clone(), bound_user_id: None };
                self.sessions.push(fresh);
                proof {
                    let n = before.len() as int;
                    assert(self.sessions@[n].session_id@ == token@);
                    assert forall|i: int, j: int|
                        0 <= i < self.sessions@.len() && 0 <= j < self.sessions@.len() && i
                            != j implies self.sessions@[i].session_id@
                        != self.sessions@[j].session_id@ by {
                        if i < n && j < n {
                            assert(self.sessions@[i] == before[i]);
                            assert(self.sessions@[j] == before[j]);
                        } else if i == n {
                            assert(self.sessions@[j] == before[j]);
                        } else {
                            assert(self.sessions@[i] == before[i]);
                        }
                    }
                    assert(has_session(self@, token@));
                    let p = session_position(self@, token@);
                    if p != n {
                        assert(self@[p].session_id@ != self@[n].session_id@);
                    }
                }
                copy
            },
        }
    }

    /// The user that session `sid` is bound to, or `None` for an anonymous
    /// session.
    pub fn bound_user(&self, sid: &String) -> (r: Result<Option<i64>, AuthError>)
        requires
            self.wf(),
        ensures
            match r {
                Ok(b) => has_session(self@, sid@) && b == binding(self@, sid@),
                Err(e) => !has_session(self@, sid@) && e == AuthError::SessionNotFound,
            },
    {
        match self.position(sid) {
            Some(i) => Ok(self.sessions[i].bound_user_id),
            None => Err(AuthError::SessionNotFound),
        }
    }

    fn set_binding(&mut self, sid: &String, b: Option<i64>) -> (r: Result<(), AuthError>)
        requires
            old(self).wf(),
        ensures
            final(self).wf(),
            final(self).data_view() == old(self).data_view(),
            r is Ok <==> has_session(old(self)@, sid@),
            r is Ok ==> rebound(old(self)@, final(self)@, sid@, b),
            r matches Err(e) ==> e == AuthError::SessionNotFound && final(self)@ == old(self)@,
    {
        match self.position(sid) {
            Some(i) => {
                let ghost before = self.sessions@;
                let id = self.sessions[i].session_id.clone();
                self.sessions.set(i, SessionEntry { session_id: id, bound_user_id: b });
                proof {
                    assert forall|j: int| 0 <= j < before.len() implies {
                        &&& (#[trigger] self.sessions@[j]).session_id@ == before[j].session_id@
                        &&& self.sessions@[j].bound_user_id == if before[j].session_id@ == sid@ {
                            b
                        } else {
                            before[j].bound_user_id
                        }
                    } by {
                        if j != i {
                            assert(before[j].session_id@ != before[i as int].session_id@);
                        }
                    }
                }
                Ok(())
            },
            None => Err(AuthError::SessionNotFound),
        }
    }

    /// Binds session `sid` to `user_id`.
    pub fn bind(&mut self, sid: &String, user_id: i64) -> (r: Result<(), AuthError>)
        requires
            old(self).wf(),
        ensures
            final(self).wf(),
            final(self).data_view() == old(self).data_view(),
            r is Ok <==> has_session(old(self)@, sid@),
            r is Ok ==> rebound(old(self)@, final(self)@, sid@, Some(user_id)),
            r matches Err(e) ==> e == AuthError::SessionNotFound && final(self)@ == old(self)@,
    {
        self.set_binding(sid, Some(user_id))
    }

    /// Clears the binding of session `sid`; the entry itself stays.
    pub fn unbind(&mut self, sid: &String) -> (r: Result<(), AuthError>)
        requires
            old(self).wf(),
        ensures
            final(self).wf(),
            final(self).data_view() == old(self).data_view(),
            r is Ok <==> has_session(old(self)@, sid@),
            r is Ok ==> rebound(old(self)@, final(self)@, sid@, None),
            r matches Err(e) ==> e == AuthError::SessionNotFound && final(self)@ == old(self)@,
    {
        self.set_binding(sid, None)
    }
}

impl SessionStore {
    /// Stores `value` under `key` in the scratch data of session `sid`.
    pub fn put_data(&mut self, sid: &String, key: String, value: String) -> (r: Result<(), AuthError>)
        requires
            old(self).wf(),
        ensures
            final(self).wf(),
            final(self)@ == old(self)@,
            r is Ok <==> has_session(old(self)@, sid@),
            r matches Err(e) ==> e == AuthError::SessionNotFound && final(self).data_view() == old(
                self,
            ).data_view(),
            r is Ok ==> {
                &&& final(self).data_view().drop_last() == old(self).data_view()
                &&& final(self).data_view().len() == old(self).data_view().len() + 1
                &&& final(self).data_view().last().session_id@ == sid@
                &&& final(self).data_view().last().key == key
                &&& final(self).data_view().last().value == value
            },
    {
        if self.position(sid).is_none() {
            return Err(AuthError::SessionNotFound);
        }
        self.data.push(SessionDatum { session_id: sid.clone(), key, value });
        assert(self.data@.drop_last() =~= old(self).data@);
        Ok(())
    }

    /// The value most recently stored under `key` for session `sid`.
    pub fn get_data(&self, sid: &String, key: &String) -> (r: Option<String>)
        ensures
            match r {
                Some(v) => lookup_data(self.data_view(), sid@, key@) == Some(v@),
                None => lookup_data(self.data_view(), sid@, key@) is None,
            },
    {
        let mut i: usize = self.data.len();
        assert(self.data@.subrange(0, i as int) =~= self.data@);
        while i > 0
            invariant
                i <= self.data@.len(),
                lookup_data(self.data@, sid@, key@) == lookup_data(
                    self.data@.subrange(0, i as int),
                    sid@,
                    key@,
                ),
            decreases i,
        {
            let d = &self.data[i - 1];
            assert(self.data@.subrange(0, i as int).drop_last() =~= self.data@.subrange(
                0,
                i - 1,
            ));
            if d.session_id == *sid && d.key == *key {
                return Some(d.value.clone());
            }
            i -= 1;
        }
        assert(self.data@.subrange(0, 0) =~= Seq::<SessionDatum>::empty());
        None
    }
}

/// After a rebinding, the session holds the new binding.
pub proof fn lemma_rebound_binding(
    before: Seq<SessionEntry>,
    after: Seq<SessionEntry>,
    sid: Seq<char>,
    b: Option<i64>,
)
    requires
        sessions_wf(before),
        has_session(before, sid),
        rebound(before, after, sid, b),
    ensures
        sessions_wf(after),
        has_session(after, sid),
        binding(after, sid) == b,
{
    let i = session_position(before, sid);
    assert(after[i].session_id@ == sid);
    assert forall|x: int, y: int|
        0 <= x < after.len() && 0 <= y < after.len() && x != y implies after[x].session_id@
        != after[y].session_id@ by {
        assert(after[x].session_id@ == before[x].session_id@);
        assert(after[y].session_id@ == before[y].session_id@);
    }
    let p = session_position(after, sid);
    assert(after[p].session_id@ == before[p].session_id@);
}

} // verus!
