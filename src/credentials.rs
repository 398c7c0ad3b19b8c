use vstd::prelude::*;

use crate::error::AuthError;
use crate::model::user::{UserSql, ANONYMOUS_ID};

verus! {

/// Usernames and ids are unique, and no record takes the anonymous id.
pub open spec fn records_wf(s: Seq<UserSql>) -> bool {
    &&& forall|i: int| 0 <= i < s.len() ==> s[i].id > ANONYMOUS_ID
    &&& forall|i: int, j: int|
        0 <= i < s.len() && 0 <= j < s.len() && i != j ==> s[i].username@ != s[j].username@
    &&& forall|i: int, j: int| 0 <= i < s.len() && 0 <= j < s.len() && i != j ==> s[i].id != s[j].id
}

pub open spec fn name_taken(s: Seq<UserSql>, name: Seq<char>) -> bool {
    exists|i: int| 0 <= i < s.len() && s[i].username@ == name
}

pub open spec fn name_position(s: Seq<UserSql>, name: Seq<char>) -> int {
    choose|i: int| 0 <= i < s.len() && s[i].username@ == name
}

/// The record with the given username, if any.
pub open spec fn record_named(s: Seq<UserSql>, name: Seq<char>) -> Option<UserSql> {
    if name_taken(s, name) {
        Some(s[name_position(s, name)])
    } else {
        None
    }
}

pub open spec fn id_present(s: Seq<UserSql>, id: int) -> bool {
    exists|i: int| 0 <= i < s.len() && s[i].id == id
}

pub open spec fn id_position(s: Seq<UserSql>, id: int) -> int {
    choose|i: int| 0 <= i < s.len() && s[i].id == id
}

/// The record with the given id, if any.
pub open spec fn record_with_id(s: Seq<UserSql>, id: int) -> Option<UserSql> {
    if id_present(s, id) {
        Some(s[id_position(s, id)])
    } else {
        None
    }
}

/// Removing one record keeps usernames and ids unique.
pub proof fn lemma_remove_keeps_wf(s: Seq<UserSql>, k: int)
    requires
        records_wf(s),
        0 <= k < s.len(),
    ensures
        records_wf(s.remove(k)),
        forall|j: int|
            0 <= j < s.remove(k).len() ==> #[trigger] s.remove(k)[j] == if j < k {
                s[j]
            } else {
                s[j + 1]
            },
{
    let r = s.remove(k);
    assert forall|j: int| 0 <= j < r.len() implies #[trigger] r[j] == if j < k {
        s[j]
    } else {
        s[j + 1]
    } by {}
}

/// The credential store: one record per registered user.
///
/// Ids come from a counter that only grows, so an id is never handed out
/// twice: a session left bound to a deleted account can never resolve to a
/// later account.
pub struct CredentialStore {
    users: Vec<UserSql>,
    next_id: i32,
}

impl View for CredentialStore {
    type V = Seq<UserSql>;

    closed spec fn view(&self) -> Seq<UserSql> {
        self.users@
    }
}

impl CredentialStore {
    /// The id that the next insertion will receive.
    pub closed spec fn fresh_id(&self) -> int {
        self.next_id as int
    }

    pub open spec fn wf(&self) -> bool {
        &&& records_wf(self@)
        &&& ANONYMOUS_ID < self.fresh_id() <= i32::MAX
        &&& forall|i: int| 0 <= i < self@.len() ==> self@[i].id < self.fresh_id()
    }

    /// An empty store.
    pub fn new() -> (r: CredentialStore)
        ensures
            r.wf(),
            r@ == Seq::<UserSql>::empty(),
            r.fresh_id() == ANONYMOUS_ID + 1,
    {
        CredentialStore { users: Vec::new(), next_id: 2 }
    }

    fn position_of_name(&self, name: &String) -> (r: Option<usize>)
        requires
            self.wf(),
        ensures
            match r {
                Some(i) => i < self@.len() && self@[i as int].username@ == name@ && name_position(
                    self@,
                    name@,
                ) == i,
                None => !name_taken(self@, name@),
            },
    {
        let mut i: usize = 0;
        while i < self.users.len()
            invariant
                self.wf(),
                i <= self.users@.len(),
                forall|j: int| 0 <= j < i ==> self.users@[j].username@ != name@,
            decreases self.users@.len() - i,
        {
            if self.users[i].username == *name {
                proof {
                    assert(name_taken(self@, name@));
                    let p = name_position(self@, name@);
                    if p != i {
                        assert(self@[p].username@ != self@[i as int].username@);
                    }
                }
                return Some(i);
            }
            i += 1;
        }
        None
    }

    fn position_of_id(&self, id: i64) -> (r: Option<usize>)
        requires
            self.wf(),
        ensures
            match r {
                Some(i) => i < self@.len() && self@[i as int].id == id && id_position(self@, id as int)
                    == i,
                None => !id_present(self@, id as int),
            },
    {
        let mut i: usize = 0;
        while i < self.users.len()
            invariant
                self.wf(),
                i <= self.users@.len(),
                forall|j: int| 0 <= j < i ==> self.users@[j].id != id,
            decreases self.users@.len() - i,
        {
            if self.users[i].id as i64 == id {
                proof {
                    assert(id_present(self@, id as int));
                    let p = id_position(self@, id as int);
                    if p != i {
                        assert(self@[p].id != self@[i as int].id);
                    }
                }
                return Some(i);
            }
            i += 1;
        }
        None
    }

    /// Looks a record up by username.
    pub fn find_by_username(&self, name: &String) -> (r: Option<UserSql>)
        requires
            self.wf(),
        ensures
            r == record_named(self@, name@),
    {
        match self.position_of_name(name) {
            Some(i) => Some(self.users[i].duplicate()),
            None => None,
        }
    }

    /// Looks a record up by id.
    pub fn find_by_id(&self, id: i64) -> (r: Option<UserSql>)
        requires
            self.wf(),
        ensures
            r == record_with_id(self@, id as int),
    {
        match self.position_of_id(id) {
            Some(i) => Some(self.users[i].duplicate()),
            None => None,
        }
    }

    /// All records, in the order of insertion.
    pub fn records(&self) -> (r: &Vec<UserSql>)
        ensures
            r@ == self@,
    {
        &self.users
    }

    /// Adds a record under a fresh id, unless the username is taken. The
    /// check and the insertion are one step.
    pub fn insert(&mut self, username: String, password: String, admin: bool) -> (r: Result<
        i32,
        AuthError,
    >)
        requires
            old(self).wf(),
        ensures
            final(self).wf(),
            r == Err::<i32, AuthError>(AuthError::UsernameTaken) <==> name_taken(
                old(self)@,
                username@,
            ),
            r == Err::<i32, AuthError>(AuthError::StoreUnavailable) <==> !name_taken(
                old(self)@,
                username@,
            ) && old(self).fresh_id() == i32::MAX,
            match r {
                Ok(id) => {
                    &&& id == old(self).fresh_id()
                    &&& final(self).fresh_id() == old(self).fresh_id() + 1
                    &&& final(self)@ == old(self)@.push(
                        (UserSql { id: id, username: username, password: password, admin: admin }),
                    )
                },
                Err(e) => {
                    &&& e == AuthError::UsernameTaken || e == AuthError::StoreUnavailable
                    &&& final(self)@ == old(self)@
                    &&& final(self).fresh_id() == old(self).fresh_id()
                },
            },
    {
        if self.position_of_name(&username).is_some() {
            return Err(AuthError::UsernameTaken);
        }
        if self.next_id == i32::MAX {
            return Err(AuthError::StoreUnavailable);
        }
        let id = self.next_id;
        let ghost before = self.users@;
        self.users.push(UserSql { id, username, password, admin });
        self.next_id = id + 1;
        assert forall|i: int, j: int|
            0 <= i < self.users@.len() && 0 <= j < self.users@.len() && i != j implies self.users@[i].username@
            != self.users@[j].username@ && self.users@[i].id != self.users@[j].id by {
            if i < before.len() && j < before.len() {
            } else if i == before.len() {
                assert(self.users@[j] == before[j]);
            } else {
                assert(self.users@[i] == before[i]);
            }
        }
        Ok(id)
    }

    /// Deletes the record with the given username, if there is one, and
    /// returns how many records went.
    pub fn delete_by_username(&mut self, name: &String) -> (r: usize)
        requires
            old(self).wf(),
        ensures
            final(self).wf(),
            final(self).fresh_id() == old(self).fresh_id(),
            r == (if name_taken(old(self)@, name@) {
                1usize
            } else {
                0usize
            }),
            name_taken(old(self)@, name@) ==> final(self)@ == old(self)@.remove(
                name_position(old(self)@, name@),
            ),
            !name_taken(old(self)@, name@) ==> final(self)@ == old(self)@,
    {
        match self.position_of_name(name) {
            Some(i) => {
                proof {
                    lemma_remove_keeps_wf(self.users@, i as int);
                }
                self.users.remove(i);
                1
            },
            None => 0,
        }
    }
}

} // verus!
