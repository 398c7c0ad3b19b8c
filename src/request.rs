use vstd::prelude::*;

use crate::credentials::{
    name_position, name_taken, record_named, record_with_id, records_wf, CredentialStore,
};
use crate::error::AuthError;
use crate::model::user::{
    is_anonymous_identity, is_identity_of, User, UserRequest, UserSession, UserSql, ANONYMOUS_ID,
};
use crate::password::{hash_password, password_check, verify_password};
use crate::session::{binding, has_session, lemma_rebound_binding, rebound, SessionEntry, SessionStore};

verus! {

/// The work factor with which new passwords are hashed.
pub const HASH_COST: u32 = 10;

/// The stored record that session `sid` resolves to: `None` for an unknown
/// or unbound session, and for one bound to an id that no record has.
pub open spec fn session_user(users: Seq<UserSql>, sessions: Seq<SessionEntry>, sid: Seq<char>) -> Option<
    UserSql,
> {
    match binding(sessions, sid) {
        Some(uid) => record_with_id(users, uid as int),
        None => None,
    }
}

/// The self-or-admin rule: an authenticated identity may delete its own
/// account, and an administrator any account.
pub open spec fn may_delete(acting: User, target: Seq<char>) -> bool {
    !acting.anonymous && (acting.admin || acting.username@ == target)
}

/// What a login with the given password verdict does to the session store
/// and returns, once the record has been found.
pub open spec fn login_outcome(
    before: Seq<SessionEntry>,
    after: Seq<SessionEntry>,
    sid: Seq<char>,
    rec: UserSql,
    verdict: Option<bool>,
    r: Result<UserSession, AuthError>,
) -> bool {
    if verdict != Some(true) {
        r == Err::<UserSession, AuthError>(AuthError::InvalidCredentials) && after == before
    } else if !has_session(before, sid) {
        r == Err::<UserSession, AuthError>(AuthError::SessionNotFound) && after == before
    } else {
        &&& rebound(before, after, sid, Some(rec.id as i64))
        &&& r matches Ok(d) && d.session@ == sid && d.username@ == rec.username@ && d.admin
            == rec.admin
    }
}

/// Resolves a user id to an identity. The anonymous id resolves to the
/// anonymous identity without a lookup; an id that no record has fails
/// with `UnknownUser`.
pub fn resolve(creds: &CredentialStore, user_id: i64) -> (r: Result<User, AuthError>)
    requires
        creds.wf(),
    ensures
        user_id == ANONYMOUS_ID ==> (r matches Ok(u) && is_anonymous_identity(u)),
        user_id != ANONYMOUS_ID ==> match record_with_id(creds@, user_id as int) {
            Some(rec) => r matches Ok(u) && is_identity_of(u, rec),
            None => r == Err::<User, AuthError>(AuthError::UnknownUser),
        },
{
    if user_id == ANONYMOUS_ID {
        return Ok(User::anonymous_user());
    }
    match creds.find_by_id(user_id) {
        Some(rec) => Ok(rec.to_user()),
        None => Err(AuthError::UnknownUser),
    }
}

/// The identity behind session `sid`, resolved afresh. It fails closed: an
/// unknown or unbound session, and one bound to a deleted account, give the
/// anonymous identity.
pub fn current_identity(creds: &CredentialStore, sessions: &SessionStore, sid: &String) -> (r: User)
    requires
        creds.wf(),
        sessions.wf(),
    ensures
        match session_user(creds@, sessions@, sid@) {
            Some(rec) => is_identity_of(r, rec),
            None => is_anonymous_identity(r),
        },
{
    proof {
        assert(!crate::credentials::id_present(creds@, ANONYMOUS_ID as int));
    }
    match sessions.bound_user(sid) {
        Ok(Some(uid)) => match resolve(creds, uid) {
            Ok(u) => u,
            Err(_) => User::anonymous_user(),
        },
        _ => User::anonymous_user(),
    }
}

/// Whether session `sid` resolves to a stored user.
pub fn is_authenticated(creds: &CredentialStore, sessions: &SessionStore, sid: &String) -> (r: bool)
    requires
        creds.wf(),
        sessions.wf(),
    ensures
        r == session_user(creds@, sessions@, sid@) is Some,
{
    current_identity(creds, sessions, sid).is_authenticated()
}

/// The authenticated gate on an identity.
pub fn check_authenticated(identity: &User) -> (r: Result<(), AuthError>)
    ensures
        r is Ok <==> !identity.anonymous,
        r matches Err(e) ==> e == AuthError::Unauthorized,
{
    if identity.is_authenticated() {
        Ok(())
    } else {
        Err(AuthError::Unauthorized)
    }
}

/// The admin gate on an identity, composed on the authenticated gate.
pub fn check_admin(identity: &User) -> (r: Result<(), AuthError>)
    ensures
        r is Ok <==> !identity.anonymous && identity.admin,
        identity.anonymous ==> r == Err::<(), AuthError>(AuthError::Unauthorized),
        !identity.anonymous && !identity.admin ==> r == Err::<(), AuthError>(AuthError::Forbidden),
{
    check_authenticated(identity)?;
    if identity.is_admin() {
        Ok(())
    } else {
        Err(AuthError::Forbidden)
    }
}

/// The authentication middleware: resolves the identity behind `sid` and
/// lets the request through, with that identity, only if it is a stored user.
pub fn auth(creds: &CredentialStore, sessions: &SessionStore, sid: &String) -> (r: Result<User, AuthError>)
    requires
        creds.wf(),
        sessions.wf(),
    ensures
        match session_user(creds@, sessions@, sid@) {
            Some(rec) => r matches Ok(u) && is_identity_of(u, rec),
            None => r == Err::<User, AuthError>(AuthError::Unauthorized),
        },
{
    let identity = current_identity(creds, sessions, sid);
    match check_authenticated(&identity) {
        Ok(()) => Ok(identity),
        Err(e) => Err(e),
    }
}

/// The admin middleware: as `auth`, and the identity must be an administrator.
pub fn require_admin(creds: &CredentialStore, sessions: &SessionStore, sid: &String) -> (r: Result<
    User,
    AuthError,
>)
    requires
        creds.wf(),
        sessions.wf(),
    ensures
        match session_user(creds@, sessions@, sid@) {
            Some(rec) => if rec.admin {
                r matches Ok(u) && is_identity_of(u, rec)
            } else {
                r == Err::<User, AuthError>(AuthError::Forbidden)
            },
            None => r == Err::<User, AuthError>(AuthError::Unauthorized),
        },
{
    let identity = current_identity(creds, sessions, sid);
    match check_admin(&identity) {
        Ok(()) => Ok(identity),
        Err(e) => Err(e),
    }
}

/// Registers a new, non-admin user. The username must be non-empty and not
/// taken; the password is stored as a bcrypt digest. No session changes.
pub fn user_register(creds: &mut CredentialStore, req: &UserRequest) -> (r: Result<(), AuthError>)
    requires
        old(creds).wf(),
    ensures
        final(creds).wf(),
        r == Err::<(), AuthError>(AuthError::ValidationError) <==> req.username@.len() == 0,
        r == Err::<(), AuthError>(AuthError::UsernameTaken) <==> req.username@.len() > 0 && name_taken(
            old(creds)@,
            req.username@,
        ),
        r == Err::<(), AuthError>(AuthError::StoreUnavailable) ==> old(creds).fresh_id() == i32::MAX,
        req.username@.len() > 0 && !name_taken(old(creds)@, req.username@) && old(creds).fresh_id()
            == i32::MAX ==> r == Err::<(), AuthError>(AuthError::StoreUnavailable) || r == Err::<
            (),
            AuthError,
        >(AuthError::HashFailed),
        r is Err ==> r == Err::<(), AuthError>(AuthError::ValidationError) || r == Err::<
            (),
            AuthError,
        >(AuthError::UsernameTaken) || r == Err::<(), AuthError>(AuthError::HashFailed) || r
            == Err::<(), AuthError>(AuthError::StoreUnavailable),
        r == Err::<(), AuthError>(AuthError::HashFailed) ==> req.username@.len() > 0 && !name_taken(
            old(creds)@,
            req.username@,
        ),
        req.username@.len() > 0 && !name_taken(old(creds)@, req.username@) && old(creds).fresh_id()
            < i32::MAX ==> r is Ok || r == Err::<(), AuthError>(AuthError::HashFailed),
        r is Err ==> final(creds)@ == old(creds)@ && final(creds).fresh_id() == old(creds).fresh_id(),
        r is Ok ==> {
            &&& final(creds).fresh_id() == old(creds).fresh_id() + 1
            &&& final(creds)@.len() == old(creds)@.len() + 1
            &&& final(creds)@.drop_last() == old(creds)@
            &&& final(creds)@.last().id == old(creds).fresh_id()
            &&& final(creds)@.last().username@ == req.username@
            &&& !final(creds)@.last().admin
            &&& password_check(req.password@, final(creds)@.last().password@) == Some(true)
        },
{
    if req.username.as_str().is_empty() {
        return Err(AuthError::ValidationError);
    }
    if creds.find_by_username(&req.username).is_some() {
        return Err(AuthError::UsernameTaken);
    }
    let digest = match hash_password(&req.password, HASH_COST) {
        Some(d) => d,
        None => return Err(AuthError::HashFailed),
    };
    match creds.insert(req.username.clone(), digest, false) {
        Ok(_) => {
            assert(final(creds)@.drop_last() =~= old(creds)@);
            Ok(())
        },
        Err(e) => Err(e),
    }
}

/// Finishes a login once the record is found and the password has been
/// checked against its digest: on a match, binds session `sid` to the record.
pub fn complete_login(
    sessions: &mut SessionStore,
    sid: &String,
    rec: &UserSql,
    verdict: Option<bool>,
) -> (r: Result<UserSession, AuthError>)
    requires
        old(sessions).wf(),
    ensures
        final(sessions).wf(),
        final(sessions).data_view() == old(sessions).data_view(),
        login_outcome(old(sessions)@, final(sessions)@, sid@, *rec, verdict, r),
{
    match verdict {
        Some(true) => {},
        _ => return Err(AuthError::InvalidCredentials),
    }
    match sessions.bind(sid, rec.id as i64) {
        Ok(()) => Ok(
            UserSession { session: sid.clone(), username: rec.username.clone(), admin: rec.admin },
        ),
        Err(e) => Err(e),
    }
}

/// Logs in: finds the record by username, checks the password against its
/// digest, and binds session `sid` to the user.
pub fn login(
    creds: &CredentialStore,
    sessions: &mut SessionStore,
    sid: &String,
    req: &UserRequest,
) -> (r: Result<UserSession, AuthError>)
    requires
        creds.wf(),
        old(sessions).wf(),
    ensures
        final(sessions).wf(),
        final(sessions).data_view() == old(sessions).data_view(),
        match record_named(creds@, req.username@) {
            None => r == Err::<UserSession, AuthError>(AuthError::UnknownUsername) && final(sessions)@
                == old(sessions)@,
            Some(rec) => login_outcome(
                old(sessions)@,
                final(sessions)@,
                sid@,
                rec,
                password_check(req.password@, rec.password@),
                r,
            ),
        },
{
    let rec = match creds.find_by_username(&req.username) {
        Some(rec) => rec,
        None => return Err(AuthError::UnknownUsername),
    };
    let verdict = verify_password(&req.password, &rec.password);
    complete_login(sessions, sid, &rec, verdict)
}

/// Logs out: clears the binding of session `sid`. It never fails; on an
/// anonymous or unknown session it changes nothing that matters.
pub fn logout(sessions: &mut SessionStore, sid: &String)
    requires
        old(sessions).wf(),
    ensures
        final(sessions).wf(),
        final(sessions).data_view() == old(sessions).data_view(),
        has_session(old(sessions)@, sid@) ==> rebound(old(sessions)@, final(sessions)@, sid@, None),
        !has_session(old(sessions)@, sid@) ==> final(sessions)@ == old(sessions)@,
        binding(final(sessions)@, sid@) is None,
{
    let _ = sessions.unbind(sid);
    proof {
        if has_session(old(sessions)@, sid@) {
            lemma_rebound_binding(old(sessions)@, final(sessions)@, sid@, None);
        }
    }
}

/// The profile of the acting identity.
pub fn user_profile(user: &User) -> (r: User)
    ensures
        r.id == user.id,
        r.anonymous == user.anonymous,
        r.username@ == user.username@,
        r.admin == user.admin,
{
    user.duplicate()
}

/// Deletes the account named `target` on behalf of `acting`, under the
/// self-or-admin rule. Deleting one's own account also logs session `sid`
/// out; an administrator deleting another account stays logged in.
pub fn user_remove2(
    creds: &mut CredentialStore,
    sessions: &mut SessionStore,
    sid: &String,
    acting: &User,
    target: &String,
) -> (r: Result<(), AuthError>)
    requires
        old(creds).wf(),
        old(sessions).wf(),
    ensures
        final(creds).wf(),
        final(sessions).wf(),
        final(sessions).data_view() == old(sessions).data_view(),
        final(creds).fresh_id() == old(creds).fresh_id(),
        acting.anonymous ==> r == Err::<(), AuthError>(AuthError::Unauthorized),
        !acting.anonymous && !may_delete(*acting, target@) ==> r == Err::<(), AuthError>(
            AuthError::Forbidden,
        ),
        may_delete(*acting, target@) && !name_taken(old(creds)@, target@) ==> r == Err::<
            (),
            AuthError,
        >(AuthError::NotFound),
        r is Err ==> final(creds)@ == old(creds)@ && final(sessions)@ == old(sessions)@,
        may_delete(*acting, target@) && name_taken(old(creds)@, target@) ==> {
            &&& r is Ok
            &&& final(creds)@ == old(creds)@.remove(name_position(old(creds)@, target@))
            &&& if acting.username@ == target@ {
                &&& binding(final(sessions)@, sid@) is None
                &&& has_session(old(sessions)@, sid@) ==> rebound(
                    old(sessions)@,
                    final(sessions)@,
                    sid@,
                    None,
                )
                &&& !has_session(old(sessions)@, sid@) ==> final(sessions)@ == old(sessions)@
            } else {
                final(sessions)@ == old(sessions)@
            }
        },
{
    check_authenticated(acting)?;
    let own = acting.username == *target;
    if !acting.is_admin() && !own {
        return Err(AuthError::Forbidden);
    }
    if creds.delete_by_username(target) == 0 {
        return Err(AuthError::NotFound);
    }
    if own {
        logout(sessions, sid);
    }
    Ok(())
}

/// As `user_remove2`, with the target given as an identity.
pub fn user_remove(
    creds: &mut CredentialStore,
    sessions: &mut SessionStore,
    sid: &String,
    acting: &User,
    target: &User,
) -> (r: Result<(), AuthError>)
    requires
        old(creds).wf(),
        old(sessions).wf(),
    ensures
        final(creds).wf(),
        final(sessions).wf(),
        final(sessions).data_view() == old(sessions).data_view(),
        final(creds).fresh_id() == old(creds).fresh_id(),
        acting.anonymous ==> r == Err::<(), AuthError>(AuthError::Unauthorized),
        !acting.anonymous && !may_delete(*acting, target.username@) ==> r == Err::<(), AuthError>(
            AuthError::Forbidden,
        ),
        may_delete(*acting, target.username@) && !name_taken(old(creds)@, target.username@) ==> r
            == Err::<(), AuthError>(AuthError::NotFound),
        r is Err ==> final(creds)@ == old(creds)@ && final(sessions)@ == old(sessions)@,
        may_delete(*acting, target.username@) && name_taken(old(creds)@, target.username@) ==> {
            &&& r is Ok
            &&& final(creds)@ == old(creds)@.remove(name_position(old(creds)@, target.username@))
            &&& if acting.username@ == target.username@ {
                &&& binding(final(sessions)@, sid@) is None
                &&& has_session(old(sessions)@, sid@) ==> rebound(
                    old(sessions)@,
                    final(sessions)@,
                    sid@,
                    None,
                )
                &&& !has_session(old(sessions)@, sid@) ==> final(sessions)@ == old(sessions)@
            } else {
                final(sessions)@ == old(sessions)@
            }
        },
{
    user_remove2(creds, sessions, sid, acting, &target.username)
}

/// The administrator's listing: every stored user as an identity, in the
/// order of registration. Anyone else is turned away.
pub fn admin(acting: &User, creds: &CredentialStore) -> (r: Result<Vec<User>, AuthError>)
    requires
        creds.wf(),
    ensures
        acting.anonymous ==> r == Err::<Vec<User>, AuthError>(AuthError::Unauthorized),
        !acting.anonymous && !acting.admin ==> r == Err::<Vec<User>, AuthError>(
            AuthError::Forbidden,
        ),
        !acting.anonymous && acting.admin ==> (r matches Ok(list) && list@.len() == creds@.len() && (
        forall|i: int| 0 <= i < list@.len() ==> is_identity_of(#[trigger] list@[i], creds@[i]))),
{
    check_admin(acting)?;
    let records = creds.records();
    let mut list: Vec<User> = Vec::new();
    let mut i: usize = 0;
    while i < records.len()
        invariant
            records@ == creds@,
            i <= records@.len(),
            list@.len() == i,
            forall|j: int| 0 <= j < i ==> is_identity_of(#[trigger] list@[j], records@[j]),
        decreases records@.len() - i,
    {
        list.push(records[i].to_user());
        i += 1;
    }
    Ok(list)
}

/// Once a registration of `name` has succeeded, the name is taken, so any
/// later registration under it fails with `UsernameTaken`.
pub proof fn lemma_registered_name_taken(before: Seq<UserSql>, after: Seq<UserSql>, name: Seq<char>)
    requires
        after.len() == before.len() + 1,
        after.drop_last() == before,
        after.last().username@ == name,
    ensures
        name_taken(after, name),
{
    assert(after[after.len() - 1].username@ == name);
}

/// A successful login binds the session to the user, so the session then
/// resolves to that user's record: the session is authenticated.
pub proof fn lemma_login_authenticates(
    users: Seq<UserSql>,
    before: Seq<SessionEntry>,
    after: Seq<SessionEntry>,
    sid: Seq<char>,
    name: Seq<char>,
    r: Result<UserSession, AuthError>,
)
    requires
        records_wf(users),
        crate::session::sessions_wf(before),
        record_named(users, name) is Some,
        login_outcome(before, after, sid, record_named(users, name).unwrap(), Some(true), r),
        has_session(before, sid),
    ensures
        r is Ok,
        session_user(users, after, sid) == record_named(users, name),
{
    let rec = record_named(users, name).unwrap();
    let k = name_position(users, name);
    lemma_rebound_binding(before, after, sid, Some(rec.id as i64));
    assert(users[k].id == rec.id as int);
    assert(crate::credentials::id_present(users, rec.id as int));
    let p = crate::credentials::id_position(users, rec.id as int);
    if p != k {
        assert(users[p].id != users[k].id);
    }
}

/// After a logout the session is bound to no one, so it resolves to no
/// record: the session is not authenticated.
pub proof fn lemma_logout_unauthenticates(users: Seq<UserSql>, sessions: Seq<SessionEntry>, sid: Seq<char>)
    requires
        binding(sessions, sid) is None,
    ensures
        session_user(users, sessions, sid) is None,
{
}

/// A logout of a session that is already logged out changes no binding,
/// so logging out twice leaves the session unbound both times.
pub proof fn lemma_logout_idempotent(first: Seq<SessionEntry>, second: Seq<SessionEntry>, sid: Seq<char>)
    requires
        crate::session::sessions_wf(first),
        binding(first, sid) is None,
        has_session(first, sid) ==> rebound(first, second, sid, None),
        !has_session(first, sid) ==> second == first,
    ensures
        binding(second, sid) is None,
        second.len() == first.len(),
        forall|j: int|
            0 <= j < first.len() ==> (#[trigger] second[j]).session_id@ == first[j].session_id@
                && second[j].bound_user_id == first[j].bound_user_id,
{
    if has_session(first, sid) {
        lemma_rebound_binding(first, second, sid, None);
        let p = crate::session::session_position(first, sid);
        assert forall|j: int| 0 <= j < first.len() implies (#[trigger] second[j]).session_id@
            == first[j].session_id@ && second[j].bound_user_id == first[j].bound_user_id by {
            if first[j].session_id@ == sid && j != p {
                assert(first[j].session_id@ != first[p].session_id@);
            }
        }
    }
}

/// Deleting an account while a session is still bound to it leaves that
/// session resolving to no record: it fails closed, unauthenticated.
pub proof fn lemma_deleted_user_fails_closed(
    users: Seq<UserSql>,
    sessions: Seq<SessionEntry>,
    sid: Seq<char>,
    name: Seq<char>,
)
    requires
        records_wf(users),
        name_taken(users, name),
        binding(sessions, sid) == Some(record_named(users, name).unwrap().id as i64),
    ensures
        session_user(users.remove(name_position(users, name)), sessions, sid) is None,
{
    let k = name_position(users, name);
    let rest = users.remove(k);
    crate::credentials::lemma_remove_keeps_wf(users, k);
    if crate::credentials::id_present(rest, users[k].id as int) {
        let j = choose|j: int| 0 <= j < rest.len() && rest[j].id == users[k].id as int;
        if j < k {
            assert(users[j].id != users[k].id);
        } else {
            assert(users[j + 1].id != users[k].id);
        }
    }
}

} // verus!
