use vstd::prelude::*;

verus! {

/// The reserved id of the anonymous pseudo-user; no stored record has it.
pub const ANONYMOUS_ID: i64 = 1;

/// A username and a plaintext password, as a client submits them.
pub struct UserRequest {
    pub username: String,
    pub password: String,
}

/// The identity of the actor behind a request: a stored user, or the
/// anonymous pseudo-user.
pub struct User {
    pub id: i64,
    pub anonymous: bool,
    pub username: String,
    pub admin: bool,
}

/// A stored credential record; `password` holds the bcrypt digest.
pub struct UserSql {
    pub id: i32,
    pub username: String,
    pub password: String,
    pub admin: bool,
}

/// What a successful login hands back to the client.
pub struct UserSession {
    pub session: String,
    pub username: String,
    pub admin: bool,
}

/// `u` is the anonymous identity.
pub open spec fn is_anonymous_identity(u: User) -> bool {
    &&& u.id == ANONYMOUS_ID
    &&& u.anonymous
    &&& u.username@ == Seq::<char>::empty()
    &&& !u.admin
}

/// `u` is the identity derived from the stored record `rec`.
pub open spec fn is_identity_of(u: User, rec: UserSql) -> bool {
    &&& u.id == rec.id as i64
    &&& !u.anonymous
    &&& u.username@ == rec.username@
    &&& u.admin == rec.admin
}

impl User {
    /// The anonymous identity.
    pub fn anonymous_user() -> (r: User)
        ensures
            is_anonymous_identity(r),
    {
        User { id: ANONYMOUS_ID, anonymous: true, username: String::new(), admin: false }
    }

    pub fn is_admin(&self) -> (r: bool)
        ensures
            r == self.admin,
    {
        self.admin
    }

    pub fn is_active(&self) -> (r: bool)
        ensures
            r == !self.anonymous,
    {
        !self.anonymous
    }

    pub fn is_anonymous(&self) -> (r: bool)
        ensures
            r == self.anonymous,
    {
        self.anonymous
    }

    pub fn is_authenticated(&self) -> (r: bool)
        ensures
            r == !self.anonymous,
    {
        !self.anonymous
    }

    /// A field-by-field copy.
    pub fn duplicate(&self) -> (r: User)
        ensures
            r.id == self.id,
            r.anonymous == self.anonymous,
            r.username@ == self.username@,
            r.admin == self.admin,
    {
        User {
            id: self.id,
            anonymous: self.anonymous,
            username: self.username.clone(),
            admin: self.admin,
        }
    }
}

impl UserSql {
    /// The identity that this record stands for.
    pub fn to_user(&self) -> (r: User)
        ensures
            is_identity_of(r, *self),
    {
        User {
            id: self.id as i64,
            anonymous: false,
            username: self.username.clone(),
            admin: self.admin,
        }
    }

    /// A field-by-field copy.
    pub fn duplicate(&self) -> (r: UserSql)
        ensures
            r == *self,
    {
        UserSql {
            id: self.id,
            username: self.username.clone(),
            password: self.password.clone(),
            admin: self.admin,
        }
    }
}

} // verus!
