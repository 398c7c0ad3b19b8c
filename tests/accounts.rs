use session_auth::credentials::CredentialStore;
use session_auth::error::AuthError;
use session_auth::model::user::{User, UserRequest};
use session_auth::request::{
    admin, auth, current_identity, is_authenticated, login, logout, require_admin, resolve,
    user_profile, user_register, user_remove, user_remove2,
};
use session_auth::session::SessionStore;

fn req(name: &str, pw: &str) -> UserRequest {
    UserRequest { username: name.to_string(), password: pw.to_string() }
}

fn open_session(sessions: &mut SessionStore, token: &str) -> String {
    let sid = token.to_string();
    sessions.create_or_get(&sid);
    sid
}

fn admin_identity(creds: &mut CredentialStore) -> User {
    creds.insert("admin".to_string(), "not-a-digest".to_string(), true).unwrap();
    creds.find_by_username(&"admin".to_string()).unwrap().to_user()
}

#[test]
fn scenario_duplicate_registration() {
    let mut creds = CredentialStore::new();
    assert_eq!(user_register(&mut creds, &req("alice", "pw1")), Ok(()));
    assert_eq!(user_register(&mut creds, &req("alice", "pw2")), Err(AuthError::UsernameTaken));
    assert_eq!(creds.records().len(), 1);
}

#[test]
fn scenario_wrong_password_then_right_one() {
    let mut creds = CredentialStore::new();
    let mut sessions = SessionStore::new();
    let sid = open_session(&mut sessions, "tok-bob");
    assert_eq!(user_register(&mut creds, &req("bob", "pw")), Ok(()));
    let wrong = login(&creds, &mut sessions, &sid, &req("bob", "wrong"));
    assert!(matches!(wrong, Err(AuthError::InvalidCredentials)));
    assert!(!is_authenticated(&creds, &sessions, &sid));
    let ok = login(&creds, &mut sessions, &sid, &req("bob", "pw")).unwrap();
    assert!(!ok.admin);
    assert_eq!(ok.username, "bob");
    assert_eq!(ok.session, "tok-bob");
}

#[test]
fn scenario_admin_deletes_bob() {
    let mut creds = CredentialStore::new();
    let mut sessions = SessionStore::new();
    let admin_sid = open_session(&mut sessions, "tok-admin");
    let bob_sid = open_session(&mut sessions, "tok-bob");
    let boss = admin_identity(&mut creds);
    assert_eq!(user_register(&mut creds, &req("bob", "pw")), Ok(()));
    assert_eq!(
        user_remove2(&mut creds, &mut sessions, &admin_sid, &boss, &"bob".to_string()),
        Ok(())
    );
    let again = login(&creds, &mut sessions, &bob_sid, &req("bob", "pw"));
    assert!(matches!(again, Err(AuthError::UnknownUsername)));
}

#[test]
fn scenario_admin_gate() {
    let mut creds = CredentialStore::new();
    let mut sessions = SessionStore::new();
    let anon_sid = open_session(&mut sessions, "tok-anon");
    let user_sid = open_session(&mut sessions, "tok-user");
    let admin_sid = open_session(&mut sessions, "tok-admin");
    let boss = admin_identity(&mut creds);
    let plain = creds.insert("carol".to_string(), "x".to_string(), false).unwrap();
    sessions.bind(&user_sid, plain as i64).unwrap();
    sessions.bind(&admin_sid, boss.id).unwrap();
    assert!(matches!(require_admin(&creds, &sessions, &anon_sid), Err(AuthError::Unauthorized)));
    assert!(matches!(require_admin(&creds, &sessions, &user_sid), Err(AuthError::Forbidden)));
    let who = require_admin(&creds, &sessions, &admin_sid).unwrap();
    assert!(who.admin);
    assert_eq!(who.username, "admin");
}

#[test]
fn second_registration_of_any_name_is_taken() {
    let mut creds = CredentialStore::new();
    for name in ["dave", "erin", "x"] {
        assert_eq!(user_register(&mut creds, &req(name, "p")), Ok(()));
        assert_eq!(user_register(&mut creds, &req(name, "q")), Err(AuthError::UsernameTaken));
    }
}

#[test]
fn empty_username_is_rejected() {
    let mut creds = CredentialStore::new();
    assert_eq!(user_register(&mut creds, &req("", "pw")), Err(AuthError::ValidationError));
    assert_eq!(creds.records().len(), 0);
}

#[test]
fn stored_password_is_a_digest() {
    let mut creds = CredentialStore::new();
    assert_eq!(user_register(&mut creds, &req("frank", "secret")), Ok(()));
    let rec = creds.find_by_username(&"frank".to_string()).unwrap();
    assert_ne!(rec.password, "secret");
    assert!(rec.password.starts_with("$2"));
    assert!(!rec.admin);
    assert_eq!(rec.id, 2);
}

#[test]
fn login_then_logout_toggles_authentication() {
    let mut creds = CredentialStore::new();
    let mut sessions = SessionStore::new();
    let sid = open_session(&mut sessions, "tok");
    assert_eq!(user_register(&mut creds, &req("gina", "pw")), Ok(()));
    assert!(!is_authenticated(&creds, &sessions, &sid));
    login(&creds, &mut sessions, &sid, &req("gina", "pw")).unwrap();
    assert!(is_authenticated(&creds, &sessions, &sid));
    let me = auth(&creds, &sessions, &sid).unwrap();
    assert_eq!(me.username, "gina");
    logout(&mut sessions, &sid);
    assert!(!is_authenticated(&creds, &sessions, &sid));
    assert!(matches!(auth(&creds, &sessions, &sid), Err(AuthError::Unauthorized)));
}

#[test]
fn logout_twice_stays_unbound() {
    let mut creds = CredentialStore::new();
    let mut sessions = SessionStore::new();
    let sid = open_session(&mut sessions, "tok");
    let id = creds.insert("hank".to_string(), "x".to_string(), false).unwrap();
    sessions.bind(&sid, id as i64).unwrap();
    logout(&mut sessions, &sid);
    assert_eq!(sessions.bound_user(&sid), Ok(None));
    logout(&mut sessions, &sid);
    assert_eq!(sessions.bound_user(&sid), Ok(None));
    logout(&mut sessions, &"never-seen".to_string());
    assert!(!sessions.contains(&"never-seen".to_string()));
}

#[test]
fn deleted_account_session_fails_closed() {
    let mut creds = CredentialStore::new();
    let mut sessions = SessionStore::new();
    let admin_sid = open_session(&mut sessions, "tok-admin");
    let ivy_sid = open_session(&mut sessions, "tok-ivy");
    let boss = admin_identity(&mut creds);
    let ivy = creds.insert("ivy".to_string(), "x".to_string(), true).unwrap();
    sessions.bind(&ivy_sid, ivy as i64).unwrap();
    assert!(is_authenticated(&creds, &sessions, &ivy_sid));
    assert_eq!(
        user_remove2(&mut creds, &mut sessions, &admin_sid, &boss, &"ivy".to_string()),
        Ok(())
    );
    assert_eq!(sessions.bound_user(&ivy_sid), Ok(Some(ivy as i64)));
    let who = current_identity(&creds, &sessions, &ivy_sid);
    assert!(who.anonymous);
    assert!(!who.admin);
    assert_eq!(who.id, 1);
    assert!(matches!(require_admin(&creds, &sessions, &ivy_sid), Err(AuthError::Unauthorized)));
    assert!(matches!(resolve(&creds, ivy as i64), Err(AuthError::UnknownUser)));
}

#[test]
fn ids_are_never_reused() {
    let mut creds = CredentialStore::new();
    let a = creds.insert("a".to_string(), "x".to_string(), false).unwrap();
    assert_eq!(creds.delete_by_username(&"a".to_string()), 1);
    let b = creds.insert("b".to_string(), "x".to_string(), false).unwrap();
    assert_eq!(a, 2);
    assert_eq!(b, 3);
    assert_eq!(creds.delete_by_username(&"a".to_string()), 0);
}

#[test]
fn self_or_admin_rule() {
    let mut creds = CredentialStore::new();
    let mut sessions = SessionStore::new();
    let sid = open_session(&mut sessions, "tok-b");
    let boss = admin_identity(&mut creds);
    creds.insert("a".to_string(), "x".to_string(), false).unwrap();
    let b_id = creds.insert("b".to_string(), "x".to_string(), false).unwrap();
    sessions.bind(&sid, b_id as i64).unwrap();
    let b = creds.find_by_username(&"b".to_string()).unwrap().to_user();
    let a = creds.find_by_username(&"a".to_string()).unwrap().to_user();
    assert_eq!(user_remove(&mut creds, &mut sessions, &sid, &b, &a), Err(AuthError::Forbidden));
    assert_eq!(creds.records().len(), 3);
    assert_eq!(user_remove(&mut creds, &mut sessions, &sid, &boss, &a), Ok(()));
    assert_eq!(creds.records().len(), 2);
    assert_eq!(sessions.bound_user(&sid), Ok(Some(b_id as i64)));
    assert_eq!(user_remove(&mut creds, &mut sessions, &sid, &b, &b), Ok(()));
    assert_eq!(creds.records().len(), 1);
    assert_eq!(sessions.bound_user(&sid), Ok(None));
}

#[test]
fn admin_deleting_other_keeps_own_session() {
    let mut creds = CredentialStore::new();
    let mut sessions = SessionStore::new();
    let sid = open_session(&mut sessions, "tok-admin");
    let boss = admin_identity(&mut creds);
    sessions.bind(&sid, boss.id).unwrap();
    creds.insert("jo".to_string(), "x".to_string(), false).unwrap();
    assert_eq!(user_remove2(&mut creds, &mut sessions, &sid, &boss, &"jo".to_string()), Ok(()));
    assert!(is_authenticated(&creds, &sessions, &sid));
}

#[test]
fn delete_errors() {
    let mut creds = CredentialStore::new();
    let mut sessions = SessionStore::new();
    let sid = open_session(&mut sessions, "tok");
    let boss = admin_identity(&mut creds);
    let anon = User::anonymous_user();
    assert_eq!(
        user_remove2(&mut creds, &mut sessions, &sid, &boss, &"ghost".to_string()),
        Err(AuthError::NotFound)
    );
    assert_eq!(
        user_remove2(&mut creds, &mut sessions, &sid, &anon, &"admin".to_string()),
        Err(AuthError::Unauthorized)
    );
    assert_eq!(creds.records().len(), 1);
}

#[test]
fn login_errors() {
    let mut creds = CredentialStore::new();
    let mut sessions = SessionStore::new();
    creds.insert("kim".to_string(), "malformed".to_string(), false).unwrap();
    let sid = "missing".to_string();
    assert!(matches!(
        login(&creds, &mut sessions, &sid, &req("nobody", "pw")),
        Err(AuthError::UnknownUsername)
    ));
    assert!(matches!(
        login(&creds, &mut sessions, &sid, &req("kim", "malformed")),
        Err(AuthError::InvalidCredentials)
    ));
}

#[test]
fn login_needs_a_session() {
    let mut creds = CredentialStore::new();
    let mut sessions = SessionStore::new();
    assert_eq!(user_register(&mut creds, &req("lee", "pw")), Ok(()));
    let r = login(&creds, &mut sessions, &"missing".to_string(), &req("lee", "pw"));
    assert!(matches!(r, Err(AuthError::SessionNotFound)));
}

#[test]
fn resolve_anonymous_and_records() {
    let mut creds = CredentialStore::new();
    let anon = resolve(&creds, 1).unwrap();
    assert!(anon.anonymous && anon.is_anonymous() && !anon.is_authenticated());
    assert_eq!(anon.id, 1);
    let id = creds.insert("mo".to_string(), "x".to_string(), true).unwrap();
    let mo = resolve(&creds, id as i64).unwrap();
    assert!(mo.is_admin() && mo.is_active() && !mo.anonymous);
    assert_eq!(mo.username, "mo");
    assert!(matches!(resolve(&creds, 99), Err(AuthError::UnknownUser)));
}

#[test]
fn admin_listing() {
    let mut creds = CredentialStore::new();
    let boss = admin_identity(&mut creds);
    creds.insert("ned".to_string(), "x".to_string(), false).unwrap();
    let list = admin(&boss, &creds).unwrap();
    assert_eq!(list.len(), 2);
    assert_eq!(list[1].username, "ned");
    assert!(list[0].admin && !list[1].admin);
    let ned = creds.find_by_username(&"ned".to_string()).unwrap().to_user();
    assert!(matches!(admin(&ned, &creds), Err(AuthError::Forbidden)));
    assert!(matches!(admin(&User::anonymous_user(), &creds), Err(AuthError::Unauthorized)));
}

#[test]
fn profile_is_a_copy() {
    let u = User { id: 7, anonymous: false, username: "oz".to_string(), admin: true };
    let p = user_profile(&u);
    assert_eq!((p.id, p.anonymous, p.username.as_str(), p.admin), (7, false, "oz", true));
}

#[test]
fn login_and_logout_keep_scratch_data() {
    let mut creds = CredentialStore::new();
    let mut sessions = SessionStore::new();
    let sid = open_session(&mut sessions, "tok-pat");
    assert_eq!(user_register(&mut creds, &req("pat", "pw")), Ok(()));
    sessions.put_data(&sid, "theme".to_string(), "dark".to_string()).unwrap();
    login(&creds, &mut sessions, &sid, &req("pat", "pw")).unwrap();
    assert_eq!(sessions.get_data(&sid, &"theme".to_string()), Some("dark".to_string()));
    logout(&mut sessions, &sid);
    logout(&mut sessions, &sid);
    assert!(sessions.contains(&sid));
    assert_eq!(sessions.bound_user(&sid), Ok(None));
    assert_eq!(sessions.get_data(&sid, &"theme".to_string()), Some("dark".to_string()));
}
