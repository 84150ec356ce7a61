use connectia::auth::{check_credentials, identity_after_check, user_from_record, Backend, Credentials, Error, User};
use connectia::users::{InsertOutcome, UserStore};

fn credentials(username: &str, password: &str) -> Credentials {
    Credentials { username: username.to_string(), password: password.to_string() }
}

#[test]
fn unknown_user_and_wrong_password_look_the_same() {
    let mut backend = Backend::new(UserStore::new());
    backend.create_user("alice".to_string(), "pw1").unwrap();
    let unknown = backend.authenticate(credentials("nobody", "pw1"));
    let wrong = backend.authenticate(credentials("alice", "nope"));
    assert_eq!(unknown, Ok(None));
    assert_eq!(wrong, Ok(None));
    assert_eq!(unknown, wrong);
}

#[test]
fn second_create_keeps_first_password() {
    let mut backend = Backend::new(UserStore::new());
    assert_eq!(backend.create_user("alice".to_string(), "pw1"), Ok(()));
    assert_eq!(backend.create_user("alice".to_string(), "pw2"), Ok(()));
    assert_eq!(backend.store().len(), 1);
    let stored = backend.store().find_by_username(&"alice".to_string()).unwrap();
    assert_eq!(connectia::password::verify_password("pw1", &stored.password_hash), Ok(true));
    assert_eq!(connectia::password::verify_password("pw2", &stored.password_hash), Ok(false));
    let user = backend.authenticate(credentials("alice", "pw1")).unwrap();
    assert_eq!(user, Some(User { id: 1, username: "alice".to_string() }));
}

#[test]
fn load_after_authenticate_gives_same_identity() {
    let mut backend = Backend::new(UserStore::new());
    backend.create_user("alice".to_string(), "pw1").unwrap();
    let user = backend.authenticate(credentials("alice", "pw1")).unwrap().unwrap();
    assert_eq!(user.username, "alice");
    assert_eq!(backend.get_user(user.id), Some(User { id: user.id, username: "alice".to_string() }));
}

#[test]
fn repeated_create_keeps_one_row() {
    let mut backend = Backend::new(UserStore::new());
    backend.create_user("bob".to_string(), "first").unwrap();
    backend.create_user("bob".to_string(), "second").unwrap();
    assert_eq!(backend.store().len(), 1);
    assert_eq!(backend.store().find_by_username(&"bob".to_string()).unwrap().id, 1);
}

#[test]
fn end_to_end_admin_login() {
    let mut backend = Backend::new(UserStore::new());
    backend.create_user("admin1".to_string(), "secret").unwrap();
    let user = backend.authenticate(credentials("admin1", "secret")).unwrap();
    assert!(user.is_some());
    assert_eq!(backend.authenticate(credentials("admin1", "wrong")), Ok(None));
    assert_eq!(backend.authenticate(credentials("nouser", "anything")), Ok(None));
    assert_eq!(backend.get_user(4242), None);
    assert_eq!(backend.get_user(0), None);
    assert_eq!(backend.get_user(-1), None);
}

#[test]
fn malformed_stored_digest_propagates() {
    let mut store = UserStore::new();
    assert_eq!(store.insert_if_absent("eve".to_string(), "corrupt".to_string()), Ok(InsertOutcome::Inserted));
    let backend = Backend::new(store);
    assert_eq!(backend.authenticate(credentials("eve", "anything")), Err(Error::MalformedDigest));
    assert_eq!(backend.authenticate(credentials("someone", "anything")), Ok(None));
}

#[test]
fn create_on_taken_name_with_foreign_digest_keeps_it() {
    let mut store = UserStore::new();
    store.insert_if_absent("dave".to_string(), "corrupt".to_string()).unwrap();
    let mut backend = Backend::new(store);
    assert_eq!(backend.create_user("dave".to_string(), "pw"), Ok(()));
    assert_eq!(backend.store().find_by_id(1).unwrap().password_hash, "corrupt");
}

#[test]
fn decision_after_digest_check() {
    let mut store = UserStore::new();
    store.insert_if_absent("frank".to_string(), "h".to_string()).unwrap();
    let record = store.find_by_id(1).unwrap();
    assert_eq!(identity_after_check(record, Ok(true)), Ok(Some(User { id: 1, username: "frank".to_string() })));
    assert_eq!(identity_after_check(record, Ok(false)), Ok(None));
    assert_eq!(identity_after_check(record, Err(Error::MalformedDigest)), Err(Error::MalformedDigest));
    assert_eq!(identity_after_check(record, Err(Error::StoreError)), Err(Error::StoreError));
    assert_eq!(user_from_record(record), User { id: 1, username: "frank".to_string() });
}

#[test]
fn check_credentials_without_record_is_none() {
    assert_eq!(check_credentials(None, "pw"), Ok(None));
    let mut store = UserStore::new();
    store.insert_if_absent("gina".to_string(), "broken".to_string()).unwrap();
    assert_eq!(check_credentials(store.find_by_id(1), "pw"), Err(Error::MalformedDigest));
}

#[test]
fn user_equality_compares_id_and_name() {
    let a = User { id: 1, username: "a".to_string() };
    assert_eq!(a, User { id: 1, username: "a".to_string() });
    assert_ne!(a, User { id: 2, username: "a".to_string() });
    assert_ne!(a, User { id: 1, username: "b".to_string() });
}

#[test]
fn create_user_succeeds_on_new_and_taken_names() {
    let mut backend = Backend::new(UserStore::new());
    assert_eq!(backend.create_user("ivy".to_string(), ""), Ok(()));
    assert_eq!(backend.create_user("ivy".to_string(), "other"), Ok(()));
    assert_eq!(backend.store().len(), 1);
}
