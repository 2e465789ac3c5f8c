use auth_policy::sessions::{Session, SessionStore};
use auth_policy::users::{
    decode_user_row, is_admin, resolve_user_lookup, AdminFlagOutcome, LookupFailure, UserId,
    UserRowOutcome,
};
use auth_policy::AuthError;

fn uid(last: u8) -> UserId {
    let mut bytes = vec![0u8; 16];
    bytes[15] = last;
    UserId::from_bytes(bytes).expect("16 bytes make a user id")
}

fn session(last: u8, token: &str) -> Session {
    Session { user_id: uid(last), refresh_token: token.to_string() }
}

#[test]
fn delete_session_unknown_token_returns_zero() {
    let mut store = SessionStore::new();
    store.insert(session(1, "tok-a")).ok().expect("fresh token");
    let n = store.delete_session("unknown-token");
    assert_eq!(n, 0);
    // the known session is still there
    assert_eq!(store.delete_session("tok-a"), 1);
}

#[test]
fn delete_session_known_token_removes_one_row() {
    let mut store = SessionStore::new();
    store.insert(session(1, "tok-a")).ok().expect("fresh token");
    store.insert(session(1, "tok-b")).ok().expect("fresh token");
    assert_eq!(store.delete_session("tok-a"), 1);
    // deleting again is idempotent: the row is gone
    assert_eq!(store.delete_session("tok-a"), 0);
    assert_eq!(store.delete_session("tok-b"), 1);
}

#[test]
fn delete_all_sessions_counts_per_user() {
    let mut store = SessionStore::new();
    store.insert(session(1, "t1")).ok().expect("fresh token");
    store.insert(session(1, "t2")).ok().expect("fresh token");
    store.insert(session(2, "t3")).ok().expect("fresh token");
    assert_eq!(store.delete_all_sessions_for_user(&uid(1)), 2);
    assert_eq!(store.delete_all_sessions_for_user(&uid(1)), 0);
    assert_eq!(store.delete_all_sessions_for_user(&uid(2)), 1);
}

fn three_session_store() -> SessionStore {
    let mut store = SessionStore::new();
    store.insert(session(1, "t1")).ok().expect("fresh token");
    store.insert(session(1, "t2")).ok().expect("fresh token");
    store.insert(session(2, "t3")).ok().expect("fresh token");
    store
}

#[test]
fn deletes_are_idempotent() {
    let mut store = three_session_store();
    assert_eq!(store.delete_all_sessions_for_user(&uid(1)), 2);
    assert_eq!(store.delete_all_sessions_for_user(&uid(1)), 0);
    assert_eq!(store.len(), 1);
    assert_eq!(store.delete_session("t3"), 1);
    assert_eq!(store.delete_session("t3"), 0);
    assert_eq!(store.len(), 0);
}

#[test]
fn deletes_commute() {
    let mut a = three_session_store();
    let mut b = three_session_store();

    assert_eq!(a.delete_all_sessions_for_user(&uid(1)), 2);
    assert_eq!(a.delete_session("t3"), 1);

    assert_eq!(b.delete_session("t3"), 1);
    assert_eq!(b.delete_all_sessions_for_user(&uid(1)), 2);

    for store in [&a, &b] {
        assert_eq!(store.len(), 0);
        assert!(!store.contains_token("t1"));
        assert!(!store.contains_token("t2"));
        assert!(!store.contains_token("t3"));
    }
}

#[test]
fn insert_rejects_duplicate_refresh_token() {
    let mut store = SessionStore::new();
    assert!(store.insert(session(1, "tok")).is_ok());
    assert!(store.insert(session(2, "tok")).is_err());
}

#[test]
fn user_id_must_be_sixteen_bytes() {
    assert!(UserId::from_bytes(vec![0u8; 16]).is_some());
    assert!(UserId::from_bytes(vec![0u8; 15]).is_none());
    assert!(UserId::from_bytes(vec![0u8; 17]).is_none());
    assert!(UserId::from_bytes(Vec::new()).is_none());
}

#[test]
fn decode_user_row_maps_columns() {
    let id = vec![7u8; 16];
    let u = decode_user_row(id.clone(), "a@ex.com".to_string(), 1).expect("well-shaped row");
    assert_eq!(u.id.as_bytes(), &id);
    assert_eq!(u.email, "a@ex.com");
    assert!(u.admin);
    let u = decode_user_row(id, "a@ex.com".to_string(), 0).expect("well-shaped row");
    assert!(!u.admin);
}

#[test]
fn decode_user_row_names_the_decode_error() {
    let r = decode_user_row(vec![7u8; 3], "a@ex.com".to_string(), 0);
    assert_eq!(r.err(), Some(LookupFailure::Decode));
}

#[test]
fn lookup_failures_collapse_to_one_redacted_error() {
    let r = resolve_user_lookup(UserRowOutcome::NotFound);
    assert_eq!(r.err(), Some(AuthError::UnauthorizedExt));
    let r = resolve_user_lookup(UserRowOutcome::StorageFailed);
    assert_eq!(r.err(), Some(AuthError::UnauthorizedExt));
    let r = resolve_user_lookup(UserRowOutcome::RowMalformed);
    assert_eq!(r.err(), Some(AuthError::UnauthorizedExt));
    let r = resolve_user_lookup(UserRowOutcome::Row {
        id: vec![0u8; 4],
        email: "a@ex.com".to_string(),
        admin: 0,
    });
    assert_eq!(r.err(), Some(AuthError::UnauthorizedExt));
}

#[test]
fn lookup_returns_user_for_well_shaped_row() {
    let r = resolve_user_lookup(UserRowOutcome::Row {
        id: vec![9u8; 16],
        email: "b@ex.com".to_string(),
        admin: 1,
    });
    let u = r.expect("well-shaped row resolves");
    assert_eq!(u.email, "b@ex.com");
    assert!(u.admin);
}

#[test]
fn is_admin_fails_closed() {
    assert!(is_admin(AdminFlagOutcome::Flag(true)));
    assert!(!is_admin(AdminFlagOutcome::Flag(false)));
    assert!(!is_admin(AdminFlagOutcome::NoRow));
    assert!(!is_admin(AdminFlagOutcome::StorageFailed));
    assert!(!is_admin(AdminFlagOutcome::DecodeFailed));
}
