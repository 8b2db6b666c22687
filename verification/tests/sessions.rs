use nitram::auth::NitramSession;
use nitram::error::Error;
use nitram::models::{AuthStrategy, DBSession, Timestamp};
use nitram::nitram::NitramInner;
use serde_json::Value;

fn user_session(user: &str) -> DBSession {
    DBSession {
        id: format!("session of {}", user),
        user_id: user.to_string(),
        strategy: AuthStrategy::EmailLink,
        token: "token".to_string(),
        expires_at: Timestamp { secs: 1, nanos: 0 },
    }
}

#[test]
fn accepted_connection_has_an_anonymous_session() {
    let mut inner = NitramInner::default();
    let id = inner.add_anonym_ws_session();
    assert!(matches!(inner.lookup(id), Some(NitramSession::Anonymous)));
    assert!(matches!(inner.is_auth(id), Err(Error::NotAuthorized)));
}

#[test]
fn two_connections_have_two_ids() {
    let mut inner = NitramInner::default();
    let first = inner.add_anonym_ws_session();
    let second = inner.add_anonym_ws_session();
    assert_ne!(first, second);
    assert!(inner.lookup(first).is_some());
    assert!(inner.lookup(second).is_some());
}

#[test]
fn closed_connection_has_no_session() {
    let mut inner = NitramInner::default();
    inner.open_ws_session(7);
    inner.open_ws_session(8);
    inner.remove(7);
    assert!(inner.lookup(7).is_none());
    assert!(inner.lookup(8).is_some());
    assert!(matches!(inner.is_auth(7), Err(Error::NotAuthenticated)));
    inner.remove(7);
    assert!(inner.lookup(7).is_none());
}

#[test]
fn authentication_replaces_the_session() {
    let mut inner = NitramInner::default();
    inner.open_ws_session(7);
    inner.auth_ws_session(7, user_session("ann"));
    match inner.lookup(7) {
        Some(NitramSession::Authenticated { db_session, topics_registered, .. }) => {
            assert_eq!(db_session.user_id, "ann");
            assert!(!topics_registered.contains_key("Messages"));
        }
        _ => panic!("the session is not authenticated"),
    }
    let payload = inner.is_auth(7).unwrap();
    assert_eq!(payload.db_session.user_id, "ann");
    assert_eq!(payload.db_session.id, "session of ann");
}

#[test]
fn authentication_of_an_absent_connection_does_nothing() {
    let mut inner = NitramInner::default();
    inner.auth_ws_session(7, user_session("ann"));
    assert!(inner.lookup(7).is_none());
}

#[test]
fn a_second_authentication_starts_afresh() {
    let mut inner = NitramInner::default();
    inner.open_ws_session(7);
    inner.auth_ws_session(7, user_session("ann"));
    assert!(inner.subscribe(7, "Messages", Value::from(1)));
    inner.auth_ws_session(7, user_session("bob"));
    match inner.lookup(7) {
        Some(NitramSession::Authenticated { db_session, topics_registered, .. }) => {
            assert_eq!(db_session.user_id, "bob");
            assert!(!topics_registered.contains_key("Messages"));
        }
        _ => panic!("the session is not authenticated"),
    }
}

#[test]
fn only_authenticated_sessions_subscribe() {
    let mut inner = NitramInner::default();
    inner.open_ws_session(7);
    assert!(!inner.subscribe(7, "Messages", Value::from(1)));
    assert!(!inner.unsubscribe(7, "Messages"));
    assert!(!inner.subscribe(8, "Messages", Value::from(1)));
    assert!(!inner.unsubscribe(8, "Messages"));
    assert!(matches!(inner.lookup(7), Some(NitramSession::Anonymous)));
    assert!(inner.lookup(8).is_none());
}

#[test]
fn subscription_stores_the_last_parameters() {
    let mut inner = NitramInner::default();
    inner.open_ws_session(7);
    inner.auth_ws_session(7, user_session("ann"));
    assert!(inner.subscribe(7, "Messages", Value::from(1)));
    assert!(inner.subscribe(7, "Other", Value::from("x")));
    assert!(inner.subscribe(7, "Messages", Value::from(2)));
    match inner.lookup(7) {
        Some(NitramSession::Authenticated { topics_registered, .. }) => {
            assert_eq!(topics_registered.get("Messages"), Some(&Value::from(2)));
            assert_eq!(topics_registered.get("Other"), Some(&Value::from("x")));
        }
        _ => panic!("the session is not authenticated"),
    }
    assert!(inner.unsubscribe(7, "Messages"));
    match inner.lookup(7) {
        Some(NitramSession::Authenticated { topics_registered, .. }) => {
            assert_eq!(topics_registered.get("Messages"), None);
            assert_eq!(topics_registered.get("Other"), Some(&Value::from("x")));
        }
        _ => panic!("the session is not authenticated"),
    }
}

#[test]
fn store_of_a_session_is_one_store() {
    let mut inner = NitramInner::default();
    inner.open_ws_session(7);
    inner.auth_ws_session(7, user_session("ann"));
    let first = inner.is_auth(7).unwrap().store;
    first.kv.try_lock().unwrap().insert("k".to_string(), Value::from(5));
    assert!(inner.subscribe(7, "Messages", Value::Null));
    let second = inner.is_auth(7).unwrap().store;
    assert_eq!(second.kv.try_lock().unwrap().get("k"), Some(&Value::from(5)));
    assert!(std::sync::Arc::ptr_eq(&first.kv, &second.kv));
}
