use std::sync::Arc;

use nitram::error::MethodError;
use nitram::nitram::{
    Nitram, NitramInner, RpcCall, SendStep, Tunables, DEFAULT_MAX_FRAME_SIZE,
    DEFAULT_PING_INTERVAL_IN_SECONDS, DEFAULT_TIMEOUT_IN_SECONDS,
};
use nitram::{FromResources, NitramBuilder};
use tokio::sync::Mutex;

#[derive(Clone)]
struct Greeter {
    greeting: String,
}

impl FromResources for Greeter {}

async fn hello(greeter: Greeter) -> Result<String, MethodError> {
    Ok(greeter.greeting)
}

fn store() -> Arc<Mutex<NitramInner>> {
    Arc::new(Mutex::new(NitramInner::default()))
}

#[test]
fn defaults_are_five_ten_and_128_kib() {
    assert_eq!(DEFAULT_PING_INTERVAL_IN_SECONDS, 5);
    assert_eq!(DEFAULT_TIMEOUT_IN_SECONDS, 10);
    assert_eq!(DEFAULT_MAX_FRAME_SIZE, 128 * 1024);
    let nitram = NitramBuilder::default().build(store());
    assert_eq!(
        nitram.settings(),
        Tunables {
            ping_interval_in_seconds: 5,
            server_messages_interval_in_millis: None,
            timeout_in_seconds: 10,
            max_frame_size: 131072,
        }
    );
    assert_eq!(nitram.ping_interval_in_seconds, 5);
    assert_eq!(nitram.timeout_in_seconds, 10);
    assert_eq!(nitram.max_frame_size, 131072);
    assert_eq!(nitram.server_messages_interval_in_millis, None);
}

#[test]
fn choices_replace_the_defaults() {
    let nitram = NitramBuilder::default()
        .set_ping_interval(1)
        .set_timeout(3)
        .set_server_messages_interval(250)
        .set_max_frame_size(1024)
        .build(store());
    assert_eq!(
        nitram.settings(),
        Tunables {
            ping_interval_in_seconds: 1,
            server_messages_interval_in_millis: Some(250),
            timeout_in_seconds: 3,
            max_frame_size: 1024,
        }
    );
}

#[test]
fn engine_works_on_the_store_it_was_built_over() {
    let inner = store();
    let nitram = NitramBuilder::default().build(inner.clone());
    assert!(Arc::ptr_eq(&nitram.inner, &inner));
    let copy = nitram.clone();
    assert!(Arc::ptr_eq(&copy.inner, &inner));
}

#[test]
fn a_name_in_both_namespaces_is_public() {
    let inner = store();
    let nitram = NitramBuilder::default()
        .add_resource(Greeter { greeting: "hi".to_string() })
        .add_private_handler("Hello", hello)
        .add_public_handler("Hello", hello)
        .build(inner.clone());
    let mut inner = inner.try_lock().unwrap();
    let id = inner.add_anonym_ws_session();
    match nitram.send(&mut inner, r#"{"id":"1","method":"Hello","params":null}"#, id) {
        SendStep::Invoke { call: RpcCall::Public { method, session, .. }, .. } => {
            assert_eq!(method, "Hello");
            assert_eq!(session.ws_session_id, id);
        }
        _ => panic!("the public handler is to be called"),
    }
}

#[test]
fn resources_reach_the_handlers_of_every_namespace() {
    let inner = store();
    let nitram: Nitram = NitramBuilder::default()
        .add_resource(Greeter { greeting: "hi".to_string() })
        .add_public_handler("Hello", hello)
        .add_private_handler("PrivateHello", hello)
        .add_server_message_handler("PushedHello", hello)
        .build(inner);
    let runtime = tokio::runtime::Builder::new_current_thread().build().unwrap();
    let session = nitram::auth::WSSessionAnonymResource { ws_session_id: 1 };
    let authed = nitram::auth::WSSessionAuthedResource { user_id: "u".to_string() };
    let calls = [
        RpcCall::Public {
            method: "Hello".to_string(),
            params: serde_json::Value::Null,
            session,
        },
        RpcCall::Private {
            method: "PrivateHello".to_string(),
            params: serde_json::Value::Null,
            session: authed.clone(),
            store: nitram::models::Store::new(),
        },
        RpcCall::ServerMessage {
            topic: "PushedHello".to_string(),
            params: serde_json::Value::Null,
            session: authed,
            store: nitram::models::Store::new(),
        },
    ];
    for call in calls {
        let method = match &call {
            RpcCall::Public { method, .. } => method.clone(),
            RpcCall::Private { method, .. } => method.clone(),
            RpcCall::ServerMessage { topic, .. } => topic.clone(),
        };
        let result = runtime.block_on(nitram.router(&call).call_route(None, method, None));
        assert_eq!(result.unwrap().value, serde_json::Value::from("hi"));
    }
    let wrong = RpcCall::Public {
        method: "PrivateHello".to_string(),
        params: serde_json::Value::Null,
        session,
    };
    let result = runtime.block_on(nitram.router(&wrong).call_route(None, "PrivateHello", None));
    assert!(matches!(
        result.unwrap_err().error,
        rpc_router::Error::MethodUnknown
    ));
}
