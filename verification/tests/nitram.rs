use std::sync::Arc;

use nitram::auth::{WSSessionAnonymResource, WSSessionAuthedResource};
use nitram::error::{Error, MethodError};
use nitram::messages::NitramServerMessage;
use nitram::models::{AuthStrategy, DBSession, Store};
use nitram::nitram::{Handled, Nitram, NitramInner, RpcCall, SendStep};
use nitram::{FromResources, IntoParams, NitramBuilder};
use rpc_router::{Request, Resources};
use serde_json::Value;
use tokio::sync::Mutex;

#[derive(Clone)]
pub struct ModelManager {}

impl FromResources for ModelManager {}

#[derive(Clone)]
pub struct MockParams {
    code: String,
}

impl<'de> serde::Deserialize<'de> for MockParams {
    fn deserialize<D: serde::Deserializer<'de>>(deserializer: D) -> Result<Self, D::Error> {
        let value = Value::deserialize(deserializer)?;
        match value.get("code").and_then(|code| code.as_str()) {
            Some(code) => Ok(MockParams { code: code.to_string() }),
            None => Err(serde::de::Error::missing_field("code")),
        }
    }
}

impl IntoParams for MockParams {}

#[derive(Clone)]
pub struct ChannelParams {
    channel: String,
}

impl<'de> serde::Deserialize<'de> for ChannelParams {
    fn deserialize<D: serde::Deserializer<'de>>(deserializer: D) -> Result<Self, D::Error> {
        let value = Value::deserialize(deserializer)?;
        match value.get("channel").and_then(|channel| channel.as_str()) {
            Some(channel) => Ok(ChannelParams { channel: channel.to_string() }),
            None => Err(serde::de::Error::missing_field("channel")),
        }
    }
}

impl IntoParams for ChannelParams {}

async fn mock_handler(
    _mm: ModelManager,
    _session: WSSessionAnonymResource,
    params: MockParams,
) -> Result<String, MethodError> {
    Ok(params.code)
}

async fn mock_private_handler(
    _mm: ModelManager,
    _session: WSSessionAuthedResource,
    params: MockParams,
) -> Result<String, MethodError> {
    if params.code == "return error" {
        return Err(MethodError::Server);
    }
    Ok(params.code.to_uppercase())
}

async fn whoami_handler(session: WSSessionAuthedResource) -> Result<String, MethodError> {
    Ok(session.user_id)
}

async fn where_handler(session: WSSessionAnonymResource) -> Result<String, MethodError> {
    Ok(session.ws_session_id.to_string())
}

async fn count_handler(store: Store) -> Result<i64, MethodError> {
    let mut table = store.kv.lock().await;
    let count = table.get("count").and_then(|v| v.as_i64()).unwrap_or(0) + 1;
    table.insert("count".to_string(), Value::from(count));
    Ok(count)
}

async fn failing_handler(_mm: ModelManager) -> Result<String, String> {
    Err("not a method error".to_string())
}

async fn quiet_handler(_mm: ModelManager) -> Result<String, MethodError> {
    Err(MethodError::NoResponse)
}

async fn not_found_handler(_mm: ModelManager) -> Result<String, MethodError> {
    Err(MethodError::NotFound)
}

async fn messages_handler(store: Store, params: ChannelParams) -> Result<String, MethodError> {
    let mut table = store.kv.lock().await;
    let notify = table.get("notify").and_then(|v| v.as_bool()).unwrap_or(true);
    if !notify {
        return Err(MethodError::NoResponse);
    }
    table.insert("notify".to_string(), Value::Bool(false));
    Ok(format!("messages of {}", params.channel))
}

async fn unprintable_handler(
    _mm: ModelManager,
) -> Result<std::collections::HashMap<(u8, u8), u8>, MethodError> {
    let mut map = std::collections::HashMap::new();
    map.insert((1, 2), 3);
    Ok(map)
}

async fn ticker_handler(_mm: ModelManager) -> Result<String, MethodError> {
    Ok("tick".to_string())
}

struct Context {
    nitram: Nitram,
    inner: Arc<Mutex<NitramInner>>,
    anonym_ws_sess_id: u128,
    ws_sess_id: u128,
}

fn prepare() -> Context {
    let inner = NitramInner::default();
    let inner_arc = Arc::new(Mutex::new(inner));
    let inner_arc_clone = Arc::clone(&inner_arc);
    let mm = ModelManager {};
    let cb = NitramBuilder::default()
        .add_resource(mm)
        .add_public_handler("Mock", mock_handler)
        .add_public_handler("Where", where_handler)
        .add_public_handler("Failing", failing_handler)
        .add_public_handler("NeedsUser", whoami_handler)
        .add_public_handler("Unprintable", unprintable_handler)
        .add_private_handler("MockPrivate", mock_private_handler)
        .add_private_handler("WhoAmI", whoami_handler)
        .add_private_handler("Count", count_handler)
        .add_private_handler("Quiet", quiet_handler)
        .add_private_handler("NotFound", not_found_handler)
        .add_server_message_handler("Ticker", ticker_handler)
        .add_server_message_handler("Messages", messages_handler);
    let nitram = cb.build(inner_arc);

    let mut nitram_inner = inner_arc_clone.try_lock().unwrap();
    let anonym = nitram_inner.add_anonym_ws_session();
    let authed = nitram_inner.add_anonym_ws_session();
    let db_session = DBSession::new("fake_user", AuthStrategy::EmailLink).unwrap();
    nitram_inner.auth_ws_session(authed, db_session);
    drop(nitram_inner);
    Context {
        nitram,
        inner: inner_arc_clone,
        anonym_ws_sess_id: anonym,
        ws_sess_id: authed,
    }
}

fn block_on<F: std::future::Future>(future: F) -> F::Output {
    tokio::runtime::Builder::new_current_thread()
        .build()
        .unwrap()
        .block_on(future)
}

fn rpc_request(method: String, params: Value) -> Result<Request, Error> {
    let mut object = serde_json::Map::new();
    object.insert("jsonrpc".to_string(), Value::from("2.0"));
    object.insert("id".to_string(), Value::Null);
    object.insert("method".to_string(), Value::from(method));
    object.insert("params".to_string(), params);
    Request::try_from(Value::Object(object)).map_err(Error::from)
}

async fn call(nitram: &Nitram, call: RpcCall) -> Result<Value, Error> {
    let router = nitram.router(&call).clone();
    let (request, resources) = match call {
        RpcCall::Public { method, params, session } => (
            rpc_request(method, params)?,
            Resources::builder().append(session).build(),
        ),
        RpcCall::Private { method, params, session, store } => (
            rpc_request(method, params)?,
            Resources::builder().append(session).append(store).build(),
        ),
        RpcCall::ServerMessage { topic, params, session, store } => (
            Request { id: "fake".into(), method: topic, params: Some(params) },
            Resources::builder().append(session).append(store).build(),
        ),
    };
    router
        .call_with_resources(request, resources)
        .await
        .map(|r| r.value)
        .map_err(|e| e.into())
}

async fn send(ctx: &Context, payload: &str, ws_session_id: u128) -> String {
    let step = {
        let mut inner = ctx.inner.lock().await;
        ctx.nitram.send(&mut inner, payload, ws_session_id)
    };
    let response = match step {
        SendStep::Reply(response) => response,
        SendStep::Invoke { id, method, call: rpc_call } => {
            let result = call(&ctx.nitram, rpc_call).await;
            Nitram::respond(id, method, result)
        }
    };
    response.to_text()
}

async fn drain(ctx: &Context, ws_session_id: u128) -> Vec<NitramServerMessage> {
    let inner = ctx.inner.lock().await;
    let mut batch = Vec::new();
    for rpc_call in ctx.nitram.server_message_calls(&inner, ws_session_id) {
        let topic = match &rpc_call {
            RpcCall::ServerMessage { topic, .. } => topic.clone(),
            _ => unreachable!(),
        };
        let result = call(&ctx.nitram, rpc_call).await;
        Nitram::record_server_message(&mut batch, topic, result);
    }
    batch
}

fn json(text: &str) -> Value {
    serde_json::from_str(text).unwrap()
}

#[test]
fn nitram_test_send() {
    let ctx = prepare();
    let req = json(r#"{"id": "1", "method": "Mock", "params": {"code": "hello"}}"#);
    let res = json(r#"{"id": "1", "method": "Mock", "response": "hello", "ok": true}"#);
    let response = block_on(send(&ctx, &req.to_string(), ctx.ws_sess_id));
    let parsed = serde_json::from_str::<Value>(&response).unwrap();
    assert_eq!(parsed, res);
}

#[test]
fn nitram_test_send_authed() {
    let ctx = prepare();
    let req = json(r#"{"id": "1", "method": "MockPrivate", "params": {"code": "hello"}}"#);
    let res = json(r#"{"id": "1", "method": "MockPrivate", "response": "HELLO", "ok": true}"#);
    let response = block_on(send(&ctx, &req.to_string(), ctx.ws_sess_id));
    let parsed = serde_json::from_str::<Value>(&response).unwrap();
    assert_eq!(parsed, res);
}

#[test]
fn nitram_test_send_not_authorized() {
    let ctx = prepare();
    let req = json(r#"{"id": "1", "method": "MockPrivate", "params": {"code": "hello"}}"#);
    let res = json(
        r#"{"id": "1", "method": "MockPrivate", "response": "(~ not authorized ~)", "ok": false}"#,
    );
    let response = block_on(send(&ctx, &req.to_string(), ctx.anonym_ws_sess_id));
    let parsed = serde_json::from_str::<Value>(&response).unwrap();
    assert_eq!(parsed, res);
}

#[test]
fn nitram_test_send_error() {
    let ctx = prepare();
    let req = json(r#"{"id": "1", "method": "MockPrivate", "params": {"code": "return error"}}"#);
    let res = json(
        r#"{"id": "1", "method": "MockPrivate", "response": "(~ server error ~)", "ok": false}"#,
    );
    let response = block_on(send(&ctx, &req.to_string(), ctx.ws_sess_id));
    let parsed = serde_json::from_str::<Value>(&response).unwrap();
    assert_eq!(parsed, res);
}

#[test]
fn nitram_test_send_wrong_params() {
    let ctx = prepare();
    let req = json(r#"{"id": "1", "method": "Mock", "params": {"wrong": 69}}"#);
    let res = json(r#"{"id": "1", "method": "Mock", "response": "(~ bad request ~)", "ok": false}"#);
    let response = block_on(send(&ctx, &req.to_string(), ctx.ws_sess_id));
    let parsed = serde_json::from_str::<Value>(&response).unwrap();
    assert_eq!(parsed, res);
}

#[test]
fn public_echo_on_anonymous_session_is_byte_exact() {
    let ctx = prepare();
    let response = block_on(send(
        &ctx,
        r#"{"id":"1","method":"Mock","params":{"code":"hello"}}"#,
        ctx.anonym_ws_sess_id,
    ));
    assert_eq!(response, r#"{"id":"1","method":"Mock","response":"hello","ok":true}"#);
}

#[test]
fn private_without_session_is_not_authenticated() {
    let ctx = prepare();
    let unknown = ctx.ws_sess_id ^ ctx.anonym_ws_sess_id ^ 1;
    let response = block_on(send(
        &ctx,
        r#"{"id":"7","method":"MockPrivate","params":{"code":"hello"}}"#,
        unknown,
    ));
    assert_eq!(
        response,
        r#"{"id":"7","method":"MockPrivate","response":"(~ not authenticated ~)","ok":false}"#
    );
}

#[test]
fn unknown_method_is_a_bad_request() {
    let ctx = prepare();
    let response = block_on(send(
        &ctx,
        r#"{"id":"2","method":"Nope","params":{}}"#,
        ctx.ws_sess_id,
    ));
    assert_eq!(
        response,
        r#"{"id":"2","method":"Nope","response":"(~ bad request ~)","ok":false}"#
    );
}

#[test]
fn missing_params_are_a_bad_request() {
    let ctx = prepare();
    let response = block_on(send(
        &ctx,
        r#"{"id":"2","method":"Mock","params":null}"#,
        ctx.ws_sess_id,
    ));
    assert_eq!(
        response,
        r#"{"id":"2","method":"Mock","response":"(~ bad request ~)","ok":false}"#
    );
}

#[test]
fn malformed_frames_get_the_error_response() {
    let ctx = prepare();
    let expected = r#"{"id":"_err","method":"_err","response":"Invalid message, check API","ok":false}"#;
    for frame in [
        "not json",
        "[]",
        r#"{"method":"Mock","params":{}}"#,
        r#"{"id":1,"method":"Mock","params":{}}"#,
        r#"{"id":"1","method":"Mock"}"#,
        r#"{"id":"1","method":5,"params":{}}"#,
    ] {
        let response = block_on(send(&ctx, frame, ctx.ws_sess_id));
        assert_eq!(response, expected);
    }
}

#[test]
fn handler_errors_keep_their_message() {
    let ctx = prepare();
    let response = block_on(send(
        &ctx,
        r#"{"id":"3","method":"NotFound","params":{}}"#,
        ctx.ws_sess_id,
    ));
    assert_eq!(
        response,
        r#"{"id":"3","method":"NotFound","response":"(~ not found ~)","ok":false}"#
    );
}

#[test]
fn no_response_on_a_request_is_a_server_error() {
    let ctx = prepare();
    let response = block_on(send(
        &ctx,
        r#"{"id":"3","method":"Quiet","params":{}}"#,
        ctx.ws_sess_id,
    ));
    assert_eq!(
        response,
        r#"{"id":"3","method":"Quiet","response":"(~ server error ~)","ok":false}"#
    );
}

#[test]
fn a_handler_error_of_another_type_is_a_server_error() {
    let ctx = prepare();
    let response = block_on(send(
        &ctx,
        r#"{"id":"3","method":"Failing","params":{}}"#,
        ctx.anonym_ws_sess_id,
    ));
    assert_eq!(
        response,
        r#"{"id":"3","method":"Failing","response":"(~ server error ~)","ok":false}"#
    );
}

#[test]
fn handlers_are_given_the_session_identity() {
    let ctx = prepare();
    let response = block_on(send(
        &ctx,
        r#"{"id":"4","method":"WhoAmI","params":{}}"#,
        ctx.ws_sess_id,
    ));
    assert_eq!(
        response,
        r#"{"id":"4","method":"WhoAmI","response":"fake_user","ok":true}"#
    );
    let response = block_on(send(
        &ctx,
        r#"{"id":"5","method":"Where","params":{}}"#,
        ctx.anonym_ws_sess_id,
    ));
    assert_eq!(
        response,
        format!(
            r#"{{"id":"5","method":"Where","response":"{}","ok":true}}"#,
            ctx.anonym_ws_sess_id
        )
    );
}

#[test]
fn scratch_store_is_shared_between_calls() {
    let ctx = prepare();
    let frame = r#"{"id":"1","method":"Count","params":{}}"#;
    let first = block_on(send(&ctx, frame, ctx.ws_sess_id));
    let second = block_on(send(&ctx, frame, ctx.ws_sess_id));
    let third = block_on(send(&ctx, frame, ctx.ws_sess_id));
    assert_eq!(first, r#"{"id":"1","method":"Count","response":1,"ok":true}"#);
    assert_eq!(second, r#"{"id":"1","method":"Count","response":2,"ok":true}"#);
    assert_eq!(third, r#"{"id":"1","method":"Count","response":3,"ok":true}"#);
}

#[test]
fn scratch_stores_of_two_sessions_are_apart() {
    let ctx = prepare();
    let other = {
        let mut inner = ctx.inner.try_lock().unwrap();
        let other = inner.add_anonym_ws_session();
        let db_session = DBSession::new("other_user", AuthStrategy::EmailLink).unwrap();
        inner.auth_ws_session(other, db_session);
        other
    };
    let frame = r#"{"id":"1","method":"Count","params":{}}"#;
    assert_eq!(
        block_on(send(&ctx, frame, ctx.ws_sess_id)),
        r#"{"id":"1","method":"Count","response":1,"ok":true}"#
    );
    assert_eq!(
        block_on(send(&ctx, frame, other)),
        r#"{"id":"1","method":"Count","response":1,"ok":true}"#
    );
}

#[test]
fn push_drain_follows_the_subscription() {
    let ctx = prepare();
    assert!(block_on(drain(&ctx, ctx.ws_sess_id)).is_empty());

    let registered = block_on(send(
        &ctx,
        r#"{"id":"9","method":"nitram_topic_register","params":{"topic":"Messages","handler_params":{"channel":"c"}}}"#,
        ctx.ws_sess_id,
    ));
    assert_eq!(
        registered,
        r#"{"id":"9","method":"nitram_topic_register","response":true,"ok":true}"#
    );

    let first = block_on(drain(&ctx, ctx.ws_sess_id));
    assert_eq!(first.len(), 1);
    assert_eq!(first[0].topic, "Messages");
    assert_eq!(first[0].payload, Value::from("messages of c"));
    assert_eq!(
        nitram::messages::server_messages_to_text(&first),
        r#"[{"topic":"Messages","payload":"messages of c"}]"#
    );

    let second = block_on(drain(&ctx, ctx.ws_sess_id));
    assert!(second.is_empty());
    assert_eq!(nitram::ws::push_frame(&second), None);

    let deregistered = block_on(send(
        &ctx,
        r#"{"id":"10","method":"nitram_topic_deregister","params":{"topic":"Messages"}}"#,
        ctx.ws_sess_id,
    ));
    assert_eq!(
        deregistered,
        r#"{"id":"10","method":"nitram_topic_deregister","response":true,"ok":true}"#
    );
    let inner = ctx.inner.try_lock().unwrap();
    assert!(ctx.nitram.server_message_calls(&inner, ctx.ws_sess_id).is_empty());
}

#[test]
fn drain_keeps_the_order_of_registration() {
    let ctx = prepare();
    for frame in [
        r#"{"id":"1","method":"nitram_topic_register","params":{"topic":"Messages","handler_params":{"channel":"c"}}}"#,
        r#"{"id":"2","method":"nitram_topic_register","params":{"topic":"Ticker","handler_params":{}}}"#,
        r#"{"id":"3","method":"nitram_topic_register","params":{"topic":"Unheard","handler_params":{}}}"#,
    ] {
        block_on(send(&ctx, frame, ctx.ws_sess_id));
    }
    let batch = block_on(drain(&ctx, ctx.ws_sess_id));
    assert_eq!(
        nitram::messages::server_messages_to_text(&batch),
        r#"[{"topic":"Ticker","payload":"tick"},{"topic":"Messages","payload":"messages of c"}]"#
    );
    let batch = block_on(drain(&ctx, ctx.ws_sess_id));
    assert_eq!(
        nitram::ws::push_frame(&batch),
        Some(r#"[{"topic":"Ticker","payload":"tick"}]"#.to_string())
    );
}

#[test]
fn reserved_methods_answer_true_whatever_comes_of_them() {
    let ctx = prepare();
    let on_anonymous = block_on(send(
        &ctx,
        r#"{"id":"1","method":"nitram_topic_register","params":{"topic":"Ticker","handler_params":{}}}"#,
        ctx.anonym_ws_sess_id,
    ));
    assert_eq!(
        on_anonymous,
        r#"{"id":"1","method":"nitram_topic_register","response":true,"ok":true}"#
    );
    assert!(block_on(drain(&ctx, ctx.anonym_ws_sess_id)).is_empty());

    let without_topic = block_on(send(
        &ctx,
        r#"{"id":"2","method":"nitram_topic_register","params":{"handler_params":{}}}"#,
        ctx.ws_sess_id,
    ));
    assert_eq!(
        without_topic,
        r#"{"id":"2","method":"nitram_topic_register","response":true,"ok":true}"#
    );
    assert!(block_on(drain(&ctx, ctx.ws_sess_id)).is_empty());
}

#[test]
fn a_call_that_fails_adds_nothing_to_the_batch() {
    let mut batch: Vec<NitramServerMessage> = Vec::new();
    Nitram::record_server_message(&mut batch, "A".to_string(), Ok(Value::from(1)));
    Nitram::record_server_message(&mut batch, "B".to_string(), Err(Error::MethodNotFound));
    Nitram::record_server_message(&mut batch, "C".to_string(), Ok(Value::Null));
    assert_eq!(
        nitram::messages::server_messages_to_text(&batch),
        r#"[{"topic":"A","payload":1},{"topic":"C","payload":null}]"#
    );
}

#[test]
fn a_subscription_without_parameters_stores_null() {
    let ctx = prepare();
    block_on(send(
        &ctx,
        r#"{"id":"1","method":"nitram_topic_register","params":{"topic":"Ticker"}}"#,
        ctx.ws_sess_id,
    ));
    let inner = ctx.inner.try_lock().unwrap();
    let calls = ctx.nitram.server_message_calls(&inner, ctx.ws_sess_id);
    assert_eq!(calls.len(), 1);
    match &calls[0] {
        RpcCall::ServerMessage { topic, params, session, .. } => {
            assert_eq!(topic, "Ticker");
            assert_eq!(params, &Value::Null);
            assert_eq!(session.user_id, "fake_user");
        }
        _ => panic!("a drain calls topic handlers only"),
    }
}

#[test]
fn a_later_subscription_replaces_the_parameters() {
    let ctx = prepare();
    for frame in [
        r#"{"id":"1","method":"nitram_topic_register","params":{"topic":"Messages","handler_params":{"channel":"a"}}}"#,
        r#"{"id":"2","method":"nitram_topic_register","params":{"topic":"Messages","handler_params":{"channel":"b"}}}"#,
    ] {
        block_on(send(&ctx, frame, ctx.ws_sess_id));
    }
    let batch = block_on(drain(&ctx, ctx.ws_sess_id));
    assert_eq!(
        nitram::messages::server_messages_to_text(&batch),
        r#"[{"topic":"Messages","payload":"messages of b"}]"#
    );
}

#[test]
fn requests_do_not_change_the_sessions() {
    let ctx = prepare();
    block_on(send(
        &ctx,
        r#"{"id":"1","method":"Mock","params":{"topic":"Ticker","handler_params":{}}}"#,
        ctx.ws_sess_id,
    ));
    let inner = ctx.inner.try_lock().unwrap();
    assert!(ctx.nitram.server_message_calls(&inner, ctx.ws_sess_id).is_empty());
    assert!(inner.lookup(ctx.anonym_ws_sess_id).is_some());
    assert!(inner.lookup(ctx.ws_sess_id).is_some());
}

#[test]
fn a_missing_resource_is_a_server_error() {
    let ctx = prepare();
    let response = block_on(send(
        &ctx,
        r#"{"id":"1","method":"NeedsUser","params":{}}"#,
        ctx.ws_sess_id,
    ));
    assert_eq!(
        response,
        r#"{"id":"1","method":"NeedsUser","response":"(~ server error ~)","ok":false}"#
    );
}

#[test]
fn a_result_that_is_no_json_is_a_server_error() {
    let ctx = prepare();
    let response = block_on(send(
        &ctx,
        r#"{"id":"1","method":"Unprintable","params":{}}"#,
        ctx.ws_sess_id,
    ));
    assert_eq!(
        response,
        r#"{"id":"1","method":"Unprintable","response":"(~ server error ~)","ok":false}"#
    );
}

#[test]
fn a_method_that_the_router_lacks_is_a_bad_request() {
    let ctx = prepare();
    let rpc_call = RpcCall::Public {
        method: "MockPrivate".to_string(),
        params: Value::Null,
        session: WSSessionAnonymResource { ws_session_id: ctx.anonym_ws_sess_id },
    };
    let result = block_on(call(&ctx.nitram, rpc_call));
    assert!(matches!(result, Err(Error::RpcCallError(_))));
    let response = Nitram::respond("1".to_string(), "MockPrivate".to_string(), result);
    assert_eq!(
        response.to_text(),
        r#"{"id":"1","method":"MockPrivate","response":"(~ bad request ~)","ok":false}"#
    );
}

#[test]
fn a_request_that_is_no_json_rpc_is_a_server_error() {
    let mut object = serde_json::Map::new();
    object.insert("id".to_string(), Value::Null);
    let failed = Request::try_from(Value::Object(object)).map_err(Error::from);
    let error = match failed {
        Err(error) => error,
        Ok(_) => panic!("a request without a version is rejected"),
    };
    assert!(matches!(error, Error::RpcRequestParsingError(_)));
    let response = Nitram::respond("1".to_string(), "M".to_string(), Err(error));
    assert_eq!(
        response.to_text(),
        r#"{"id":"1","method":"M","response":"(~ server error ~)","ok":false}"#
    );
}

#[test]
fn handle_says_what_is_to_be_done() {
    let ctx = prepare();
    let mut inner = ctx.inner.try_lock().unwrap();
    let params = json(r#"{"code":"hello"}"#);
    match ctx.nitram.handle(&mut inner, ctx.anonym_ws_sess_id, "Mock", params.clone()) {
        Ok(Handled::Call(RpcCall::Public { method, params: given, session })) => {
            assert_eq!(method, "Mock");
            assert_eq!(given, params);
            assert_eq!(session.ws_session_id, ctx.anonym_ws_sess_id);
        }
        _ => panic!("a public method is called"),
    }
    match ctx.nitram.handle(&mut inner, ctx.ws_sess_id, "MockPrivate", params.clone()) {
        Ok(Handled::Call(RpcCall::Private { method, params: given, session, .. })) => {
            assert_eq!(method, "MockPrivate");
            assert_eq!(given, params);
            assert_eq!(session.user_id, "fake_user");
        }
        _ => panic!("a private method is called under an authenticated session"),
    }
    assert!(matches!(
        ctx.nitram.handle(&mut inner, ctx.anonym_ws_sess_id, "MockPrivate", params.clone()),
        Err(Error::NotAuthorized)
    ));
    assert!(matches!(
        ctx.nitram.handle(&mut inner, 0, "MockPrivate", params.clone()),
        Err(Error::NotAuthenticated)
    ));
    assert!(matches!(
        ctx.nitram.handle(&mut inner, ctx.ws_sess_id, "Ticker", params.clone()),
        Err(Error::MethodNotFound)
    ));
    match ctx.nitram.handle(&mut inner, ctx.ws_sess_id, "nitram_topic_deregister", params) {
        Ok(Handled::Value(value)) => assert_eq!(value, Value::Bool(true)),
        _ => panic!("a reserved method is answered at once"),
    }
}
