//! The session store and the dispatch engine.
//!
//! The store maps each live connection to its session. The engine reads a
//! request frame, decides what is to be done with it, and says so: either
//! the response is ready, or a handler is to be called and the response
//! follows from what the call returns. Calling the handler is left to the
//! caller, because handlers are asynchronous; every decision before and
//! after the call is made, and proved, here.

use std::collections::BTreeMap;
use std::sync::Arc;
use vstd::prelude::*;
use crate::auth::{
    new_uuid, table_models, NitramSession, SessionView, WSSessionAnonymResource,
    WSSessionAuthedResource,
};
use crate::error::{call_failure, call_failure_of, CallFailure, Error};
use crate::json::{json_bool, json_clone, json_get, json_model, json_null, Json};
use crate::messages::{
    request_parsed, NitramRequest, NitramResponse, NitramServerMessage, ResponseView,
    ServerMessageView,
};
use crate::models::{DBSession, Store, UserPayload};
use crate::nice::{nice_text, Nice, NiceMessage};
use crate::text::{contains_name, str_eq};

verus! {

broadcast use vstd::std_specs::btree::group_btree_axioms;

/// The sessions of all live connections, by connection id.
pub type Sessions = Map<u128, SessionView>;

/// Whether the connection `id` has a session and it is authenticated.
pub open spec fn is_authenticated(sessions: Sessions, id: u128) -> bool {
    sessions.contains_key(id) && sessions[id] is Authenticated
}

/// The sessions after the connection `id` has subscribed to `topic` with
/// `params`: nothing changes unless its session is authenticated.
pub open spec fn subscribed(sessions: Sessions, id: u128, topic: Seq<char>, params: Json) -> Sessions {
    if is_authenticated(sessions, id) {
        sessions.insert(
            id,
            SessionView::Authenticated {
                db_session: sessions[id]->db_session,
                topics_registered: sessions[id]->topics_registered.insert(topic, params),
                store: sessions[id]->store,
            },
        )
    } else {
        sessions
    }
}

/// The sessions after the connection `id` has unsubscribed from `topic`:
/// nothing changes unless its session is authenticated.
pub open spec fn unsubscribed(sessions: Sessions, id: u128, topic: Seq<char>) -> Sessions {
    if is_authenticated(sessions, id) {
        sessions.insert(
            id,
            SessionView::Authenticated {
                db_session: sessions[id]->db_session,
                topics_registered: sessions[id]->topics_registered.remove(topic),
                store: sessions[id]->store,
            },
        )
    } else {
        sessions
    }
}

/// The sessions after the connection `id` has been authenticated as
/// `db_session`, with `store` as the new session's scratch store: nothing
/// changes where the connection has no session.
pub open spec fn authenticated(
    sessions: Sessions,
    id: u128,
    db_session: crate::models::DBSessionView,
    store: Store,
) -> Sessions {
    if sessions.contains_key(id) {
        sessions.insert(
            id,
            SessionView::Authenticated { db_session, topics_registered: Map::empty(), store },
        )
    } else {
        sessions
    }
}

/// The session store.
pub struct NitramInner {
    ws_sessions: BTreeMap<u128, NitramSession>,
}

impl View for NitramInner {
    type V = Sessions;

    closed spec fn view(&self) -> Sessions {
        self.ws_sessions@.map_values(|s: NitramSession| s@)
    }
}

impl Default for NitramInner {
    /// The store without any session.
    fn default() -> (inner: Self)
        ensures
            inner@ == Map::<u128, SessionView>::empty(),
    {
        let inner = NitramInner { ws_sessions: BTreeMap::new() };
        proof {
            assert(inner@ =~= Map::<u128, SessionView>::empty());
        }
        inner
    }
}

impl NitramInner {
    /// Opens an anonymous session under the connection id `id`.
    pub fn open_ws_session(&mut self, id: u128)
        ensures
            final(self)@ == old(self)@.insert(id, SessionView::Anonymous),
    {
        let _ = self.ws_sessions.insert(id, NitramSession::Anonymous);
        proof {
            assert(final(self)@ =~= old(self)@.insert(id, SessionView::Anonymous));
        }
    }

    /// Opens an anonymous session under a new, random connection id and
    /// returns the id.
    pub fn add_anonym_ws_session(&mut self) -> (id: u128)
        ensures
            final(self)@ == old(self)@.insert(id, SessionView::Anonymous),
    {
        let id = new_uuid();
        self.open_ws_session(id);
        id
    }

    /// Makes the session of the connection `ws_session_id` an authenticated
    /// one, with no topic subscribed and a scratch store of its own. Nothing
    /// happens where the connection has no session.
    pub fn auth_ws_session(&mut self, ws_session_id: u128, db_session: DBSession)
        ensures
            final(self)@ == authenticated(
                old(self)@,
                ws_session_id,
                db_session@,
                final(self)@[ws_session_id]->store,
            ),
    {
        if self.ws_sessions.contains_key(&ws_session_id) {
            let session = NitramSession::new(db_session);
            let _ = self.ws_sessions.insert(ws_session_id, session);
            proof {
                assert(final(self)@ =~= authenticated(
                    old(self)@,
                    ws_session_id,
                    db_session@,
                    final(self)@[ws_session_id]->store,
                ));
            }
        } else {
            proof {
                assert(final(self)@ =~= old(self)@);
            }
        }
    }

    /// Takes the session of the connection `ws_session_id` out of the store.
    pub fn remove(&mut self, ws_session_id: u128)
        ensures
            final(self)@ == old(self)@.remove(ws_session_id),
    {
        let _ = self.ws_sessions.remove(&ws_session_id);
        proof {
            assert(final(self)@ =~= old(self)@.remove(ws_session_id));
        }
    }

    /// The session of the connection `ws_session_id`, if it has one.
    pub fn lookup(&self, ws_session_id: u128) -> (session: Option<&NitramSession>)
        ensures
            match session {
                Some(s) => self@.contains_key(ws_session_id) && self@[ws_session_id] == s@,
                None => !self@.contains_key(ws_session_id),
            },
    {
        self.ws_sessions.get(&ws_session_id)
    }

    /// Subscribes the connection to `topic` with `params`, which replace the
    /// parameters of an earlier subscription. Returns whether the session is
    /// authenticated: only then is anything stored.
    pub fn subscribe(&mut self, ws_session_id: u128, topic: &str, params: serde_json::Value) -> (done:
        bool)
        ensures
            done == is_authenticated(old(self)@, ws_session_id),
            final(self)@ == subscribed(old(self)@, ws_session_id, topic@, json_model(params)),
    {
        match self.ws_sessions.remove(&ws_session_id) {
            Some(NitramSession::Authenticated { db_session, topics_registered, store }) => {
                let mut topics_registered = topics_registered;
                let ghost before = topics_registered@;
                let _ = topics_registered.insert(topic.to_owned(), params);
                proof {
                    assert(table_models(before.insert(topic@, params)) =~= table_models(
                        before,
                    ).insert(topic@, json_model(params)));
                }
                let _ = self.ws_sessions.insert(
                    ws_session_id,
                    NitramSession::Authenticated { db_session, topics_registered, store },
                );
                proof {
                    assert(final(self)@ =~= subscribed(
                        old(self)@,
                        ws_session_id,
                        topic@,
                        json_model(params),
                    ));
                }
                true
            },
            Some(NitramSession::Anonymous) => {
                let _ = self.ws_sessions.insert(ws_session_id, NitramSession::Anonymous);
                proof {
                    assert(final(self)@ =~= old(self)@);
                }
                false
            },
            None => {
                proof {
                    assert(final(self)@ =~= old(self)@);
                }
                false
            },
        }
    }

    /// Takes the connection's subscription to `topic` away. Returns whether
    /// the session is authenticated.
    pub fn unsubscribe(&mut self, ws_session_id: u128, topic: &str) -> (done: bool)
        ensures
            done == is_authenticated(old(self)@, ws_session_id),
            final(self)@ == unsubscribed(old(self)@, ws_session_id, topic@),
    {
        match self.ws_sessions.remove(&ws_session_id) {
            Some(NitramSession::Authenticated { db_session, topics_registered, store }) => {
                let mut topics_registered = topics_registered;
                let ghost before = topics_registered@;
                let _ = topics_registered.remove(topic);
                proof {
                    assert(table_models(before.remove(topic@)) =~= table_models(before).remove(
                        topic@,
                    ));
                }
                let _ = self.ws_sessions.insert(
                    ws_session_id,
                    NitramSession::Authenticated { db_session, topics_registered, store },
                );
                proof {
                    assert(final(self)@ =~= unsubscribed(old(self)@, ws_session_id, topic@));
                }
                true
            },
            Some(NitramSession::Anonymous) => {
                let _ = self.ws_sessions.insert(ws_session_id, NitramSession::Anonymous);
                proof {
                    assert(final(self)@ =~= old(self)@);
                }
                false
            },
            None => {
                proof {
                    assert(final(self)@ =~= old(self)@);
                }
                false
            },
        }
    }

    /// What a private handler runs under on the connection `ws_session_id`:
    /// the user session and the scratch store of an authenticated session.
    /// An anonymous session is not authorized; a connection without a
    /// session is not authenticated.
    pub fn is_auth(&self, ws_session_id: u128) -> (payload: Result<UserPayload, Error>)
        ensures
            match payload {
                Ok(p) => is_authenticated(self@, ws_session_id)
                    && p.db_session@ == self@[ws_session_id]->db_session
                    && p.store == self@[ws_session_id]->store,
                Err(e) => if self@.contains_key(ws_session_id) {
                    self@[ws_session_id] is Anonymous && e is NotAuthorized
                } else {
                    e is NotAuthenticated
                },
            },
    {
        match self.ws_sessions.get(&ws_session_id) {
            Some(NitramSession::Authenticated { db_session, topics_registered: _, store }) => Ok(
                UserPayload { db_session: db_session.clone(), store: store.clone() },
            ),
            Some(NitramSession::Anonymous) => Err(Error::NotAuthorized),
            None => Err(Error::NotAuthenticated),
        }
    }
}

/// `rpc_router::Router`: the handlers of one namespace, by method name,
/// with the resources that they share; opaque to the verifier.
#[verifier::external_type_specification]
#[verifier::external_body]
pub struct ExRouter(rpc_router::Router);

/// The method names that a router has a handler for.
pub uninterp spec fn router_routes(router: rpc_router::Router) -> Set<Seq<char>>;

/// `Router::clone`: another handle on the same routes and resources.
pub assume_specification[ <rpc_router::Router as Clone>::clone ](
    router: &rpc_router::Router,
) -> (other: rpc_router::Router)
    ensures
        other == *router,
        router_routes(other) == router_routes(*router),
;

/// The method names that each of the three routers has a handler for.
pub struct Routes {
    pub public: Set<Seq<char>>,
    pub private: Set<Seq<char>>,
    pub server_messages: Set<Seq<char>>,
}

/// The period of the heartbeat where none is chosen, in seconds.
pub const DEFAULT_PING_INTERVAL_IN_SECONDS: u64 = 5;

/// The longest silence that a connection survives where none is chosen, in
/// seconds.
pub const DEFAULT_TIMEOUT_IN_SECONDS: u64 = 10;

/// The largest inbound frame where no size is chosen: 128 KiB.
pub const DEFAULT_MAX_FRAME_SIZE: usize = 131072;

/// The method names of the three namespaces, each in the order of
/// registration.
pub struct Registry {
    pub public: Seq<Seq<char>>,
    pub private: Seq<Seq<char>>,
    pub server_messages: Seq<Seq<char>>,
}

/// A call that is to be made into one of the three routers, with what the
/// handler is given besides the application's resources.
#[allow(inconsistent_fields)]
pub enum RpcCall {
    Public { method: String, params: serde_json::Value, session: WSSessionAnonymResource },
    Private {
        method: String,
        params: serde_json::Value,
        session: WSSessionAuthedResource,
        store: Store,
    },
    ServerMessage {
        topic: String,
        params: serde_json::Value,
        session: WSSessionAuthedResource,
        store: Store,
    },
}

/// The content of an [`RpcCall`].
pub enum RpcCallView {
    Public { method: Seq<char>, params: Json, ws_session_id: u128 },
    Private { method: Seq<char>, params: Json, user_id: Seq<char>, store: Store },
    ServerMessage { topic: Seq<char>, params: Json, user_id: Seq<char>, store: Store },
}

impl View for RpcCall {
    type V = RpcCallView;

    open spec fn view(&self) -> RpcCallView {
        match self {
            RpcCall::Public { method, params, session } => RpcCallView::Public {
                method: method@,
                params: json_model(*params),
                ws_session_id: session.ws_session_id,
            },
            RpcCall::Private { method, params, session, store } => RpcCallView::Private {
                method: method@,
                params: json_model(*params),
                user_id: session.user_id@,
                store: *store,
            },
            RpcCall::ServerMessage { topic, params, session, store } => RpcCallView::ServerMessage {
                topic: topic@,
                params: json_model(*params),
                user_id: session.user_id@,
                store: *store,
            },
        }
    }
}

/// Why a request is refused before any handler runs.
pub enum Refusal {
    MethodNotFound,
    NotAuthorized,
    NotAuthenticated,
}

/// What is to be done with a request.
pub enum Routed {
    /// The result is known without a handler.
    Done(Json),
    /// A handler is to be called.
    Call(RpcCallView),
    /// The request is refused.
    Refused(Refusal),
}

/// Whether `method` is the reserved method that subscribes to a topic.
pub open spec fn is_register(method: Seq<char>) -> bool {
    method == "nitram_topic_register"@
}

/// Whether `method` is the reserved method that unsubscribes from a topic.
pub open spec fn is_deregister(method: Seq<char>) -> bool {
    method == "nitram_topic_deregister"@
}

/// The parameters that a subscription stores: the member `handler_params`
/// of the request's parameters, or the JSON null where there is none.
pub open spec fn handler_params(params: Json) -> Json {
    match params.member("handler_params"@) {
        Some(p) => p,
        None => Json::Null,
    }
}

/// The sessions after a request: only the two reserved methods change them,
/// and only where the parameters name a topic and the session is
/// authenticated.
pub open spec fn sessions_after(sessions: Sessions, id: u128, method: Seq<char>, params: Json) -> Sessions {
    if is_register(method) {
        match params.string_member("topic"@) {
            Some(topic) => subscribed(sessions, id, topic, handler_params(params)),
            None => sessions,
        }
    } else if is_deregister(method) {
        match params.string_member("topic"@) {
            Some(topic) => unsubscribed(sessions, id, topic),
            None => sessions,
        }
    } else {
        sessions
    }
}

/// What is to be done with a request for `method` on the connection `id`.
///
/// A reserved method is answered with `true`, whatever came of the
/// subscription. A public method is called in either session state. A
/// private method is called only under an authenticated session. Any other
/// method is not found; a name in both namespaces counts as public.
pub open spec fn routed(
    registry: Registry,
    sessions: Sessions,
    id: u128,
    method: Seq<char>,
    params: Json,
) -> Routed {
    if is_register(method) || is_deregister(method) {
        Routed::Done(Json::Bool(true))
    } else if registry.public.contains(method) {
        Routed::Call(RpcCallView::Public { method, params, ws_session_id: id })
    } else if registry.private.contains(method) {
        if !sessions.contains_key(id) {
            Routed::Refused(Refusal::NotAuthenticated)
        } else {
            match sessions[id] {
                SessionView::Anonymous => Routed::Refused(Refusal::NotAuthorized),
                SessionView::Authenticated { db_session, store, .. } => Routed::Call(
                    RpcCallView::Private { method, params, user_id: db_session.user_id, store },
                ),
            }
        }
    } else {
        Routed::Refused(Refusal::MethodNotFound)
    }
}

/// The refusal that an error of dispatch stands for, if it is one.
pub open spec fn refusal_of(e: Error) -> Option<Refusal> {
    match e {
        Error::MethodNotFound => Some(Refusal::MethodNotFound),
        Error::NotAuthorized => Some(Refusal::NotAuthorized),
        Error::NotAuthenticated => Some(Refusal::NotAuthenticated),
        _ => None,
    }
}

/// The message for a call that failed in the router or in the handler.
pub open spec fn failure_nice(failure: CallFailure) -> NiceMessage {
    match failure {
        CallFailure::Handler(Some(e)) => e.nice(),
        CallFailure::Handler(None) => NiceMessage::ServerError,
        CallFailure::ParamsParsing => NiceMessage::BadRequest,
        CallFailure::ParamsMissingButRequested => NiceMessage::BadRequest,
        CallFailure::MethodUnknown => NiceMessage::BadRequest,
        CallFailure::FromResources => NiceMessage::ServerError,
        CallFailure::HandlerResultSerialize => NiceMessage::ServerError,
    }
}

/// The message under which an error of dispatch reaches the client.
pub open spec fn error_nice(e: Error) -> NiceMessage {
    match e {
        Error::NotAuthorized => NiceMessage::NotAuthorized,
        Error::NotAuthenticated => NiceMessage::NotAuthenticated,
        Error::MethodNotFound => NiceMessage::BadRequest,
        Error::RpcCallError(call) => failure_nice(call_failure_of(call)),
        _ => NiceMessage::ServerError,
    }
}

/// The message under which a refusal reaches the client.
pub open spec fn refusal_nice(r: Refusal) -> NiceMessage {
    match r {
        Refusal::NotAuthorized => NiceMessage::NotAuthorized,
        Refusal::NotAuthenticated => NiceMessage::NotAuthenticated,
        Refusal::MethodNotFound => NiceMessage::BadRequest,
    }
}

/// The response to the request `id` for `method` that succeeded with
/// `value`.
pub open spec fn success_response(id: Seq<char>, method: Seq<char>, value: Json) -> ResponseView {
    ResponseView { id, method, response: value, ok: true }
}

/// The response to the request `id` for `method` that failed with the
/// message `msg`.
pub open spec fn failure_response(id: Seq<char>, method: Seq<char>, msg: NiceMessage) -> ResponseView {
    ResponseView { id, method, response: Json::String(nice_text(msg, Json::Null)), ok: false }
}

/// The response to the request `id` for `method`, given how it ended.
pub open spec fn response_of(
    id: Seq<char>,
    method: Seq<char>,
    result: Result<serde_json::Value, Error>,
) -> ResponseView {
    match result {
        Ok(value) => success_response(id, method, json_model(value)),
        Err(e) => failure_response(id, method, error_nice(e)),
    }
}

/// The message for a call that failed in the router or in the handler: a
/// handler's own error goes out under its own message, with `NoResponse`
/// and errors of another type counted as server errors; parameters that are
/// missing or do not decode, and a method that the router does not know,
/// are bad requests; anything else is a server error.
pub fn failure_message(failure: CallFailure) -> (msg: NiceMessage)
    ensures
        msg == failure_nice(failure),
{
    match failure {
        CallFailure::Handler(Some(e)) => e.to_nice_message(),
        CallFailure::Handler(None) => NiceMessage::ServerError,
        CallFailure::ParamsParsing => NiceMessage::BadRequest,
        CallFailure::ParamsMissingButRequested => NiceMessage::BadRequest,
        CallFailure::MethodUnknown => NiceMessage::BadRequest,
        CallFailure::FromResources => NiceMessage::ServerError,
        CallFailure::HandlerResultSerialize => NiceMessage::ServerError,
    }
}

/// The message under which an error of dispatch reaches the client.
pub fn error_message(e: &Error) -> (msg: NiceMessage)
    ensures
        msg == error_nice(*e),
{
    match e {
        Error::NotAuthorized => NiceMessage::NotAuthorized,
        Error::NotAuthenticated => NiceMessage::NotAuthenticated,
        Error::MethodNotFound => NiceMessage::BadRequest,
        Error::RpcCallError(call) => failure_message(call_failure(call)),
        _ => NiceMessage::ServerError,
    }
}

/// What [`Nitram::handle`] made of a request.
pub enum Handled {
    /// The result, for a request that needs no handler.
    Value(serde_json::Value),
    /// The call that is to be made.
    Call(RpcCall),
}

/// What [`Nitram::send`] made of a frame.
pub enum SendStep {
    /// The response is ready.
    Reply(NitramResponse),
    /// A handler is to be called; [`Nitram::respond`] makes the response
    /// from the request's `id` and `method` and from what the call returns.
    Invoke { id: String, method: String, call: RpcCall },
}

/// The content of a [`SendStep`].
pub enum SendStepView {
    Reply(ResponseView),
    Invoke { id: Seq<char>, method: Seq<char>, call: RpcCallView },
}

impl View for SendStep {
    type V = SendStepView;

    open spec fn view(&self) -> SendStepView {
        match self {
            SendStep::Reply(r) => SendStepView::Reply(r@),
            SendStep::Invoke { id, method, call } => SendStepView::Invoke {
                id: id@,
                method: method@,
                call: call@,
            },
        }
    }
}

/// The response to a frame that holds no request.
pub open spec fn invalid_message_response() -> ResponseView {
    ResponseView {
        id: "_err"@,
        method: "_err"@,
        response: Json::String("Invalid message, check API"@),
        ok: false,
    }
}

/// What is to be done with a text frame on the connection `id`.
pub open spec fn send_step(registry: Registry, sessions: Sessions, id: u128, frame: Seq<char>) -> SendStepView {
    match request_parsed(frame) {
        None => SendStepView::Reply(invalid_message_response()),
        Some(request) => match routed(registry, sessions, id, request.method, request.params) {
            Routed::Done(value) => SendStepView::Reply(
                success_response(request.id, request.method, value),
            ),
            Routed::Call(call) => SendStepView::Invoke {
                id: request.id,
                method: request.method,
                call,
            },
            Routed::Refused(r) => SendStepView::Reply(
                failure_response(request.id, request.method, refusal_nice(r)),
            ),
        },
    }
}

/// The sessions after a text frame on the connection `id`.
pub open spec fn sessions_after_frame(sessions: Sessions, id: u128, frame: Seq<char>) -> Sessions {
    match request_parsed(frame) {
        None => sessions,
        Some(request) => sessions_after(sessions, id, request.method, request.params),
    }
}

/// The calls that a drain makes for a session that is subscribed to the
/// topics of `table`: one for each name of `names` that the table holds, in
/// the order of `names`, with the parameters stored for it.
pub open spec fn subscribed_calls(
    names: Seq<Seq<char>>,
    table: Map<Seq<char>, Json>,
    user_id: Seq<char>,
    store: Store,
) -> Seq<RpcCallView>
    decreases names.len(),
{
    if names.len() == 0 {
        Seq::empty()
    } else {
        let before = subscribed_calls(names.drop_last(), table, user_id, store);
        if table.contains_key(names.last()) {
            before.push(
                RpcCallView::ServerMessage {
                    topic: names.last(),
                    params: table[names.last()],
                    user_id,
                    store,
                },
            )
        } else {
            before
        }
    }
}

/// The calls that a drain makes on the connection `id`: none unless its
/// session is authenticated.
pub open spec fn drain_calls(registry: Registry, sessions: Sessions, id: u128) -> Seq<RpcCallView> {
    if is_authenticated(sessions, id) {
        subscribed_calls(
            registry.server_messages,
            sessions[id]->topics_registered,
            sessions[id]->db_session.user_id,
            sessions[id]->store,
        )
    } else {
        Seq::empty()
    }
}

/// The contents of a list of calls.
pub open spec fn call_views(calls: Seq<RpcCall>) -> Seq<RpcCallView> {
    calls.map_values(|c: RpcCall| c@)
}

/// The tunables of a connection.
#[derive(Clone, Copy, Debug, PartialEq, Eq, Structural)]
pub struct Tunables {
    /// The period of the outbound loop, in seconds.
    pub ping_interval_in_seconds: u64,
    /// The least time between two drains, in milliseconds; where it is not
    /// set, every tick of the outbound loop drains.
    pub server_messages_interval_in_millis: Option<u64>,
    /// The longest time since the last pong that a connection survives, in
    /// seconds.
    pub timeout_in_seconds: u64,
    /// The largest inbound frame, in bytes.
    pub max_frame_size: usize,
}

/// The tunables that an engine runs with, given what was chosen: a ping
/// every 5 seconds, a timeout of 10 seconds and frames of up to 128 KiB
/// where nothing was.
pub open spec fn tunables_from(
    ping_interval_in_seconds: Option<u64>,
    server_messages_interval_in_millis: Option<u64>,
    timeout_in_seconds: Option<u64>,
    max_frame_size: Option<usize>,
) -> Tunables {
    Tunables {
        ping_interval_in_seconds: match ping_interval_in_seconds {
            Some(seconds) => seconds,
            None => DEFAULT_PING_INTERVAL_IN_SECONDS,
        },
        server_messages_interval_in_millis,
        timeout_in_seconds: match timeout_in_seconds {
            Some(seconds) => seconds,
            None => DEFAULT_TIMEOUT_IN_SECONDS,
        },
        max_frame_size: match max_frame_size {
            Some(size) => size,
            None => DEFAULT_MAX_FRAME_SIZE,
        },
    }
}

/// The engine: the three routers with the names registered in each, the
/// session store that it works on, and the tunables of a connection.
#[derive(Clone)]
pub struct Nitram {
    pub inner: Arc<tokio::sync::Mutex<NitramInner>>,
    rpc_router_public: rpc_router::Router,
    rpc_router_private: rpc_router::Router,
    rpc_router_server_messages: rpc_router::Router,
    registered_public_handlers: Vec<String>,
    registered_private_handlers: Vec<String>,
    registered_server_message_handlers: Vec<String>,
    pub ping_interval_in_seconds: u64,
    pub server_messages_interval_in_millis: Option<u64>,
    pub timeout_in_seconds: u64,
    pub max_frame_size: usize,
}

impl Nitram {
    /// The method names of the three namespaces.
    pub closed spec fn registry(&self) -> Registry {
        Registry {
            public: crate::text::name_views(self.registered_public_handlers@),
            private: crate::text::name_views(self.registered_private_handlers@),
            server_messages: crate::text::name_views(self.registered_server_message_handlers@),
        }
    }

    /// The method names that the three routers have handlers for.
    pub closed spec fn routes(&self) -> Routes {
        Routes {
            public: router_routes(self.rpc_router_public),
            private: router_routes(self.rpc_router_private),
            server_messages: router_routes(self.rpc_router_server_messages),
        }
    }

    /// The tunables of a connection.
    pub closed spec fn tunables(&self) -> Tunables {
        Tunables {
            ping_interval_in_seconds: self.ping_interval_in_seconds,
            server_messages_interval_in_millis: self.server_messages_interval_in_millis,
            timeout_in_seconds: self.timeout_in_seconds,
            max_frame_size: self.max_frame_size,
        }
    }

    /// The session store that the engine works on.
    pub closed spec fn session_store(&self) -> Arc<tokio::sync::Mutex<NitramInner>> {
        self.inner
    }

    /// The engine over the three routers and the names registered in them.
    /// A tunable that is not given takes its default: a ping every 5
    /// seconds, a timeout of 10 seconds, frames of up to 128 KiB.
    pub fn new(
        inner: Arc<tokio::sync::Mutex<NitramInner>>,
        rpc_router_public: rpc_router::Router,
        rpc_router_private: rpc_router::Router,
        rpc_router_server_messages: rpc_router::Router,
        registered_public_handlers: Vec<String>,
        registered_private_handlers: Vec<String>,
        registered_server_message_handlers: Vec<String>,
        ping_interval_in_seconds: Option<u64>,
        server_messages_interval_in_millis: Option<u64>,
        timeout_in_seconds: Option<u64>,
        max_frame_size: Option<usize>,
    ) -> (nitram: Self)
        ensures
            nitram.session_store() == inner,
            nitram.routes() == (Routes {
                public: router_routes(rpc_router_public),
                private: router_routes(rpc_router_private),
                server_messages: router_routes(rpc_router_server_messages),
            }),
            nitram.registry() == (Registry {
                public: crate::text::name_views(registered_public_handlers@),
                private: crate::text::name_views(registered_private_handlers@),
                server_messages: crate::text::name_views(registered_server_message_handlers@),
            }),
            nitram.tunables() == tunables_from(
                ping_interval_in_seconds,
                server_messages_interval_in_millis,
                timeout_in_seconds,
                max_frame_size,
            ),
    {
        Nitram {
            inner,
            rpc_router_public,
            rpc_router_private,
            rpc_router_server_messages,
            registered_public_handlers,
            registered_private_handlers,
            registered_server_message_handlers,
            ping_interval_in_seconds: match ping_interval_in_seconds {
                Some(seconds) => seconds,
                None => DEFAULT_PING_INTERVAL_IN_SECONDS,
            },
            server_messages_interval_in_millis,
            timeout_in_seconds: match timeout_in_seconds {
                Some(seconds) => seconds,
                None => DEFAULT_TIMEOUT_IN_SECONDS,
            },
            max_frame_size: match max_frame_size {
                Some(size) => size,
                None => DEFAULT_MAX_FRAME_SIZE,
            },
        }
    }

    /// The tunables of a connection.
    pub fn settings(&self) -> (tunables: Tunables)
        ensures
            tunables == self.tunables(),
    {
        Tunables {
            ping_interval_in_seconds: self.ping_interval_in_seconds,
            server_messages_interval_in_millis: self.server_messages_interval_in_millis,
            timeout_in_seconds: self.timeout_in_seconds,
            max_frame_size: self.max_frame_size,
        }
    }

    /// The router of the namespace that `call` is for.
    pub fn router(&self, call: &RpcCall) -> (router: &rpc_router::Router)
        ensures
            router_routes(*router) == match call {
                RpcCall::Public { .. } => self.routes().public,
                RpcCall::Private { .. } => self.routes().private,
                RpcCall::ServerMessage { .. } => self.routes().server_messages,
            },
    {
        match call {
            RpcCall::Public { .. } => &self.rpc_router_public,
            RpcCall::Private { .. } => &self.rpc_router_private,
            RpcCall::ServerMessage { .. } => &self.rpc_router_server_messages,
        }
    }

    /// Decides what is to be done with a request for `method` with `params`
    /// on the connection `ws_session_id`, and carries out a subscription or
    /// its end on the session store.
    pub fn handle(
        &self,
        inner: &mut NitramInner,
        ws_session_id: u128,
        method: &str,
        params: serde_json::Value,
    ) -> (handled: Result<Handled, Error>)
        ensures
            final(inner)@ == sessions_after(
                old(inner)@,
                ws_session_id,
                method@,
                json_model(params),
            ),
            match routed(self.registry(), old(inner)@, ws_session_id, method@, json_model(params)) {
                Routed::Done(value) => handled matches Ok(Handled::Value(v)) && json_model(v)
                    == value,
                Routed::Call(call) => handled matches Ok(Handled::Call(c)) && c@ == call,
                Routed::Refused(r) => handled matches Err(e) && refusal_of(e) == Some(r),
            },
    {
        let is_register = str_eq(method, "nitram_topic_register");
        let is_deregister = str_eq(method, "nitram_topic_deregister");
        if is_register || is_deregister {
            match crate::auth::string_field(&params, "topic") {
                Some(topic) => {
                    if is_register {
                        let stored = match json_get(&params, "handler_params") {
                            Some(p) => json_clone(p),
                            None => json_null(),
                        };
                        let _ = inner.subscribe(ws_session_id, topic.as_str(), stored);
                    } else {
                        let _ = inner.unsubscribe(ws_session_id, topic.as_str());
                    }
                },
                None => {},
            }
            return Ok(Handled::Value(json_bool(true)));
        }
        if contains_name(&self.registered_public_handlers, method) {
            Ok(
                Handled::Call(
                    RpcCall::Public {
                        method: method.to_owned(),
                        params,
                        session: WSSessionAnonymResource { ws_session_id },
                    },
                ),
            )
        } else if contains_name(&self.registered_private_handlers, method) {
            match inner.is_auth(ws_session_id) {
                Ok(payload) => Ok(
                    Handled::Call(
                        RpcCall::Private {
                            method: method.to_owned(),
                            params,
                            session: WSSessionAuthedResource {
                                user_id: payload.db_session.user_id,
                            },
                            store: payload.store,
                        },
                    ),
                ),
                Err(e) => Err(e),
            }
        } else {
            Err(Error::MethodNotFound)
        }
    }

    /// The response to the request `id` for `method`, given how it ended:
    /// with a value, or with an error of dispatch or of the call.
    pub fn respond(id: String, method: String, result: Result<serde_json::Value, Error>) -> (response:
        NitramResponse)
        ensures
            response@ == response_of(id@, method@, result),
    {
        match result {
            Ok(value) => NitramResponse { id, method, response: value, ok: true },
            Err(e) => {
                let msg = error_message(&e);
                NitramResponse { id, method, response: Nice::from(msg).into_value(), ok: false }
            },
        }
    }

    /// Takes a text frame from the connection `ws_session_id` and decides
    /// what is to be done with it: the response is ready, or a handler is to
    /// be called first.
    pub fn send(&self, inner: &mut NitramInner, payload: &str, ws_session_id: u128) -> (step:
        SendStep)
        ensures
            final(inner)@ == sessions_after_frame(old(inner)@, ws_session_id, payload@),
            step@ == send_step(self.registry(), old(inner)@, ws_session_id, payload@),
    {
        match NitramRequest::parse(payload) {
            Some(request) => {
                let id = request.id;
                let method = request.method;
                match self.handle(inner, ws_session_id, method.as_str(), request.params) {
                    Ok(Handled::Value(value)) => SendStep::Reply(
                        Self::respond(id, method, Ok(value)),
                    ),
                    Ok(Handled::Call(call)) => SendStep::Invoke { id, method, call },
                    Err(e) => SendStep::Reply(Self::respond(id, method, Err(e))),
                }
            },
            None => SendStep::Reply(NitramResponse::error("Invalid message, check API")),
        }
    }

    /// The calls of a drain on the connection `ws_session_id`: for each
    /// topic handler, in the order of registration, that the session is
    /// subscribed to, a call with the parameters of the subscription.
    pub fn server_message_calls(&self, inner: &NitramInner, ws_session_id: u128) -> (calls: Vec<
        RpcCall,
    >)
        ensures
            call_views(calls@) == drain_calls(self.registry(), inner@, ws_session_id),
    {
        let mut calls: Vec<RpcCall> = Vec::new();
        match inner.lookup(ws_session_id) {
            Some(NitramSession::Authenticated { db_session, topics_registered, store }) => {
                let ghost names = self.registry().server_messages;
                let ghost table = table_models(topics_registered@);
                let mut i: usize = 0;
                proof {
                    assert(names.take(0) =~= Seq::empty());
                    assert(call_views(calls@) =~= Seq::empty());
                }
                while i < self.registered_server_message_handlers.len()
                    invariant
                        i <= self.registered_server_message_handlers@.len(),
                        names == crate::text::name_views(
                            self.registered_server_message_handlers@,
                        ),
                        table == table_models(topics_registered@),
                        call_views(calls@) == subscribed_calls(
                            names.take(i as int),
                            table,
                            db_session.user_id@,
                            *store,
                        ),
                    decreases self.registered_server_message_handlers@.len() - i,
                {
                    let topic = &self.registered_server_message_handlers[i];
                    proof {
                        assert(names.take(i + 1).drop_last() =~= names.take(i as int));
                        assert(names.take(i + 1).last() == topic@);
                    }
                    match topics_registered.get(topic.as_str()) {
                        Some(params) => {
                            let ghost before = calls@;
                            let call = RpcCall::ServerMessage {
                                topic: topic.clone(),
                                params: json_clone(params),
                                session: WSSessionAuthedResource {
                                    user_id: db_session.user_id.clone(),
                                },
                                store: store.clone(),
                            };
                            calls.push(call);
                            proof {
                                assert(call_views(calls@) =~= call_views(before).push(call@));
                            }
                        },
                        None => {},
                    }
                    i += 1;
                }
                proof {
                    assert(names.take(i as int) =~= names);
                }
            },
            _ => {
                proof {
                    assert(call_views(calls@) =~= Seq::empty());
                }
            },
        }
        calls
    }

    /// Adds to `batch` what a topic's handler returned: its payload under
    /// the topic's name. A call that failed adds nothing; that is how a
    /// handler says that it has nothing to push on this tick.
    pub fn record_server_message(
        batch: &mut Vec<NitramServerMessage>,
        topic: String,
        result: Result<serde_json::Value, Error>,
    )
        ensures
            crate::messages::batch_view(final(batch)@) == match result {
                Ok(payload) => crate::messages::batch_view(old(batch)@).push(
                    ServerMessageView { topic: topic@, payload: json_model(payload) },
                ),
                Err(_) => crate::messages::batch_view(old(batch)@),
            },
    {
        match result {
            Ok(payload) => {
                let message = NitramServerMessage { topic, payload };
                batch.push(message);
                proof {
                    assert(crate::messages::batch_view(final(batch)@) =~= crate::messages::batch_view(
                        old(batch)@,
                    ).push(message@));
                }
            },
            Err(_) => {},
        }
    }
}

} // verus!
