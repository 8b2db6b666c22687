//! What holds of the engine across calls.
//!
//! Each function here is a theorem about the contracts of the session store
//! and of dispatch: it is stated over the same specification functions that
//! those contracts use, and proved.

use vstd::prelude::*;
use crate::auth::SessionView;
use crate::error::Error;
use crate::json::Json;
use crate::messages::{request_parsed, RequestView, ResponseView};
use crate::models::{DBSessionView, Store};
use crate::nice::lemma_nice_texts;
use crate::nitram::{
    authenticated, drain_calls, handler_params, is_authenticated, is_deregister, is_register,
    response_of, routed, send_step, sessions_after, sessions_after_frame, subscribed,
    subscribed_calls, unsubscribed, Registry, RpcCallView, SendStepView, Sessions,
};

verus! {

/// One operation on the session store.
pub enum StoreOp {
    /// A connection is accepted under an id.
    Open(u128),
    /// A connection is closed.
    Close(u128),
    /// A connection is authenticated; the store is the new session's.
    Authenticate(u128, DBSessionView, Store),
    /// A text frame arrives on a connection.
    Frame(u128, Seq<char>),
}

/// The sessions after an operation.
pub open spec fn apply(sessions: Sessions, op: StoreOp) -> Sessions {
    match op {
        StoreOp::Open(id) => sessions.insert(id, SessionView::Anonymous),
        StoreOp::Close(id) => sessions.remove(id),
        StoreOp::Authenticate(id, db_session, store) => authenticated(
            sessions,
            id,
            db_session,
            store,
        ),
        StoreOp::Frame(id, frame) => sessions_after_frame(sessions, id, frame),
    }
}

/// The sessions after a sequence of operations.
pub open spec fn apply_all(sessions: Sessions, ops: Seq<StoreOp>) -> Sessions
    decreases ops.len(),
{
    if ops.len() == 0 {
        sessions
    } else {
        apply(apply_all(sessions, ops.drop_last()), ops.last())
    }
}

/// No operation but the closing of a connection takes its session away, and
/// none but its opening gives it one.
pub proof fn lemma_only_open_and_close_change_presence(sessions: Sessions, op: StoreOp, id: u128)
    ensures
        op != StoreOp::Close(id) && sessions.contains_key(id) ==> apply(sessions, op).contains_key(
            id,
        ),
        op != StoreOp::Open(id) && !sessions.contains_key(id) ==> !apply(
            sessions,
            op,
        ).contains_key(id),
{
    match op {
        StoreOp::Frame(on, frame) => {
            lemma_frame_keeps_presence(sessions, on, frame, id);
        },
        _ => {},
    }
}

/// A frame neither adds a session nor takes one away.
pub proof fn lemma_frame_keeps_presence(sessions: Sessions, on: u128, frame: Seq<char>, id: u128)
    ensures
        sessions_after_frame(sessions, on, frame).contains_key(id) == sessions.contains_key(id),
{
}

/// A connection has a session from the moment it is accepted until it is
/// closed, whatever else happens on it or on other connections; a map holds
/// one entry per id, so it is exactly one.
pub proof fn lemma_session_lives_until_close(sessions: Sessions, id: u128, ops: Seq<StoreOp>)
    requires
        forall|i: int| 0 <= i < ops.len() ==> #[trigger] ops[i] != StoreOp::Close(id),
    ensures
        apply_all(apply(sessions, StoreOp::Open(id)), ops).contains_key(id),
    decreases ops.len(),
{
    if ops.len() > 0 {
        lemma_session_lives_until_close(sessions, id, ops.drop_last());
        assert(ops.last() == ops[ops.len() - 1]);
        lemma_only_open_and_close_change_presence(
            apply_all(apply(sessions, StoreOp::Open(id)), ops.drop_last()),
            ops.last(),
            id,
        );
    }
}

/// Once a connection is closed it has no session, and it has none until it
/// is opened again.
pub proof fn lemma_no_session_after_close(sessions: Sessions, id: u128, ops: Seq<StoreOp>)
    requires
        forall|i: int| 0 <= i < ops.len() ==> #[trigger] ops[i] != StoreOp::Open(id),
    ensures
        !apply_all(apply(sessions, StoreOp::Close(id)), ops).contains_key(id),
    decreases ops.len(),
{
    if ops.len() > 0 {
        lemma_no_session_after_close(sessions, id, ops.drop_last());
        assert(ops.last() == ops[ops.len() - 1]);
        lemma_only_open_and_close_change_presence(
            apply_all(apply(sessions, StoreOp::Close(id)), ops.drop_last()),
            ops.last(),
            id,
        );
    }
}

/// The response that a frame gets in the end: the one that is ready, or
/// the one that follows from how the call ended.
pub open spec fn final_response(step: SendStepView, result: Result<serde_json::Value, Error>) -> ResponseView {
    match step {
        SendStepView::Reply(response) => response,
        SendStepView::Invoke { id, method, .. } => response_of(id, method, result),
    }
}

/// The response to a request carries the request's `id` and `method`,
/// however the request is routed and however the call ends; the response to
/// a frame that holds no request carries `_err` for both.
pub proof fn lemma_response_echoes_request(
    registry: Registry,
    sessions: Sessions,
    id: u128,
    frame: Seq<char>,
    result: Result<serde_json::Value, Error>,
)
    ensures
        match request_parsed(frame) {
            Some(request) => {
                &&& final_response(send_step(registry, sessions, id, frame), result).id
                    == request.id
                &&& final_response(send_step(registry, sessions, id, frame), result).method
                    == request.method
            },
            None => {
                &&& final_response(send_step(registry, sessions, id, frame), result).id == "_err"@
                &&& final_response(send_step(registry, sessions, id, frame), result).method
                    == "_err"@
                &&& !final_response(send_step(registry, sessions, id, frame), result).ok
            },
        },
{
}

/// Whether `method` is private: registered as private, not as public, and
/// not reserved.
pub open spec fn is_private(registry: Registry, method: Seq<char>) -> bool {
    &&& registry.private.contains(method)
    &&& !registry.public.contains(method)
    &&& !is_register(method)
    &&& !is_deregister(method)
}

/// A request for a private method under an anonymous session is answered
/// with `(~ not authorized ~)` and `ok: false`, and no handler is called.
pub proof fn lemma_private_under_anonymous_is_not_authorized(
    registry: Registry,
    sessions: Sessions,
    id: u128,
    frame: Seq<char>,
    request: RequestView,
)
    requires
        request_parsed(frame) == Some(request),
        is_private(registry, request.method),
        sessions.contains_key(id),
        sessions[id] is Anonymous,
    ensures
        send_step(registry, sessions, id, frame) == SendStepView::Reply(
            ResponseView {
                id: request.id,
                method: request.method,
                response: Json::String("(~ not authorized ~)"@),
                ok: false,
            },
        ),
        sessions_after_frame(sessions, id, frame) == sessions,
{
    lemma_nice_texts();
}

/// A request for a private method on a connection without a session is
/// answered with `(~ not authenticated ~)` and `ok: false`, and no handler is
/// called.
pub proof fn lemma_private_without_session_is_not_authenticated(
    registry: Registry,
    sessions: Sessions,
    id: u128,
    frame: Seq<char>,
    request: RequestView,
)
    requires
        request_parsed(frame) == Some(request),
        is_private(registry, request.method),
        !sessions.contains_key(id),
    ensures
        send_step(registry, sessions, id, frame) == SendStepView::Reply(
            ResponseView {
                id: request.id,
                method: request.method,
                response: Json::String("(~ not authenticated ~)"@),
                ok: false,
            },
        ),
        sessions_after_frame(sessions, id, frame) == sessions,
{
    lemma_nice_texts();
}

/// Whether `call` is a drain's call for `topic`.
pub open spec fn is_call_for_topic(call: RpcCallView, topic: Seq<char>) -> bool {
    match call {
        RpcCallView::ServerMessage { topic: t, .. } => t == topic,
        _ => false,
    }
}

/// Whether a list of calls has one for `topic`.
pub open spec fn calls_topic(calls: Seq<RpcCallView>, topic: Seq<char>) -> bool {
    exists|i: int| 0 <= i < calls.len() && is_call_for_topic(#[trigger] calls[i], topic)
}

/// Whether `call` is the call that a drain makes for one of the
/// subscriptions of `table`: for a topic of `names` that the table holds,
/// with the parameters stored for it, the user and the store.
pub open spec fn is_subscription_call(
    call: RpcCallView,
    names: Seq<Seq<char>>,
    table: Map<Seq<char>, Json>,
    user_id: Seq<char>,
    store: Store,
) -> bool {
    match call {
        RpcCallView::ServerMessage { topic, params, user_id: u, store: s } => {
            &&& names.contains(topic)
            &&& table.contains_key(topic)
            &&& params == table[topic]
            &&& u == user_id
            &&& s == store
        },
        _ => false,
    }
}

/// The scratch store that a call hands to its handler, if it hands one.
pub open spec fn call_store(call: RpcCallView) -> Option<Store> {
    match call {
        RpcCallView::Public { .. } => None,
        RpcCallView::Private { store, .. } => Some(store),
        RpcCallView::ServerMessage { store, .. } => Some(store),
    }
}

/// The call that a step asks for, if it asks for one.
pub open spec fn step_call(step: SendStepView) -> Option<RpcCallView> {
    match step {
        SendStepView::Reply(_) => None,
        SendStepView::Invoke { call, .. } => Some(call),
    }
}

/// The calls of a drain are for exactly the registered topics that the
/// session is subscribed to, each with the parameters of the subscription,
/// the session's user and the session's store.
pub proof fn lemma_subscribed_calls(
    names: Seq<Seq<char>>,
    table: Map<Seq<char>, Json>,
    user_id: Seq<char>,
    store: Store,
    topic: Seq<char>,
)
    ensures
        names.contains(topic) && table.contains_key(topic) <==> subscribed_calls(
            names,
            table,
            user_id,
            store,
        ).contains(
            RpcCallView::ServerMessage { topic, params: table[topic], user_id, store },
        ),
        calls_topic(subscribed_calls(names, table, user_id, store), topic) <==> names.contains(
            topic,
        ) && table.contains_key(topic),
        forall|i: int|
            0 <= i < subscribed_calls(names, table, user_id, store).len()
                ==> is_subscription_call(
                #[trigger] subscribed_calls(names, table, user_id, store)[i],
                names,
                table,
                user_id,
                store,
            ),
    decreases names.len(),
{
    let calls = subscribed_calls(names, table, user_id, store);
    let wanted = RpcCallView::ServerMessage { topic, params: table[topic], user_id, store };
    if names.len() == 0 {
        assert(!names.contains(topic));
        assert(!calls.contains(wanted));
    } else {
        let shorter = names.drop_last();
        let before = subscribed_calls(shorter, table, user_id, store);
        lemma_subscribed_calls(shorter, table, user_id, store, topic);
        assert(names.contains(topic) <==> shorter.contains(topic) || names.last() == topic) by {
            if names.contains(topic) {
                let i = choose|i: int| 0 <= i < names.len() && names[i] == topic;
                if i < names.len() - 1 {
                    assert(shorter[i] == topic);
                }
            }
            if shorter.contains(topic) {
                let i = choose|i: int| 0 <= i < shorter.len() && shorter[i] == topic;
                assert(names[i] == topic);
            }
            if names.last() == topic {
                assert(names[names.len() - 1] == topic);
            }
        }
        assert forall|t: Seq<char>| shorter.contains(t) implies names.contains(t) by {
            let i = choose|i: int| 0 <= i < shorter.len() && shorter[i] == t;
            assert(names[i] == t);
        }
        assert(names.contains(names.last())) by {
            assert(names[names.len() - 1] == names.last());
        }
        if table.contains_key(names.last()) {
            let added = RpcCallView::ServerMessage {
                topic: names.last(),
                params: table[names.last()],
                user_id,
                store,
            };
            assert(calls == before.push(added));
            assert(calls.contains(wanted) <==> before.contains(wanted) || added == wanted) by {
                if calls.contains(wanted) {
                    let i = choose|i: int| 0 <= i < calls.len() && calls[i] == wanted;
                    if i < before.len() {
                        assert(before[i] == wanted);
                    }
                }
                if before.contains(wanted) {
                    let i = choose|i: int| 0 <= i < before.len() && before[i] == wanted;
                    assert(calls[i] == wanted);
                }
                if added == wanted {
                    assert(calls[calls.len() - 1] == wanted);
                }
            }
            assert(calls_topic(calls, topic) <==> calls_topic(before, topic) || names.last()
                == topic) by {
                if calls_topic(calls, topic) {
                    let i = choose|i: int|
                        0 <= i < calls.len() && is_call_for_topic(#[trigger] calls[i], topic);
                    if i < before.len() {
                        assert(before[i] == calls[i]);
                    }
                }
                if calls_topic(before, topic) {
                    let i = choose|i: int|
                        0 <= i < before.len() && is_call_for_topic(#[trigger] before[i], topic);
                    assert(calls[i] == before[i]);
                }
                if names.last() == topic {
                    assert(calls[calls.len() - 1] == added);
                }
            }
            assert forall|i: int| 0 <= i < calls.len() implies is_subscription_call(
                #[trigger] calls[i],
                names,
                table,
                user_id,
                store,
            ) by {
                if i < before.len() {
                    assert(calls[i] == before[i]);
                    assert(is_subscription_call(before[i], shorter, table, user_id, store));
                }
            }
        } else {
            assert(calls == before);
            assert forall|i: int| 0 <= i < calls.len() implies is_subscription_call(
                #[trigger] calls[i],
                names,
                table,
                user_id,
                store,
            ) by {
                assert(is_subscription_call(before[i], shorter, table, user_id, store));
            }
        }
    }
}

/// After a subscription, a drain calls the topic's handler with the
/// parameters that were registered; after the subscription has ended, it
/// does not call it.
///
/// The session is authenticated and the topic has a handler. The first
/// frame is a request for `nitram_topic_register` that names the topic; the
/// second, later, is one for `nitram_topic_deregister`.
pub proof fn lemma_register_then_drain(
    registry: Registry,
    sessions: Sessions,
    id: u128,
    topic: Seq<char>,
    register: RequestView,
    deregister: RequestView,
)
    requires
        is_authenticated(sessions, id),
        registry.server_messages.contains(topic),
        is_register(register.method),
        register.params.string_member("topic"@) == Some(topic),
        is_deregister(deregister.method),
        deregister.params.string_member("topic"@) == Some(topic),
    ensures
        ({
            let registered = sessions_after(sessions, id, register.method, register.params);
            let deregistered = sessions_after(
                registered,
                id,
                deregister.method,
                deregister.params,
            );
            &&& drain_calls(registry, registered, id).contains(
                RpcCallView::ServerMessage {
                    topic,
                    params: handler_params(register.params),
                    user_id: sessions[id]->db_session.user_id,
                    store: sessions[id]->store,
                },
            )
            &&& !calls_topic(drain_calls(registry, deregistered, id), topic)
        }),
{
    reveal_strlit("nitram_topic_register");
    reveal_strlit("nitram_topic_deregister");
    let registered = sessions_after(sessions, id, register.method, register.params);
    let deregistered = sessions_after(registered, id, deregister.method, deregister.params);
    assert(registered == subscribed(sessions, id, topic, handler_params(register.params)));
    assert(!is_register(deregister.method)) by {
        assert("nitram_topic_register"@.len() != "nitram_topic_deregister"@.len());
    }
    assert(deregistered == unsubscribed(registered, id, topic));
    lemma_subscribed_calls(
        registry.server_messages,
        registered[id]->topics_registered,
        sessions[id]->db_session.user_id,
        sessions[id]->store,
        topic,
    );
    lemma_subscribed_calls(
        registry.server_messages,
        deregistered[id]->topics_registered,
        sessions[id]->db_session.user_id,
        sessions[id]->store,
        topic,
    );
}

/// A session keeps its scratch store: no frame, on whatever connection,
/// changes the store of an authenticated session, and every call that is
/// made under the session, for a request or in a drain, is handed that
/// store. What one handler writes to it is therefore what the next one
/// reads, by the contract of the store's table.
pub proof fn lemma_session_keeps_its_store(
    registry: Registry,
    sessions: Sessions,
    id: u128,
    on: u128,
    frame: Seq<char>,
)
    requires
        is_authenticated(sessions, id),
    ensures
        is_authenticated(sessions_after_frame(sessions, on, frame), id),
        sessions_after_frame(sessions, on, frame)[id]->store == sessions[id]->store,
        sessions_after_frame(sessions, on, frame)[id]->db_session == sessions[id]->db_session,
        match step_call(send_step(registry, sessions, id, frame)) {
            Some(call) => call_store(call) is Some ==> call_store(call) == Some(
                sessions[id]->store,
            ),
            None => true,
        },
        forall|i: int|
            0 <= i < drain_calls(registry, sessions, id).len() ==> call_store(
                #[trigger] drain_calls(registry, sessions, id)[i],
            ) == Some(sessions[id]->store),
{
    lemma_subscribed_calls(
        registry.server_messages,
        sessions[id]->topics_registered,
        sessions[id]->db_session.user_id,
        sessions[id]->store,
        Seq::empty(),
    );
}

} // verus!
