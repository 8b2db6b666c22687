//! The frames of the wire protocol.
//!
//! A client sends one request per text frame; the server answers each with
//! one response, and pushes batches of server messages in between. All
//! three are JSON; this module reads requests and writes responses and
//! batches.

use vstd::prelude::*;
use vstd::string::StringExecFns;
use crate::auth::string_field;
use crate::json::{
    json_clone, json_get, json_model, json_parse, json_parsed, json_rendered, json_string,
    json_text, Json,
};

verus! {

/// A request: `{"id": string, "method": string, "params": any}`.
pub struct NitramRequest {
    pub id: String,
    pub method: String,
    pub params: serde_json::Value,
}

/// The content of a [`NitramRequest`].
pub struct RequestView {
    pub id: Seq<char>,
    pub method: Seq<char>,
    pub params: Json,
}

impl View for NitramRequest {
    type V = RequestView;

    open spec fn view(&self) -> RequestView {
        RequestView { id: self.id@, method: self.method@, params: json_model(self.params) }
    }
}

/// The request that a JSON value is, or `None` where it is none: not an
/// object, `id` or `method` missing or not a string, or `params` missing.
pub open spec fn request_of(frame: Json) -> Option<RequestView> {
    match (frame.string_member("id"@), frame.string_member("method"@), frame.member("params"@)) {
        (Some(id), Some(method), Some(params)) => Some(RequestView { id, method, params }),
        _ => None,
    }
}

/// The request that a text frame holds, or `None` where it holds none.
pub open spec fn request_parsed(text: Seq<char>) -> Option<RequestView> {
    match json_parsed(text) {
        Some(frame) => request_of(frame),
        None => None,
    }
}

impl NitramRequest {
    /// Reads a request from a text frame.
    pub fn parse(text: &str) -> (request: Option<NitramRequest>)
        ensures
            match request {
                Some(r) => request_parsed(text@) == Some(r@),
                None => request_parsed(text@) is None,
            },
    {
        let frame = match json_parse(text) {
            Some(frame) => frame,
            None => {
                return None;
            },
        };
        let id = match string_field(&frame, "id") {
            Some(id) => id,
            None => {
                return None;
            },
        };
        let method = match string_field(&frame, "method") {
            Some(method) => method,
            None => {
                return None;
            },
        };
        let params = match json_get(&frame, "params") {
            Some(params) => json_clone(params),
            None => {
                return None;
            },
        };
        Some(NitramRequest { id, method, params })
    }
}

/// A response: the request's `id` and `method`, the result or the error
/// message, and whether the call succeeded.
pub struct NitramResponse {
    pub id: String,
    pub method: String,
    pub response: serde_json::Value,
    pub ok: bool,
}

/// The content of a [`NitramResponse`].
pub struct ResponseView {
    pub id: Seq<char>,
    pub method: Seq<char>,
    pub response: Json,
    pub ok: bool,
}

impl View for NitramResponse {
    type V = ResponseView;

    open spec fn view(&self) -> ResponseView {
        ResponseView {
            id: self.id@,
            method: self.method@,
            response: json_model(self.response),
            ok: self.ok,
        }
    }
}

/// The JSON text of a response.
pub open spec fn response_text(r: ResponseView) -> Seq<char> {
    "{\"id\":"@ + json_rendered(Json::String(r.id)) + ",\"method\":"@ + json_rendered(
        Json::String(r.method),
    ) + ",\"response\":"@ + json_rendered(r.response) + ",\"ok\":"@ + (if r.ok {
        "true"@
    } else {
        "false"@
    }) + "}"@
}

impl NitramResponse {
    /// The response to a frame that is no request: it goes out under the id
    /// and the method `_err`.
    pub fn error(s: &str) -> (r: Self)
        ensures
            r@ == (ResponseView {
                id: "_err"@,
                method: "_err"@,
                response: Json::String(s@),
                ok: false,
            }),
    {
        NitramResponse {
            id: String::from_str("_err"),
            method: String::from_str("_err"),
            response: json_string(String::from_str(s)),
            ok: false,
        }
    }

    /// The JSON text of the response.
    pub fn to_text(&self) -> (text: String)
        ensures
            text@ == response_text(self@),
    {
        let mut text = String::from_str("{\"id\":");
        let id = json_text(&json_string(self.id.clone()));
        text.append(id.as_str());
        text.append(",\"method\":");
        let method = json_text(&json_string(self.method.clone()));
        text.append(method.as_str());
        text.append(",\"response\":");
        let response = json_text(&self.response);
        text.append(response.as_str());
        text.append(",\"ok\":");
        if self.ok {
            text.append("true");
        } else {
            text.append("false");
        }
        text.append("}");
        text
    }
}

/// A message that the server pushes for a topic.
pub struct NitramServerMessage {
    pub topic: String,
    pub payload: serde_json::Value,
}

/// The content of a [`NitramServerMessage`].
pub struct ServerMessageView {
    pub topic: Seq<char>,
    pub payload: Json,
}

impl View for NitramServerMessage {
    type V = ServerMessageView;

    open spec fn view(&self) -> ServerMessageView {
        ServerMessageView { topic: self.topic@, payload: json_model(self.payload) }
    }
}

/// The contents of a batch of server messages.
pub open spec fn batch_view(batch: Seq<NitramServerMessage>) -> Seq<ServerMessageView> {
    batch.map_values(|m: NitramServerMessage| m@)
}

/// The JSON text of one server message.
pub open spec fn server_message_text(m: ServerMessageView) -> Seq<char> {
    "{\"topic\":"@ + json_rendered(Json::String(m.topic)) + ",\"payload\":"@ + json_rendered(
        m.payload,
    ) + "}"@
}

/// The JSON texts of the messages of a batch, with a comma between two.
pub open spec fn server_messages_joined(batch: Seq<ServerMessageView>) -> Seq<char>
    decreases batch.len(),
{
    if batch.len() == 0 {
        Seq::empty()
    } else if batch.len() == 1 {
        server_message_text(batch[0])
    } else {
        server_messages_joined(batch.drop_last()) + ","@ + server_message_text(batch.last())
    }
}

/// The JSON text of a batch: an array of its messages, in their order.
pub open spec fn server_messages_text(batch: Seq<ServerMessageView>) -> Seq<char> {
    "["@ + server_messages_joined(batch) + "]"@
}

impl NitramServerMessage {
    /// The JSON text of the message.
    pub fn to_text(&self) -> (text: String)
        ensures
            text@ == server_message_text(self@),
    {
        let mut text = String::from_str("{\"topic\":");
        let topic = json_text(&json_string(self.topic.clone()));
        text.append(topic.as_str());
        text.append(",\"payload\":");
        let payload = json_text(&self.payload);
        text.append(payload.as_str());
        text.append("}");
        text
    }
}

/// The JSON text of a batch of server messages.
pub fn server_messages_to_text(batch: &Vec<NitramServerMessage>) -> (text: String)
    ensures
        text@ == server_messages_text(batch_view(batch@)),
{
    let mut text = String::from_str("[");
    let ghost views = batch_view(batch@);
    let mut i: usize = 0;
    proof {
        reveal_strlit("[");
        assert(views.take(0) =~= Seq::empty());
        assert(text@ =~= "["@ + server_messages_joined(views.take(0)));
    }
    while i < batch.len()
        invariant
            i <= batch@.len(),
            views == batch_view(batch@),
            views.len() == batch@.len(),
            text@ == "["@ + server_messages_joined(views.take(i as int)),
        decreases batch@.len() - i,
    {
        let ghost before = views.take(i as int);
        let ghost after = views.take(i + 1);
        proof {
            assert(after.drop_last() =~= before);
            assert(after.last() == batch@[i as int]@);
        }
        if i > 0 {
            text.append(",");
        }
        let one = batch[i].to_text();
        text.append(one.as_str());
        proof {
            if i == 0 {
                assert(before =~= Seq::empty());
                assert(after[0] == batch@[0]@);
                assert(text@ =~= "["@ + server_messages_joined(after));
            } else {
                assert(text@ =~= "["@ + server_messages_joined(after));
            }
        }
        i += 1;
    }
    proof {
        assert(views.take(i as int) =~= views);
    }
    text.append("]");
    text
}

} // verus!
