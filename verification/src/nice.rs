//! The error strings that clients see.
//!
//! Every failure reaches the wire as one of five stable messages, written
//! `(~ message ~)`, or `(~ message ~~ data ~)` where a JSON value comes with it.

use vstd::prelude::*;
use vstd::string::StringExecFns;
use vstd::std_specs::convert::FromSpecImpl;
use crate::json::{json_is_null, json_model, json_rendered, json_string, json_text, Json};

verus! {

/// The vocabulary of error messages.
#[derive(Clone, Copy, Debug, PartialEq, Eq, Structural)]
pub enum NiceMessage {
    ServerError,
    NotFound,
    NotAuthorized,
    NotAuthenticated,
    BadRequest,
}

impl NiceMessage {
    /// The words of the message.
    pub open spec fn text(self) -> Seq<char> {
        match self {
            NiceMessage::ServerError => "server error"@,
            NiceMessage::NotFound => "not found"@,
            NiceMessage::NotAuthorized => "not authorized"@,
            NiceMessage::NotAuthenticated => "not authenticated"@,
            NiceMessage::BadRequest => "bad request"@,
        }
    }

    /// The words of the message.
    pub fn to_string(&self) -> (s: String)
        ensures
            s@ == self.text(),
    {
        match self {
            NiceMessage::ServerError => String::from_str("server error"),
            NiceMessage::NotFound => String::from_str("not found"),
            NiceMessage::NotAuthorized => String::from_str("not authorized"),
            NiceMessage::NotAuthenticated => String::from_str("not authenticated"),
            NiceMessage::BadRequest => String::from_str("bad request"),
        }
    }
}

/// The text of a message with its data: the data is left out where it is the
/// JSON null.
pub open spec fn nice_text(msg: NiceMessage, data: Json) -> Seq<char> {
    if data == Json::Null {
        "(~ "@ + msg.text() + " ~)"@
    } else {
        "(~ "@ + msg.text() + " ~~ "@ + json_rendered(data) + " ~)"@
    }
}

/// A message, with or without data.
pub struct Nice {
    msg: NiceMessage,
    data: Option<serde_json::Value>,
}

impl Nice {
    /// The message.
    pub closed spec fn message(&self) -> NiceMessage {
        self.msg
    }

    /// The data that comes with the message; the JSON null where none does.
    pub closed spec fn data(&self) -> Json {
        match self.data {
            Some(value) => json_model(value),
            None => Json::Null,
        }
    }

    /// The text of the message.
    pub open spec fn text(&self) -> Seq<char> {
        nice_text(self.message(), self.data())
    }

    /// A message with data.
    pub fn with_data(msg: NiceMessage, data: serde_json::Value) -> (nice: Self)
        ensures
            nice.message() == msg,
            nice.data() == json_model(data),
    {
        Nice { msg, data: Some(data) }
    }

    /// The text of the message.
    pub fn to_string(&self) -> (s: String)
        ensures
            s@ == self.text(),
    {
        let mut s = String::from_str("(~ ");
        let words = self.msg.to_string();
        s.append(words.as_str());
        match &self.data {
            Some(value) => {
                if !json_is_null(value) {
                    s.append(" ~~ ");
                    let rendered = json_text(value);
                    s.append(rendered.as_str());
                }
            },
            None => {},
        }
        s.append(" ~)");
        s
    }

    /// The text of the message as a JSON string.
    pub fn into_value(self) -> (v: serde_json::Value)
        ensures
            json_model(v) == Json::String(self.text()),
    {
        json_string(self.to_string())
    }
}

impl From<NiceMessage> for Nice {
    fn from(msg: NiceMessage) -> (nice: Self)
        ensures
            nice.message() == msg,
            nice.data() == Json::Null,
    {
        Nice { msg, data: None }
    }
}

impl FromSpecImpl<NiceMessage> for Nice {
    open spec fn obeys_from_spec() -> bool {
        true
    }

    closed spec fn from_spec(msg: NiceMessage) -> Self {
        Nice { msg, data: None }
    }
}

/// The five messages, without data, as they are written.
pub proof fn lemma_nice_texts()
    ensures
        nice_text(NiceMessage::ServerError, Json::Null) == "(~ server error ~)"@,
        nice_text(NiceMessage::NotFound, Json::Null) == "(~ not found ~)"@,
        nice_text(NiceMessage::NotAuthorized, Json::Null) == "(~ not authorized ~)"@,
        nice_text(NiceMessage::NotAuthenticated, Json::Null) == "(~ not authenticated ~)"@,
        nice_text(NiceMessage::BadRequest, Json::Null) == "(~ bad request ~)"@,
{
    reveal_strlit("(~ ");
    reveal_strlit(" ~)");
    reveal_strlit("server error");
    reveal_strlit("not found");
    reveal_strlit("not authorized");
    reveal_strlit("not authenticated");
    reveal_strlit("bad request");
    reveal_strlit("(~ server error ~)");
    reveal_strlit("(~ not found ~)");
    reveal_strlit("(~ not authorized ~)");
    reveal_strlit("(~ not authenticated ~)");
    reveal_strlit("(~ bad request ~)");
    assert(nice_text(NiceMessage::ServerError, Json::Null) =~= "(~ server error ~)"@);
    assert(nice_text(NiceMessage::NotFound, Json::Null) =~= "(~ not found ~)"@);
    assert(nice_text(NiceMessage::NotAuthorized, Json::Null) =~= "(~ not authorized ~)"@);
    assert(nice_text(NiceMessage::NotAuthenticated, Json::Null) =~= "(~ not authenticated ~)"@);
    assert(nice_text(NiceMessage::BadRequest, Json::Null) =~= "(~ bad request ~)"@);
}

} // verus!
