//! Sessions and session tokens.
//!
//! A connection's session is anonymous until it is authenticated; from then
//! on it carries the user session, the topics that the client subscribed to
//! and a scratch store. A session token is the JSON object
//! `{"expires_at": .., "db_session_id": .., "user_id": ..}` in standard
//! base64; it is not signed, and whether it has expired is for the caller to
//! enforce.

use vstd::prelude::*;
use vstd::string::StringExecFns;
use crate::error::Error;
use crate::json::{
    json_as_str, json_get, json_parse_bytes, json_parsed_bytes, json_rendered, json_string,
    json_text, Json,
};
use crate::models::{
    clock_now, rfc3339_parse, rfc3339_parsed, rfc3339_render, rfc3339_rendered, AuthStrategy,
    DBSession, DBSessionId, DBSessionView, ParsedToken, ParsedTokenView, Store, Timestamp,
};
use crate::table::JsonTable;

verus! {

/// What a public handler learns of the session: the id of its connection.
#[derive(Clone, Copy, Debug, PartialEq, Eq, Structural)]
pub struct WSSessionAnonymResource {
    pub ws_session_id: u128,
}

impl rpc_router::FromResources for WSSessionAnonymResource {}

/// What a private handler learns of the session: the user behind it.
pub struct WSSessionAuthedResource {
    pub user_id: String,
}

impl rpc_router::FromResources for WSSessionAuthedResource {}

impl Clone for WSSessionAuthedResource {
    fn clone(&self) -> (other: Self)
        ensures
            other.user_id@ == self.user_id@,
    {
        WSSessionAuthedResource { user_id: self.user_id.clone() }
    }
}

/// The parameters of a method that authenticates a connection by a token.
pub struct AuthenticateParams {
    pub token: String,
}

/// The session of a connection.
pub enum NitramSession {
    Anonymous,
    Authenticated { db_session: DBSession, topics_registered: JsonTable, store: Store },
}

/// The content of a [`NitramSession`].
pub enum SessionView {
    Anonymous,
    Authenticated {
        db_session: DBSessionView,
        topics_registered: Map<Seq<char>, Json>,
        store: Store,
    },
}

/// The JSON that each value of a table holds.
pub open spec fn table_models(table: Map<Seq<char>, serde_json::Value>) -> Map<Seq<char>, Json> {
    table.map_values(|v: serde_json::Value| crate::json::json_model(v))
}

impl View for NitramSession {
    type V = SessionView;

    open spec fn view(&self) -> SessionView {
        match self {
            NitramSession::Anonymous => SessionView::Anonymous,
            NitramSession::Authenticated { db_session, topics_registered, store } => {
                SessionView::Authenticated {
                    db_session: db_session@,
                    topics_registered: table_models(topics_registered@),
                    store: *store,
                }
            },
        }
    }
}

impl NitramSession {
    /// The session of a connection that has just been authenticated: no
    /// topic is subscribed, and the scratch store is new.
    pub fn new(db_session: DBSession) -> (session: Self)
        ensures
            session@ matches SessionView::Authenticated { db_session: d, topics_registered: t, .. }
                && d == db_session@ && t == Map::<Seq<char>, Json>::empty(),
    {
        let session = NitramSession::Authenticated {
            db_session,
            topics_registered: JsonTable::new(),
            store: Store::new(),
        };
        proof {
            assert(table_models(Map::<Seq<char>, serde_json::Value>::empty()) =~= Map::<
                Seq<char>,
                Json,
            >::empty());
        }
        session
    }
}

/// The standard base64 text, with padding, of the UTF-8 bytes of a text.
pub uninterp spec fn base64_encoded(text: Seq<char>) -> Seq<char>;

/// The bytes that a standard base64 text with padding stands for, or `None`
/// where the text is not such base64.
pub uninterp spec fn base64_decoded(text: Seq<char>) -> Option<Seq<u8>>;

/// `BASE64_STANDARD.encode`, on the bytes of `text`.
#[verifier::external_body]
pub(crate) fn base64_encode(text: &str) -> (encoded: String)
    ensures
        encoded@ == base64_encoded(text@),
{
    base64::Engine::encode(&base64::prelude::BASE64_STANDARD, text)
}

/// `BASE64_STANDARD.decode`, on the bytes of `text`, with the error dropped.
#[verifier::external_body]
pub(crate) fn base64_decode(text: &str) -> (decoded: Option<Vec<u8>>)
    ensures
        match decoded {
            Some(bytes) => base64_decoded(text@) == Some(bytes@),
            None => base64_decoded(text@) is None,
        },
{
    base64::Engine::decode(&base64::prelude::BASE64_STANDARD, text.as_bytes()).ok()
}

/// `Uuid::new_v4`: a random 128-bit id. Nothing is claimed of the value.
#[verifier::external_body]
pub(crate) fn new_uuid() -> (id: u128) {
    uuid::Uuid::new_v4().as_u128()
}

/// For how long a token holds: seven days, in seconds.
pub const TOKEN_LIFETIME_SECONDS: i64 = 604800;

/// The JSON text of a token's content.
pub open spec fn token_json(expires_at: Seq<char>, db_session_id: Seq<char>, user_id: Seq<char>) -> Seq<
    char,
> {
    "{\"expires_at\":"@ + json_rendered(Json::String(expires_at)) + ",\"db_session_id\":"@
        + json_rendered(Json::String(db_session_id)) + ",\"user_id\":"@ + json_rendered(
        Json::String(user_id),
    ) + "}"@
}

/// The token for a user session that is made at `now` under the id
/// `db_session_id`: the id, the time of expiry and the token's text, or
/// `None` where the time of expiry cannot be written.
pub open spec fn token_made(user_id: Seq<char>, db_session_id: Seq<char>, now: Timestamp) -> Option<
    (Seq<char>, Timestamp, Seq<char>),
> {
    match now.later(TOKEN_LIFETIME_SECONDS as int) {
        Some(expires_at) => match rfc3339_rendered(
            expires_at.secs as int,
            expires_at.nanos as int,
        ) {
            Some(text) => Some(
                (
                    db_session_id,
                    expires_at,
                    base64_encoded(token_json(text, db_session_id, user_id)),
                ),
            ),
            None => None,
        },
        None => None,
    }
}

/// What a token's text holds, or `None` where it is no token: not base64,
/// not JSON, or without one of the three fields.
pub open spec fn token_parsed(token: Seq<char>) -> Option<ParsedTokenView> {
    match base64_decoded(token) {
        Some(bytes) => match json_parsed_bytes(bytes) {
            Some(content) => match (
                content.string_member("expires_at"@),
                content.string_member("db_session_id"@),
                content.string_member("user_id"@),
            ) {
                (Some(expires_at), Some(db_session_id), Some(user_id)) => match rfc3339_parsed(
                    expires_at,
                ) {
                    Some(at) => Some(ParsedTokenView { expires_at: at, db_session_id, user_id }),
                    None => None,
                },
                _ => None,
            },
            None => None,
        },
        None => None,
    }
}

/// Makes the token of a user session from the id and the time that it is
/// given.
pub fn generate_token_at(
    user_id: &str,
    strategy: &AuthStrategy,
    db_session_id: DBSessionId,
    now: Timestamp,
) -> (made: Result<(DBSessionId, Timestamp, String), Error>)
    ensures
        match made {
            Ok((id, expires_at, token)) => token_made(user_id@, db_session_id@, now) == Some(
                (id@, expires_at, token@),
            ),
            Err(e) => e is TokenError && token_made(user_id@, db_session_id@, now) is None,
        },
{
    let expires_at = match now.plus_seconds(TOKEN_LIFETIME_SECONDS) {
        Some(at) => at,
        None => {
            return Err(Error::TokenError(String::from_str("the time of expiry is out of range")));
        },
    };
    let expires_text = match rfc3339_render(expires_at) {
        Some(text) => text,
        None => {
            return Err(Error::TokenError(String::from_str("the time of expiry is out of range")));
        },
    };
    let content = match strategy {
        AuthStrategy::EmailLink => {
            let mut content = String::from_str("{\"expires_at\":");
            let expires_json = json_text(&json_string(expires_text));
            content.append(expires_json.as_str());
            content.append(",\"db_session_id\":");
            let id_json = json_text(&json_string(db_session_id.clone()));
            content.append(id_json.as_str());
            content.append(",\"user_id\":");
            let user_json = json_text(&json_string(String::from_str(user_id)));
            content.append(user_json.as_str());
            content.append("}");
            content
        },
    };
    let token = base64_encode(content.as_str());
    Ok((db_session_id, expires_at, token))
}

/// The token for a user session that is made at `now` under the id that is
/// the hyphenated text of `number`.
pub open spec fn token_generated(user_id: Seq<char>, number: u128, now: Timestamp) -> Option<
    (Seq<char>, Timestamp, Seq<char>),
> {
    token_made(user_id, crate::text::hyphenated_text(number), now)
}

/// Makes a user session's id, its time of expiry, seven days from now, and
/// its token.
///
/// The id is the hyphenated text of a random 128-bit number and the time is
/// the wall clock's, so two calls differ; whatever the two are, the result
/// is what [`generate_token_at`] makes of them, and it fails only where the
/// time of expiry cannot be written.
pub fn generate_token(user_id: &str, strategy: &AuthStrategy) -> (made: Result<
    (DBSessionId, Timestamp, String),
    Error,
>)
    ensures
        match made {
            Ok((id, expires_at, token)) => exists|number: u128, now: Timestamp|
                #[trigger] token_generated(user_id@, number, now) == Some(
                    (id@, expires_at, token@),
                ),
            Err(e) => e is TokenError && exists|number: u128, now: Timestamp|
                #[trigger] token_generated(user_id@, number, now) is None,
        },
{
    let number = new_uuid();
    let id = crate::text::hyphenated(number);
    let now = clock_now();
    let made = generate_token_at(user_id, strategy, id, now);
    proof {
        if made is Ok {
            let triple = made->Ok_0;
            assert(token_generated(user_id@, number, now) == Some(
                (triple.0@, triple.1, triple.2@),
            ));
        } else {
            assert(token_generated(user_id@, number, now) is None);
        }
    }
    made
}

/// Reads a token.
pub fn parse_token(token: &str) -> (parsed: Result<ParsedToken, Error>)
    ensures
        match parsed {
            Ok(content) => token_parsed(token@) == Some(content@),
            Err(e) => e is TokenError && token_parsed(token@) is None,
        },
{
    let bytes = match base64_decode(token) {
        Some(bytes) => bytes,
        None => {
            return Err(Error::TokenError(String::from_str("the token is not base64")));
        },
    };
    let content = match json_parse_bytes(bytes.as_slice()) {
        Some(content) => content,
        None => {
            return Err(Error::TokenError(String::from_str("the token is not JSON")));
        },
    };
    let expires_at = match string_field(&content, "expires_at") {
        Some(text) => match rfc3339_parse(text.as_str()) {
            Some(at) => at,
            None => {
                return Err(Error::TokenError(String::from_str("expires_at is not a time")));
            },
        },
        None => {
            return Err(Error::TokenError(String::from_str("missing field expires_at")));
        },
    };
    let db_session_id = match string_field(&content, "db_session_id") {
        Some(text) => text,
        None => {
            return Err(Error::TokenError(String::from_str("missing field db_session_id")));
        },
    };
    let user_id = match string_field(&content, "user_id") {
        Some(text) => text,
        None => {
            return Err(Error::TokenError(String::from_str("missing field user_id")));
        },
    };
    Ok(ParsedToken { expires_at, db_session_id, user_id })
}

/// The member `key` of a JSON object as a string, if it is there and is one.
pub fn string_field(value: &serde_json::Value, key: &str) -> (field: Option<String>)
    ensures
        match field {
            Some(text) => crate::json::json_model(*value).string_member(key@) == Some(text@),
            None => crate::json::json_model(*value).string_member(key@) is None,
        },
{
    match json_get(value, key) {
        Some(member) => match json_as_str(member) {
            Some(text) => Some(String::from_str(text)),
            None => None,
        },
        None => None,
    }
}

} // verus!
