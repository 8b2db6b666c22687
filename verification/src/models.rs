//! The data that a session carries: who the user is, until when the session
//! holds, and the scratch store that its handlers share.

use std::sync::Arc;
use vstd::prelude::*;
use crate::auth::table_models;
use crate::json::Json;
use crate::table::JsonTable;

verus! {

/// `tokio::sync::Mutex`: an asynchronous lock, opaque to the verifier.
#[verifier::external_type_specification]
#[verifier::external_body]
#[verifier::reject_recursive_types(T)]
pub struct ExMutex<T: ?Sized>(tokio::sync::Mutex<T>);

/// How a user proved who they are.
#[derive(Clone, Copy, Debug, PartialEq, Eq, Structural)]
pub enum AuthStrategy {
    EmailLink,
}

/// A point in time: the seconds since 1970-01-01 00:00:00 UTC, and the
/// nanoseconds since the last whole second.
#[derive(Clone, Copy, Debug, PartialEq, Eq, Structural)]
pub struct Timestamp {
    pub secs: i64,
    pub nanos: u32,
}

/// The text that `chrono` writes for a point in time: RFC 3339 with `Z` for
/// the offset and as many fractional digits, in groups of three, as the
/// nanoseconds need. `None` where `chrono` cannot hold the point in time.
pub uninterp spec fn rfc3339_rendered(secs: int, nanos: int) -> Option<Seq<char>>;

/// The point in time that `chrono` reads from a text in its relaxed form of
/// RFC 3339, or `None` where it reports an error.
pub uninterp spec fn rfc3339_parsed(text: Seq<char>) -> Option<Timestamp>;

/// `Utc::now`: the wall clock, as a timestamp. Nothing is claimed of the
/// value: it differs from call to call.
#[verifier::external_body]
pub(crate) fn clock_now() -> (now: Timestamp) {
    let now = chrono::Utc::now();
    Timestamp { secs: now.timestamp(), nanos: now.timestamp_subsec_nanos() }
}

/// `DateTime::to_rfc3339_opts` with `SecondsFormat::AutoSi` and `Z`, which is
/// what `chrono` writes when it serialises a `DateTime<Utc>`; the value is made
/// by `DateTime::from_timestamp`, which gives `None` when out of range.
#[verifier::external_body]
pub(crate) fn rfc3339_render(at: Timestamp) -> (text: Option<String>)
    ensures
        match text {
            Some(t) => rfc3339_rendered(at.secs as int, at.nanos as int) == Some(t@),
            None => rfc3339_rendered(at.secs as int, at.nanos as int) is None,
        },
{
    match chrono::DateTime::from_timestamp(at.secs, at.nanos) {
        Some(t) => Some(t.to_rfc3339_opts(chrono::SecondsFormat::AutoSi, true)),
        None => None,
    }
}

/// `str::parse::<DateTime<Utc>>`, which is what `chrono` runs when it
/// deserialises a `DateTime<Utc>`, with the error dropped.
#[verifier::external_body]
pub(crate) fn rfc3339_parse(text: &str) -> (at: Option<Timestamp>)
    ensures
        at == rfc3339_parsed(text@),
{
    match text.parse::<chrono::DateTime<chrono::Utc>>() {
        Ok(t) => Some(Timestamp { secs: t.timestamp(), nanos: t.timestamp_subsec_nanos() }),
        Err(_) => None,
    }
}

impl Timestamp {
    /// The point in time `seconds` later, where the count of seconds still
    /// fits.
    pub open spec fn later(self, seconds: int) -> Option<Timestamp> {
        if i64::MIN <= self.secs + seconds <= i64::MAX {
            Some(Timestamp { secs: (self.secs + seconds) as i64, nanos: self.nanos })
        } else {
            None
        }
    }

    /// The point in time `seconds` later, or `None` where the count of
    /// seconds no longer fits.
    pub fn plus_seconds(self, seconds: i64) -> (at: Option<Timestamp>)
        ensures
            at == self.later(seconds as int),
    {
        match self.secs.checked_add(seconds) {
            Some(secs) => Some(Timestamp { secs, nanos: self.nanos }),
            None => None,
        }
    }
}

/// The scratch store of a session: a map from string keys to JSON values
/// behind a lock, shared by every handler that runs under the session.
pub struct Store {
    pub kv: Arc<tokio::sync::Mutex<JsonTable>>,
}

impl rpc_router::FromResources for Store {}

/// What the table held around which a lock was made. The lock hands the
/// table out to be changed, so this is what the table held at first, not
/// what it holds now.
pub uninterp spec fn lock_made_around(lock: tokio::sync::Mutex<JsonTable>) -> Map<Seq<char>, Json>;

/// `Mutex::new`: a lock around `table`.
#[verifier::external_body]
pub(crate) fn new_lock(table: JsonTable) -> (lock: tokio::sync::Mutex<JsonTable>)
    ensures
        lock_made_around(lock) == table_models(table@),
{
    tokio::sync::Mutex::new(table)
}

impl Store {
    /// What the store held when it was made.
    pub open spec fn made_with(&self) -> Map<Seq<char>, Json> {
        lock_made_around(*self.kv)
    }

    /// A store of its own, with nothing in it.
    pub fn new() -> (store: Self)
        ensures
            store.made_with() == Map::<Seq<char>, Json>::empty(),
    {
        let store = Store { kv: Arc::new(new_lock(JsonTable::new())) };
        proof {
            assert(table_models(Map::<Seq<char>, serde_json::Value>::empty()) =~= Map::<
                Seq<char>,
                Json,
            >::empty());
        }
        store
    }
}

impl Clone for Store {
    /// Another handle on the same store.
    fn clone(&self) -> (other: Self)
        ensures
            other == *self,
    {
        Store { kv: self.kv.clone() }
    }
}

/// The id of a user session.
pub type DBSessionId = String;

/// What a session token carries.
#[derive(Debug)]
pub struct ParsedToken {
    pub expires_at: Timestamp,
    pub db_session_id: DBSessionId,
    pub user_id: String,
}

/// The content of a [`ParsedToken`].
pub struct ParsedTokenView {
    pub expires_at: Timestamp,
    pub db_session_id: Seq<char>,
    pub user_id: Seq<char>,
}

impl View for ParsedToken {
    type V = ParsedTokenView;

    open spec fn view(&self) -> ParsedTokenView {
        ParsedTokenView {
            expires_at: self.expires_at,
            db_session_id: self.db_session_id@,
            user_id: self.user_id@,
        }
    }
}

/// A user session: the identity under which an authenticated connection
/// runs.
pub struct DBSession {
    pub id: DBSessionId,
    pub user_id: String,
    pub strategy: AuthStrategy,
    pub token: String,
    pub expires_at: Timestamp,
}

/// The content of a [`DBSession`].
pub struct DBSessionView {
    pub id: Seq<char>,
    pub user_id: Seq<char>,
    pub strategy: AuthStrategy,
    pub token: Seq<char>,
    pub expires_at: Timestamp,
}

impl View for DBSession {
    type V = DBSessionView;

    open spec fn view(&self) -> DBSessionView {
        DBSessionView {
            id: self.id@,
            user_id: self.user_id@,
            strategy: self.strategy,
            token: self.token@,
            expires_at: self.expires_at,
        }
    }
}

impl Clone for DBSession {
    fn clone(&self) -> (other: Self)
        ensures
            other@ == self@,
    {
        DBSession {
            id: self.id.clone(),
            user_id: self.user_id.clone(),
            strategy: self.strategy,
            token: self.token.clone(),
            expires_at: self.expires_at,
        }
    }
}

impl DBSession {
    /// A new user session for `user_id`, with a fresh id and a token that
    /// holds for seven days.
    ///
    /// The id and the time come from outside, so only this is promised: the
    /// session is what [`crate::auth::token_generated`] yields for that user,
    /// some 128-bit number and some point in time, and there is none only
    /// where that yields none.
    pub fn new(user_id: &str, strategy: AuthStrategy) -> (made: Result<Self, crate::error::Error>)
        ensures
            match made {
                Ok(session) => session@.user_id == user_id@ && session@.strategy == strategy
                    && exists|number: u128, now: Timestamp| #[trigger]
                    crate::auth::token_generated(user_id@, number, now) == Some(
                        (session@.id, session@.expires_at, session@.token),
                    ),
                Err(e) => e is TokenError && exists|number: u128, now: Timestamp|
                    #[trigger] crate::auth::token_generated(user_id@, number, now) is None,
            },
    {
        match crate::auth::generate_token(user_id, &strategy) {
            Ok((id, expires_at, token)) => {
                let ghost (number, now) = choose|number: u128, now: Timestamp| #[trigger]
                    crate::auth::token_generated(user_id@, number, now) == Some(
                        (id@, expires_at, token@),
                    );
                let session = DBSession {
                    id,
                    user_id: user_id.to_owned(),
                    strategy,
                    token,
                    expires_at,
                };
                assert(crate::auth::token_generated(user_id@, number, now) == Some(
                    (session@.id, session@.expires_at, session@.token),
                ));
                Ok(session)
            },
            Err(e) => Err(e),
        }
    }
}

/// What a private handler runs under: the user session and the scratch
/// store of the connection's session.
pub struct UserPayload {
    pub db_session: DBSession,
    pub store: Store,
}

} // verus!
