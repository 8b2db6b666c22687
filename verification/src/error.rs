//! Errors: what a handler may return, what dispatch may fail with, and how
//! the router's own failures are told apart.

use vstd::prelude::*;
use vstd::std_specs::convert::FromSpecImpl;
use crate::json::{json_model, Json};
use crate::nice::{nice_text, Nice, NiceMessage};

verus! {

/// `rpc_router::CallError`: how a call into a router failed, opaque to the
/// verifier.
#[verifier::external_type_specification]
#[verifier::external_body]
pub struct ExCallError(rpc_router::CallError);

/// `rpc_router::RequestParsingError`: why a JSON value is no JSON-RPC
/// request, opaque to the verifier.
#[verifier::external_type_specification]
#[verifier::external_body]
pub struct ExRequestParsingError(rpc_router::RequestParsingError);

/// The errors that a handler returns.
///
/// `NoResponse` is for topic handlers: it says that there is nothing to push
/// on this tick. On a request it counts as a server error.
#[derive(Clone, Copy, Debug, PartialEq, Eq, Structural)]
pub enum MethodError {
    Server,
    NotFound,
    NotAuthorized,
    NotAuthenticated,
    NoResponse,
}

impl rpc_router::IntoHandlerError for MethodError {}

impl MethodError {
    /// The message under which the error reaches the client.
    pub open spec fn nice(self) -> NiceMessage {
        match self {
            MethodError::Server => NiceMessage::ServerError,
            MethodError::NotFound => NiceMessage::NotFound,
            MethodError::NotAuthorized => NiceMessage::NotAuthorized,
            MethodError::NotAuthenticated => NiceMessage::NotAuthenticated,
            MethodError::NoResponse => NiceMessage::ServerError,
        }
    }

    /// The message under which the error reaches the client.
    pub fn to_nice_message(&self) -> (msg: NiceMessage)
        ensures
            msg == self.nice(),
    {
        match self {
            MethodError::Server => NiceMessage::ServerError,
            MethodError::NotFound => NiceMessage::NotFound,
            MethodError::NotAuthorized => NiceMessage::NotAuthorized,
            MethodError::NotAuthenticated => NiceMessage::NotAuthenticated,
            MethodError::NoResponse => NiceMessage::ServerError,
        }
    }

    /// The error as the JSON string that is sent to the client.
    pub fn to_value(&self) -> (v: serde_json::Value)
        ensures
            json_model(v) == Json::String(nice_text(self.nice(), Json::Null)),
    {
        Nice::from(self.to_nice_message()).into_value()
    }
}

pub type MethodResult<T> = core::result::Result<T, MethodError>;

/// How a call into a router failed.
#[derive(Clone, Copy, Debug, PartialEq, Eq, Structural)]
pub enum CallFailure {
    /// The handler returned an error; it is given where it is a `MethodError`.
    Handler(Option<MethodError>),
    /// The parameters did not decode into what the handler takes.
    ParamsParsing,
    /// The handler takes parameters and the request had none.
    ParamsMissingButRequested,
    /// The router has no handler under the method's name.
    MethodUnknown,
    /// A resource that the handler asks for was not supplied.
    FromResources,
    /// The handler's result could not be turned into JSON.
    HandlerResultSerialize,
}

/// How the call behind a `rpc_router::CallError` failed.
pub uninterp spec fn call_failure_of(e: rpc_router::CallError) -> CallFailure;

/// Tells the variants of the `rpc_router::Error` inside a `CallError` apart;
/// for a handler's error, `HandlerError::get` looks for a `MethodError` in it.
#[verifier::external_body]
pub(crate) fn call_failure(e: &rpc_router::CallError) -> (failure: CallFailure)
    ensures
        failure == call_failure_of(*e),
{
    match &e.error {
        rpc_router::Error::Handler(h) => CallFailure::Handler(h.get::<MethodError>().copied()),
        rpc_router::Error::ParamsParsing(_) => CallFailure::ParamsParsing,
        rpc_router::Error::ParamsMissingButRequested => CallFailure::ParamsMissingButRequested,
        rpc_router::Error::MethodUnknown => CallFailure::MethodUnknown,
        rpc_router::Error::FromResources(_) => CallFailure::FromResources,
        rpc_router::Error::HandlerResultSerialize(_) => CallFailure::HandlerResultSerialize,
    }
}

/// The errors of dispatch.
#[derive(Debug)]
pub enum Error {
    MethodNotFound,
    NotAuthenticated,
    NotAuthorized,
    RpcRequestError(String),
    TokenError(String),
    RpcCallError(rpc_router::CallError),
    RpcRequestParsingError(rpc_router::RequestParsingError),
}

pub type Result<T> = core::result::Result<T, Error>;

impl From<rpc_router::CallError> for Error {
    fn from(e: rpc_router::CallError) -> (err: Self) {
        Error::RpcCallError(e)
    }
}

impl FromSpecImpl<rpc_router::CallError> for Error {
    open spec fn obeys_from_spec() -> bool {
        true
    }

    open spec fn from_spec(e: rpc_router::CallError) -> Self {
        Error::RpcCallError(e)
    }
}

impl From<rpc_router::RequestParsingError> for Error {
    fn from(e: rpc_router::RequestParsingError) -> (err: Self) {
        Error::RpcRequestParsingError(e)
    }
}

impl FromSpecImpl<rpc_router::RequestParsingError> for Error {
    open spec fn obeys_from_spec() -> bool {
        true
    }

    open spec fn from_spec(e: rpc_router::RequestParsingError) -> Self {
        Error::RpcRequestParsingError(e)
    }
}

} // verus!
