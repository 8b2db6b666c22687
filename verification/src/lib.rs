//! A WebSocket RPC gateway core: session registry, three-namespace method
//! routing, request dispatch, topic subscriptions and the heartbeat rules of
//! a connection, with every decision stated as a contract and proved.

use vstd::prelude::*;

pub mod auth;
pub mod builder;
pub mod error;
pub mod json;
pub mod laws;
pub mod messages;
pub mod models;
pub mod nice;
pub mod nitram;
pub mod table;
pub mod text;
pub mod ws;

pub use crate::auth::AuthenticateParams;
pub use crate::builder::NitramBuilder;
pub use crate::nitram::{Handled, Nitram, NitramInner, RpcCall, SendStep, Tunables};
pub use rpc_router::FromResources;
pub use rpc_router::IntoParams;

verus! {

/// The parameters of a method that takes none.
pub struct EmptyParams;

/// The parameters of a method that takes the id of a thing.
pub struct IdParams {
    pub id: String,
}

} // verus!
