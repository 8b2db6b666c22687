//! Assembling an engine: handlers by name into the three namespaces,
//! resources for every handler, and the tunables of a connection.

use std::sync::Arc;
use vstd::prelude::*;
use crate::nitram::{
    router_routes, tunables_from, Nitram, NitramInner, Registry, Routes,
};
use crate::text::name_views;

verus! {

/// `rpc_router::RouterBuilder`: a router under construction, opaque to the
/// verifier.
#[verifier::external_type_specification]
#[verifier::external_body]
pub struct ExRouterBuilder(rpc_router::RouterBuilder);

/// The method names that a router under construction has a handler for.
pub uninterp spec fn builder_routes(builder: rpc_router::RouterBuilder) -> Set<Seq<char>>;

/// The names of the types of the resources that a router under construction
/// holds for its handlers. It holds one resource of a type: a handler asks
/// for a resource by its type.
pub uninterp spec fn builder_resource_types(builder: rpc_router::RouterBuilder) -> Set<Seq<char>>;

/// `RouterBuilder::default`: a builder without any route.
#[verifier::external_body]
pub(crate) fn new_router_builder() -> (builder: rpc_router::RouterBuilder)
    ensures
        builder_routes(builder) == Set::<Seq<char>>::empty(),
{
    rpc_router::RouterBuilder::default()
}

/// `RouterBuilder::append_dyn`, on what `Handler::into_dyn` makes of the
/// handler: the builder has the handler under `name`, in place of an earlier
/// one of that name, and the routes it had.
#[verifier::external_body]
pub(crate) fn router_builder_append<H, T, P, R>(
    builder: rpc_router::RouterBuilder,
    name: &'static str,
    handler: H,
) -> (appended: rpc_router::RouterBuilder) where
    H: rpc_router::Handler<T, P, R> + Clone + Send + Sync + 'static,
    T: Send + Sync + 'static,
    P: Send + Sync + 'static,
    R: Send + Sync + 'static,

    ensures
        builder_routes(appended) == builder_routes(builder).insert(name@),
{
    builder.append_dyn(name, handler.into_dyn())
}

/// `RouterBuilder::append_resource`: the builder holds the resource under
/// its type, in place of an earlier one of that type, and the resources it
/// held; the routes stay as they are.
#[verifier::external_body]
pub(crate) fn router_builder_resource<T>(builder: rpc_router::RouterBuilder, resource: T) -> (appended:
    rpc_router::RouterBuilder) where T: rpc_router::FromResources + Clone + Send + Sync + 'static
    ensures
        builder_routes(appended) == builder_routes(builder),
        exists|kind: Seq<char>|
            builder_resource_types(appended) == #[trigger] builder_resource_types(builder).insert(
                kind,
            ),
{
    builder.append_resource(resource)
}

/// `RouterBuilder::build`: the router with the builder's routes.
#[verifier::external_body]
pub(crate) fn router_build(builder: rpc_router::RouterBuilder) -> (router: rpc_router::Router)
    ensures
        router_routes(router) == builder_routes(builder),
{
    builder.build()
}

/// The names of the types of the resources that each of the three routers
/// under construction holds.
pub struct ResourceTypes {
    pub public: Set<Seq<char>>,
    pub private: Set<Seq<char>>,
    pub server_messages: Set<Seq<char>>,
}

/// What was chosen for the tunables of a connection.
pub struct Chosen {
    pub ping_interval_in_seconds: Option<u64>,
    pub server_messages_interval_in_millis: Option<u64>,
    pub timeout_in_seconds: Option<u64>,
    pub max_frame_size: Option<usize>,
}

/// The builder of an engine.
pub struct NitramBuilder {
    rpc_router_builder_public: rpc_router::RouterBuilder,
    rpc_router_builder_private: rpc_router::RouterBuilder,
    rpc_router_builder_server_messages: rpc_router::RouterBuilder,
    registered_public_handlers: Vec<String>,
    registered_private_handlers: Vec<String>,
    registered_server_messages_handlers: Vec<String>,
    ping_interval_in_seconds: Option<u64>,
    server_messages_interval_in_millis: Option<u64>,
    timeout_in_seconds: Option<u64>,
    max_frame_size: Option<usize>,
}

impl NitramBuilder {
    /// The method names registered so far, by namespace and in the order of
    /// registration.
    pub closed spec fn registry(&self) -> Registry {
        Registry {
            public: name_views(self.registered_public_handlers@),
            private: name_views(self.registered_private_handlers@),
            server_messages: name_views(self.registered_server_messages_handlers@),
        }
    }

    /// The method names that each router under construction has a handler
    /// for.
    pub closed spec fn routes(&self) -> Routes {
        Routes {
            public: builder_routes(self.rpc_router_builder_public),
            private: builder_routes(self.rpc_router_builder_private),
            server_messages: builder_routes(self.rpc_router_builder_server_messages),
        }
    }

    /// The names of the types of the resources that each router under
    /// construction holds.
    pub closed spec fn resources(&self) -> ResourceTypes {
        ResourceTypes {
            public: builder_resource_types(self.rpc_router_builder_public),
            private: builder_resource_types(self.rpc_router_builder_private),
            server_messages: builder_resource_types(self.rpc_router_builder_server_messages),
        }
    }

    /// What was chosen for the tunables so far.
    pub closed spec fn chosen(&self) -> Chosen {
        Chosen {
            ping_interval_in_seconds: self.ping_interval_in_seconds,
            server_messages_interval_in_millis: self.server_messages_interval_in_millis,
            timeout_in_seconds: self.timeout_in_seconds,
            max_frame_size: self.max_frame_size,
        }
    }

    /// Sets the period of the outbound loop, in seconds.
    pub fn set_ping_interval(self, interval_in_seconds: u64) -> (builder: Self)
        ensures
            builder.registry() == self.registry(),
            builder.routes() == self.routes(),
            builder.chosen() == (Chosen {
                ping_interval_in_seconds: Some(interval_in_seconds),
                ..self.chosen()
            }),
    {
        let mut builder = self;
        builder.ping_interval_in_seconds = Some(interval_in_seconds);
        builder
    }

    /// Sets the longest time since the last pong that a connection
    /// survives, in seconds.
    pub fn set_timeout(self, timeout_in_seconds: u64) -> (builder: Self)
        ensures
            builder.registry() == self.registry(),
            builder.routes() == self.routes(),
            builder.chosen() == (Chosen {
                timeout_in_seconds: Some(timeout_in_seconds),
                ..self.chosen()
            }),
    {
        let mut builder = self;
        builder.timeout_in_seconds = Some(timeout_in_seconds);
        builder
    }

    /// Sets the least time between two drains, in milliseconds.
    pub fn set_server_messages_interval(self, interval_in_millis: u64) -> (builder: Self)
        ensures
            builder.registry() == self.registry(),
            builder.routes() == self.routes(),
            builder.chosen() == (Chosen {
                server_messages_interval_in_millis: Some(interval_in_millis),
                ..self.chosen()
            }),
    {
        let mut builder = self;
        builder.server_messages_interval_in_millis = Some(interval_in_millis);
        builder
    }

    /// Sets the largest inbound frame, in bytes.
    pub fn set_max_frame_size(self, max_frame_size: usize) -> (builder: Self)
        ensures
            builder.registry() == self.registry(),
            builder.routes() == self.routes(),
            builder.chosen() == (Chosen { max_frame_size: Some(max_frame_size), ..self.chosen() }),
    {
        let mut builder = self;
        builder.max_frame_size = Some(max_frame_size);
        builder
    }

    /// Makes `resource` available to every handler of every namespace: each
    /// of the three routers under construction holds, besides the resources
    /// that it held, one of the resource's type.
    pub fn add_resource<T>(self, resource: T) -> (builder: Self) where
        T: rpc_router::FromResources + Clone + Send + Sync + 'static,

        ensures
            builder.registry() == self.registry(),
            builder.routes() == self.routes(),
            builder.chosen() == self.chosen(),
            exists|kind: Seq<char>|
                builder.resources().public == #[trigger] self.resources().public.insert(kind),
            exists|kind: Seq<char>|
                builder.resources().private == #[trigger] self.resources().private.insert(
                    kind,
                ),
            exists|kind: Seq<char>|
                builder.resources().server_messages
                    == #[trigger] self.resources().server_messages.insert(kind),
    {
        let mut builder = self;
        builder.rpc_router_builder_public = router_builder_resource(
            builder.rpc_router_builder_public,
            resource.clone(),
        );
        builder.rpc_router_builder_private = router_builder_resource(
            builder.rpc_router_builder_private,
            resource.clone(),
        );
        builder.rpc_router_builder_server_messages = router_builder_resource(
            builder.rpc_router_builder_server_messages,
            resource,
        );
        proof {
            let public = choose|kind: Seq<char>|
                builder_resource_types(builder.rpc_router_builder_public)
                    == #[trigger] builder_resource_types(self.rpc_router_builder_public).insert(
                    kind,
                );
            assert(builder.resources().public == self.resources().public.insert(public));
            let private = choose|kind: Seq<char>|
                builder_resource_types(builder.rpc_router_builder_private)
                    == #[trigger] builder_resource_types(self.rpc_router_builder_private).insert(
                    kind,
                );
            assert(builder.resources().private == self.resources().private.insert(private));
            let pushed = choose|kind: Seq<char>|
                builder_resource_types(builder.rpc_router_builder_server_messages)
                    == #[trigger] builder_resource_types(
                    self.rpc_router_builder_server_messages,
                ).insert(kind);
            assert(builder.resources().server_messages == self.resources().server_messages.insert(
                pushed,
            ));
        }
        builder
    }

    /// Registers `handler` under `name` in the public namespace.
    pub fn add_public_handler<H, T, P, R>(self, name: &'static str, handler: H) -> (builder: Self) where
        H: rpc_router::Handler<T, P, R> + Clone + Send + Sync + 'static,
        T: Send + Sync + 'static,
        P: Send + Sync + 'static,
        R: Send + Sync + 'static,

        ensures
            builder.registry() == (Registry {
                public: self.registry().public.push(name@),
                ..self.registry()
            }),
            builder.routes() == (Routes {
                public: self.routes().public.insert(name@),
                ..self.routes()
            }),
            builder.chosen() == self.chosen(),
    {
        let mut builder = self;
        builder.registered_public_handlers.push(name.to_owned());
        builder.rpc_router_builder_public = router_builder_append(
            builder.rpc_router_builder_public,
            name,
            handler,
        );
        proof {
            assert(name_views(builder.registered_public_handlers@) =~= name_views(
                self.registered_public_handlers@,
            ).push(name@));
        }
        builder
    }

    /// Registers `handler` under `name` in the private namespace.
    pub fn add_private_handler<H, T, P, R>(self, name: &'static str, handler: H) -> (builder: Self) where
        H: rpc_router::Handler<T, P, R> + Clone + Send + Sync + 'static,
        T: Send + Sync + 'static,
        P: Send + Sync + 'static,
        R: Send + Sync + 'static,

        ensures
            builder.registry() == (Registry {
                private: self.registry().private.push(name@),
                ..self.registry()
            }),
            builder.routes() == (Routes {
                private: self.routes().private.insert(name@),
                ..self.routes()
            }),
            builder.chosen() == self.chosen(),
    {
        let mut builder = self;
        builder.registered_private_handlers.push(name.to_owned());
        builder.rpc_router_builder_private = router_builder_append(
            builder.rpc_router_builder_private,
            name,
            handler,
        );
        proof {
            assert(name_views(builder.registered_private_handlers@) =~= name_views(
                self.registered_private_handlers@,
            ).push(name@));
        }
        builder
    }

    /// Registers `handler` under `name` as the handler of a topic.
    pub fn add_server_message_handler<H, T, P, R>(self, name: &'static str, handler: H) -> (builder:
        Self) where
        H: rpc_router::Handler<T, P, R> + Clone + Send + Sync + 'static,
        T: Send + Sync + 'static,
        P: Send + Sync + 'static,
        R: Send + Sync + 'static,

        ensures
            builder.registry() == (Registry {
                server_messages: self.registry().server_messages.push(name@),
                ..self.registry()
            }),
            builder.routes() == (Routes {
                server_messages: self.routes().server_messages.insert(name@),
                ..self.routes()
            }),
            builder.chosen() == self.chosen(),
    {
        let mut builder = self;
        builder.registered_server_messages_handlers.push(name.to_owned());
        builder.rpc_router_builder_server_messages = router_builder_append(
            builder.rpc_router_builder_server_messages,
            name,
            handler,
        );
        proof {
            assert(name_views(builder.registered_server_messages_handlers@) =~= name_views(
                self.registered_server_messages_handlers@,
            ).push(name@));
        }
        builder
    }

    /// The engine over the session store `inner`, with the handlers and
    /// resources registered so far and the tunables chosen so far.
    pub fn build(self, inner: Arc<tokio::sync::Mutex<NitramInner>>) -> (nitram: Nitram)
        ensures
            nitram.session_store() == inner,
            nitram.registry() == self.registry(),
            nitram.routes() == self.routes(),
            nitram.tunables() == tunables_from(
                self.chosen().ping_interval_in_seconds,
                self.chosen().server_messages_interval_in_millis,
                self.chosen().timeout_in_seconds,
                self.chosen().max_frame_size,
            ),
    {
        Nitram::new(
            inner,
            router_build(self.rpc_router_builder_public),
            router_build(self.rpc_router_builder_private),
            router_build(self.rpc_router_builder_server_messages),
            self.registered_public_handlers,
            self.registered_private_handlers,
            self.registered_server_messages_handlers,
            self.ping_interval_in_seconds,
            self.server_messages_interval_in_millis,
            self.timeout_in_seconds,
            self.max_frame_size,
        )
    }
}

impl Default for NitramBuilder {
    /// The builder without handlers, resources or choices.
    fn default() -> (builder: Self)
        ensures
            builder.registry() == (Registry {
                public: Seq::empty(),
                private: Seq::empty(),
                server_messages: Seq::empty(),
            }),
            builder.routes() == (Routes {
                public: Set::empty(),
                private: Set::empty(),
                server_messages: Set::empty(),
            }),
            builder.chosen() == (Chosen {
                ping_interval_in_seconds: None,
                server_messages_interval_in_millis: None,
                timeout_in_seconds: None,
                max_frame_size: None,
            }),
    {
        let builder = NitramBuilder {
            rpc_router_builder_public: new_router_builder(),
            rpc_router_builder_private: new_router_builder(),
            rpc_router_builder_server_messages: new_router_builder(),
            registered_public_handlers: Vec::new(),
            registered_private_handlers: Vec::new(),
            registered_server_messages_handlers: Vec::new(),
            ping_interval_in_seconds: None,
            server_messages_interval_in_millis: None,
            timeout_in_seconds: None,
            max_frame_size: None,
        };
        proof {
            assert(name_views(builder.registered_public_handlers@) =~= Seq::empty());
            assert(name_views(builder.registered_private_handlers@) =~= Seq::empty());
            assert(name_views(builder.registered_server_messages_handlers@) =~= Seq::empty());
        }
        builder
    }
}

} // verus!
