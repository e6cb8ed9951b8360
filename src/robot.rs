//! The `Robot` type, which owns the routes and the store, and decides how messages are
//! dispatched.

use vstd::prelude::*;

use crate::config::Config;
use crate::message::IncomingMessage;
use crate::route::{matching_routes, matching_routes_spec, Route};
use crate::store::Store;
use crate::message::IncomingMessageView;
use crate::route::lemma_matching_routes;
use self::dispatch::{
    advance, initial, invoked, lemma_invokes_targets_in_order, run, well_formed_run,
};

pub use self::dispatch::{Command, Dispatch, Event, Phase, RouteFailure};
pub use self::handle::Handle;

pub mod dispatch;
pub mod handle;

verus! {

/// A builder for configuring a new `Robot`.
pub struct Builder<C, S, F> {
    chat_service: C,
    config: Config,
    routes: Vec<Route<F>>,
    store: S,
}

/// The primary driver of a program using this crate.
pub struct Robot<C, S, F> {
    chat_service: C,
    config: Config,
    routes: Vec<Route<F>>,
    store: S,
}

impl<C, S: Store, F> Builder<C, S, F> {
    /// The routes added so far, in order.
    pub closed spec fn spec_routes(&self) -> Seq<Route<F>> {
        self.routes@
    }

    /// The root store.
    pub closed spec fn spec_store(&self) -> S {
        self.store
    }

    /// The chat service.
    pub closed spec fn spec_chat_service(&self) -> C {
        self.chat_service
    }

    /// The configuration.
    pub closed spec fn spec_config(&self) -> Config {
        self.config
    }

    /// Adds a route after the ones added before.
    pub fn route(self, route: Route<F>) -> (r: Self)
        ensures
            r.spec_routes() == self.spec_routes().push(route),
            r.spec_store() == self.spec_store(),
            r.spec_chat_service() == self.spec_chat_service(),
            r.spec_config() == self.spec_config(),
    {
        let mut b = self;
        b.routes.push(route);
        b
    }

    /// Creates a `Robot` from the builder.
    pub fn finish(self) -> (r: Robot<C, S, F>)
        ensures
            r.spec_routes() == self.spec_routes(),
            r.spec_store() == self.spec_store(),
            r.spec_chat_service() == self.spec_chat_service(),
            r.spec_config() == self.spec_config(),
    {
        Robot {
            chat_service: self.chat_service,
            config: self.config,
            routes: self.routes,
            store: self.store,
        }
    }
}

impl<C, S: Store, F> Robot<C, S, F> {
    /// The routes, in registration order.
    pub closed spec fn spec_routes(&self) -> Seq<Route<F>> {
        self.routes@
    }

    /// The root store.
    pub closed spec fn spec_store(&self) -> S {
        self.store
    }

    /// The chat service.
    pub closed spec fn spec_chat_service(&self) -> C {
        self.chat_service
    }

    /// The configuration.
    pub closed spec fn spec_config(&self) -> Config {
        self.config
    }

    /// Begins constructing a `Robot`.
    pub fn build(config: Config, chat_service: C, store: S) -> (r: Builder<C, S, F>)
        ensures
            r.spec_routes() == Seq::<Route<F>>::empty(),
            r.spec_store() == store,
            r.spec_chat_service() == chat_service,
            r.spec_config() == config,
    {
        Builder { chat_service, config, routes: Vec::new(), store }
    }

    /// The routes, in registration order.
    pub fn routes(&self) -> (r: &Vec<Route<F>>)
        ensures
            r@ == self.spec_routes(),
    {
        &self.routes
    }

    /// The configuration.
    pub fn config(&self) -> (r: &Config)
        ensures
            *r == self.spec_config(),
    {
        &self.config
    }

    /// The chat service.
    pub fn chat_service(&self) -> (r: &C)
        ensures
            *r == self.spec_chat_service(),
    {
        &self.chat_service
    }

    /// The root store.
    pub fn store(&self) -> (r: &S)
        ensures
            *r == self.spec_store(),
    {
        &self.store
    }

    /// The positions of the routes that fire on `message`, in registration order.
    pub fn matching_routes(&self, message: &IncomingMessage) -> (r: Vec<usize>)
        ensures
            r@ == matching_routes_spec(self.spec_routes(), message@),
    {
        matching_routes(&self.routes, message)
    }

    /// Begins dispatching `message`: the routes that fire on it will be invoked in registration
    /// order.
    pub fn dispatch(&self, message: &IncomingMessage) -> (r: Dispatch)
        ensures
            r@ == initial(matching_routes_spec(self.spec_routes(), message@)),
    {
        Dispatch::new(matching_routes(&self.routes, message))
    }

    /// Takes the robot apart, for a run loop that drives the chat service and the store itself.
    pub fn into_parts(self) -> (r: (C, Config, Vec<Route<F>>, S))
        ensures
            r.0 == self.spec_chat_service(),
            r.1 == self.spec_config(),
            r.2@ == self.spec_routes(),
            r.3 == self.spec_store(),
    {
        (self.chat_service, self.config, self.routes, self.store)
    }
}

/// Dispatch policy: while a message is dispatched, every route invoked fires on it, and routes
/// are invoked in registration order, each at most once; once the dispatch has finished, the
/// routes invoked are exactly those that fire on the message.
pub proof fn lemma_dispatch_invokes_matching_routes<F>(
    routes: Seq<Route<F>>,
    message: IncomingMessageView,
    events: Seq<Event>,
)
    requires
        routes.len() <= usize::MAX,
        well_formed_run(advance(initial(matching_routes_spec(routes, message))).0, events),
    ensures
        ({
            let (s0, c0) = advance(initial(matching_routes_spec(routes, message)));
            let (t, commands) = run(s0, events);
            let routes_invoked = invoked(seq![c0] + commands);
            &&& forall|k: usize| #[trigger]
                routes_invoked.contains(k) ==> k < routes.len() && routes[k as int].accepts(
                    message,
                )
            &&& forall|a: int, b: int|
                0 <= a < b < routes_invoked.len() ==> #[trigger] routes_invoked[a]
                    < #[trigger] routes_invoked[b]
            &&& t.phase == Phase::Finished ==> forall|k: usize| #[trigger]
                routes_invoked.contains(k) <==> k < routes.len() && routes[k as int].accepts(
                    message,
                )
        }),
{
    let targets = matching_routes_spec(routes, message);
    lemma_matching_routes(routes, message);
    lemma_invokes_targets_in_order(targets, events);
    let (s0, c0) = advance(initial(targets));
    let (t, commands) = run(s0, events);
    let routes_invoked = invoked(seq![c0] + commands);
    assert forall|k: usize| #[trigger] routes_invoked.contains(k) implies targets.contains(k) by {
        let i = choose|i: int| 0 <= i < routes_invoked.len() && routes_invoked[i] == k;
        assert(routes_invoked[i] == targets.subrange(0, t.next as int)[i]);
    }
    assert forall|a: int, b: int|
        0 <= a < b < routes_invoked.len() implies #[trigger] routes_invoked[a]
            < #[trigger] routes_invoked[b] by {
        assert(routes_invoked[a] == targets.subrange(0, t.next as int)[a]);
        assert(routes_invoked[b] == targets.subrange(0, t.next as int)[b]);
    }
}

} // verus!
