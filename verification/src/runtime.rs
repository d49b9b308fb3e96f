use crate::accessors::{
    APIRoute, Gateway, GatewayConfig, Logger, PubSubSubscription, PubSubSubscriptionConfig,
    PubSubTopic, SQLDatabase, Secret,
};
use crate::core_state::{
    has_name, has_route, has_sub, lemma_push_fresh_key_preserves_wf, route_matches, routes_wf,
    ApiServer, AppMeta, CoreState, HandlerId, RouteEntry,
};
use crate::errors::{CallError, LookupError, RegistrationError};
use crate::names::{EndpointName, SubName};
use crate::payload::JSONPayload;
use vstd::prelude::*;

verus! {

/// One pending cross-context invocation: the request half of the
/// (invocation request, response slot) pair that travels from the core's
/// execution context to the host's single-threaded scheduler.
pub struct Invocation {
    pub call_id: u64,
    pub handler: HandlerId,
    pub raw: bool,
    pub payload: JSONPayload,
    pub source: Option<u64>,
}

/// What the host callback produced when an invocation ran on the host's
/// scheduler: a payload on success, or the failure it raised, as a message.
pub enum CallOutcome {
    Success(JSONPayload),
    Failure(String),
}

/// A handle to one assembled runtime core, together with the task queue
/// that carries handler invocations from the core's execution contexts to
/// the host's single-threaded scheduler.
pub struct Runtime {
    pub core: CoreState,
    pub pending: Vec<Invocation>,
    pub next_call_id: u64,
}

/// The routing table of the core's API server, if the core hosts one.
pub open spec fn srv_view(srv: Option<ApiServer>) -> Option<Seq<RouteEntry>> {
    match srv {
        Option::Some(s) => Option::Some(s.routes@),
        Option::None => Option::None,
    }
}

/// The route entry a host-supplied route is stored as.
pub open spec fn entry_of(route: APIRoute) -> RouteEntry {
    RouteEntry {
        key: EndpointName { service: route.service, endpoint: route.name },
        handler: route.handler,
        raw: route.raw,
    }
}

/// One registration step against the core: with no active API server the
/// route is accepted and dropped; with a server, a fresh key is appended
/// and a duplicate key is rejected, leaving the table as it was.
pub open spec fn register_step(pre: Option<Seq<RouteEntry>>, route: APIRoute) -> (
    Option<Seq<RouteEntry>>,
    bool,
) {
    match pre {
        Option::None => (pre, true),
        Option::Some(rs) => if has_route(rs, route.service@, route.name@) {
            (pre, false)
        } else {
            (Option::Some(rs.push(entry_of(route))), true)
        },
    }
}

/// Sequential registration of a batch: stop at the first rejected route,
/// keeping the registrations made before it. Not transactional.
pub open spec fn register_all_spec(pre: Option<Seq<RouteEntry>>, routes: Seq<APIRoute>) -> (
    Option<Seq<RouteEntry>>,
    bool,
)
    decreases routes.len(),
{
    if routes.len() == 0 {
        (pre, true)
    } else {
        let stepped = register_step(pre, routes[0]);
        if stepped.1 {
            register_all_spec(stepped.0, routes.drop_first())
        } else {
            (stepped.0, false)
        }
    }
}

/// An outbound call to this endpoint can be delivered: the core hosts an
/// API server and the key is registered with it.
pub open spec fn can_deliver(
    srv: Option<Seq<RouteEntry>>,
    service: Seq<char>,
    endpoint: Seq<char>,
) -> bool {
    match srv {
        Option::Some(rs) => has_route(rs, service, endpoint),
        Option::None => false,
    }
}

/// `inv` is an invocation of the handler registered in `rs` under this
/// endpoint key, carrying the caller's payload unchanged.
pub open spec fn invocation_for(
    rs: Seq<RouteEntry>,
    service: Seq<char>,
    endpoint: Seq<char>,
    call_id: u64,
    data: JSONPayload,
    source: Option<u64>,
    inv: Invocation,
) -> bool {
    exists|i: int|
        0 <= i < rs.len() && #[trigger] route_matches(rs[i], service, endpoint)
            && inv.handler == rs[i].handler && inv.raw == rs[i].raw && inv.call_id == call_id
            && inv.payload == data && inv.source == source
}

/// How a finished invocation is observed by the caller awaiting its
/// response slot: the callback's payload unchanged on success, the
/// callback's failure wrapped as a call error.
pub open spec fn finish_spec(outcome: CallOutcome) -> Result<JSONPayload, CallError> {
    match outcome {
        CallOutcome::Success(p) => Result::Ok(p),
        CallOutcome::Failure(m) => Result::Err(CallError::HandlerFailure(m)),
    }
}

/// Everything of the runtime except the server's routing table is as
/// before.
pub open spec fn unchanged_except_routes(pre: Runtime, post: Runtime) -> bool {
    &&& post.core.test_mode == pre.core.test_mode
    &&& (post.core.api_server is Some) == (pre.core.api_server is Some)
    &&& post.core.topics == pre.core.topics
    &&& post.core.subscriptions == pre.core.subscriptions
    &&& post.core.gateways == pre.core.gateways
    &&& post.core.secrets == pre.core.secrets
    &&& post.core.meta == pre.core.meta
    &&& post.core.version == pre.core.version
    &&& post.core.build_commit == pre.core.build_commit
    &&& post.pending == pre.pending
    &&& post.next_call_id == pre.next_call_id
}

/// Linear scan of a routing table for an endpoint key; the wrapped host
/// callback and its calling convention, when the key is registered.
fn find_route(routes: &Vec<RouteEntry>, service: &String, endpoint: &String) -> (r: Option<
    (HandlerId, bool),
>)
    ensures
        (r is Some) == has_route(routes@, service@, endpoint@),
        r matches Some(hb) ==> exists|i: int|
            0 <= i < routes@.len() && #[trigger] route_matches(routes@[i], service@, endpoint@)
                && hb.0 == routes@[i].handler && hb.1 == routes@[i].raw,
{
    let n: usize = routes.len();
    let mut i: usize = 0;
    while i < n
        invariant
            n == routes@.len(),
            i <= n,
            forall|j: int| 0 <= j < i ==> !#[trigger] route_matches(
                routes@[j],
                service@,
                endpoint@,
            ),
        decreases n - i,
    {
        let e = &routes[i];
        if e.key.service == *service && e.key.endpoint == *endpoint {
            proof {
                assert(route_matches(routes@[i as int], service@, endpoint@));
            }
            return Option::Some((e.handler, e.raw));
        }
        i = i + 1;
    }
    Option::None
}

impl Runtime {
    /// Every routing table the bridge builds keeps endpoint keys unique:
    /// established at construction and preserved by every registration.
    pub open spec fn wf(&self) -> bool {
        match self.core.api_server {
            Option::Some(s) => routes_wf(s.routes@),
            Option::None => true,
        }
    }

    /// A handle to the named database in the core's registry. Always
    /// succeeds at the bridge level; an unknown name surfaces a failure
    /// later, on use, from the core.
    pub fn sql_database(&self, encore_name: String) -> (db: SQLDatabase)
        ensures
            db.name@ == encore_name@,
    {
        SQLDatabase { name: encore_name }
    }

    /// The declared topic of that name, or a "not found" lookup failure.
    /// A lookup never creates a topic implicitly.
    pub fn pubsub_topic(&self, encore_name: String) -> (r: Result<PubSubTopic, LookupError>)
        ensures
            (r is Ok) == has_name(self.core.topics@, encore_name@),
            r matches Ok(t) ==> t.name@ == encore_name@,
            r matches Err(e) ==> e == LookupError::TopicNotFound,
    {
        let n: usize = self.core.topics.len();
        let mut i: usize = 0;
        while i < n
            invariant
                n == self.core.topics@.len(),
                i <= n,
                forall|j: int| 0 <= j < i ==> #[trigger] self.core.topics@[j]@ != encore_name@,
            decreases n - i,
        {
            if self.core.topics[i] == encore_name {
                return Result::Ok(PubSubTopic { name: encore_name });
            }
            i = i + 1;
        }
        Result::Err(LookupError::TopicNotFound)
    }

    /// The optional gateway of that name wrapped with the supplied
    /// configuration. Absence is not an error: the object then has no
    /// backing route table.
    pub fn gateway(&self, encore_name: String, cfg: GatewayConfig) -> (g: Gateway)
        ensures
            g.name@ == encore_name@,
            g.has_backing == has_name(self.core.gateways@, encore_name@),
            g.config == cfg,
    {
        let n: usize = self.core.gateways.len();
        let mut i: usize = 0;
        let mut found = false;
        while i < n
            invariant
                n == self.core.gateways@.len(),
                i <= n,
                found == exists|j: int|
                    0 <= j < i && #[trigger] self.core.gateways@[j]@ == encore_name@,
            decreases n - i,
        {
            if self.core.gateways[i] == encore_name {
                found = true;
            }
            i = i + 1;
        }
        Gateway { name: encore_name, has_backing: found, config: cfg }
    }

    /// The root logger: a stateless accessor with no construction cost or
    /// failure mode.
    pub fn logger(&self) -> Logger {
        Logger {  }
    }

    /// SubscriptionBridge: wrap the configuration's host callback into an
    /// owned message handler and look the subscription up under its
    /// (topic, subscription) key. An undeclared pair is a "not found"
    /// lookup failure; one is never created implicitly.
    pub fn pubsub_subscription(&self, cfg: PubSubSubscriptionConfig) -> (r: Result<
        PubSubSubscription,
        LookupError,
    >)
        ensures
            (r is Ok) == has_sub(
                self.core.subscriptions@,
                cfg.topic_name@,
                cfg.subscription_name@,
            ),
            r matches Ok(s) ==> s.name.topic@ == cfg.topic_name@ && s.name.subscription@
                == cfg.subscription_name@ && s.handler == cfg.handler,
            r matches Err(e) ==> e == LookupError::SubscriptionNotFound,
    {
        let n: usize = self.core.subscriptions.len();
        let mut i: usize = 0;
        while i < n
            invariant
                n == self.core.subscriptions@.len(),
                i <= n,
                forall|j: int|
                    0 <= j < i ==> !(#[trigger] self.core.subscriptions@[j].topic@
                        == cfg.topic_name@ && self.core.subscriptions@[j].subscription@
                        == cfg.subscription_name@),
            decreases n - i,
        {
            let s = &self.core.subscriptions[i];
            if s.topic == cfg.topic_name && s.subscription == cfg.subscription_name {
                return Result::Ok(
                    PubSubSubscription {
                        name: SubName { topic: cfg.topic_name, subscription: cfg.subscription_name },
                        handler: cfg.handler,
                    },
                );
            }
            i = i + 1;
        }
        Result::Err(LookupError::SubscriptionNotFound)
    }

    /// The configured secret of that name. Absence is a valid "not
    /// configured" outcome, not a failure.
    pub fn secret(&self, encore_name: String) -> (r: Option<Secret>)
        ensures
            (r is Some) == has_name(self.core.secrets@, encore_name@),
            r matches Some(s) ==> s.name@ == encore_name@,
    {
        let n: usize = self.core.secrets.len();
        let mut i: usize = 0;
        while i < n
            invariant
                n == self.core.secrets@.len(),
                i <= n,
                forall|j: int| 0 <= j < i ==> #[trigger] self.core.secrets@[j]@ != encore_name@,
            decreases n - i,
        {
            if self.core.secrets[i] == encore_name {
                return Option::Some(Secret { name: encore_name });
            }
            i = i + 1;
        }
        Option::None
    }

    /// HandlerBridge: wrap the route's host callback and calling
    /// convention into a route entry and register it under its endpoint
    /// key. With no active API server registration is a successful no-op;
    /// the core rejects a duplicate key, leaving the first registration
    /// active. Duplicate rejection is the core's, not a local check.
    pub fn register_handler(&mut self, route: APIRoute) -> (r: Result<(), RegistrationError>)
        ensures
            (srv_view(final(self).core.api_server), r is Ok) == register_step(
                srv_view(old(self).core.api_server),
                route,
            ),
            unchanged_except_routes(*old(self), *final(self)),
            old(self).wf() ==> final(self).wf(),
            r matches Err(e) ==> (e matches RegistrationError::DuplicateEndpoint(k)
                && k.service@ == route.service@ && k.endpoint@ == route.name@),
    {
        match &mut self.core.api_server {
            Option::None => Result::Ok(()),
            Option::Some(srv) => {
                match find_route(&srv.routes, &route.service, &route.name) {
                    Option::Some(_) => Result::Err(
                        RegistrationError::DuplicateEndpoint(
                            EndpointName { service: route.service, endpoint: route.name },
                        ),
                    ),
                    Option::None => {
                        let ghost rs0 = srv.routes@;
                        srv.routes.push(
                            RouteEntry {
                                key: EndpointName { service: route.service, endpoint: route.name },
                                handler: route.handler,
                                raw: route.raw,
                            },
                        );
                        proof {
                            if routes_wf(rs0) {
                                lemma_push_fresh_key_preserves_wf(rs0, entry_of(route));
                            }
                        }
                        Result::Ok(())
                    },
                }
            },
        }
    }

    /// Registration of a route supplied by a test entry point: semantically
    /// identical to `register_handler`.
    pub fn register_test_handler(&mut self, route: APIRoute) -> (r: Result<(), RegistrationError>)
        ensures
            (srv_view(final(self).core.api_server), r is Ok) == register_step(
                srv_view(old(self).core.api_server),
                route,
            ),
            unchanged_except_routes(*old(self), *final(self)),
            old(self).wf() ==> final(self).wf(),
            r matches Err(e) ==> (e matches RegistrationError::DuplicateEndpoint(k)
                && k.service@ == route.service@ && k.endpoint@ == route.name@),
    {
        self.register_handler(route)
    }

    /// Register a batch of routes sequentially, stopping at the first
    /// rejected one and leaving the prior registrations in place. Not
    /// transactional.
    #[verifier::loop_isolation(false)]
    pub fn register_handlers(&mut self, routes: Vec<APIRoute>) -> (r: Result<
        (),
        RegistrationError,
    >)
        ensures
            (srv_view(final(self).core.api_server), r is Ok) == register_all_spec(
                srv_view(old(self).core.api_server),
                routes@,
            ),
            unchanged_except_routes(*old(self), *final(self)),
            old(self).wf() ==> final(self).wf(),
            r matches Err(e) ==> e matches RegistrationError::DuplicateEndpoint(_),
    {
        let ghost pre_srv = srv_view(self.core.api_server);
        let ghost all = routes@;
        let ghost entry_state = *self;
        let mut remaining = routes;
        while remaining.len() > 0
            invariant
                unchanged_except_routes(entry_state, *self),
                entry_state.wf() ==> self.wf(),
                register_all_spec(pre_srv, all) == register_all_spec(
                    srv_view(self.core.api_server),
                    remaining@,
                ),
            decreases remaining@.len(),
        {
            let ghost rem0 = remaining@;
            let ghost srv0 = srv_view(self.core.api_server);
            let route = remaining.remove(0);
            let step = self.register_handler(route);
            proof {
                assert(rem0.drop_first() =~= remaining@);
                assert(register_step(srv0, rem0[0]) == register_step(srv0, route));
            }
            match step {
                Result::Ok(()) => {
                    proof {
                        assert(register_all_spec(srv0, rem0) == register_all_spec(
                            srv_view(self.core.api_server),
                            remaining@,
                        ));
                    }
                },
                Result::Err(e) => {
                    proof {
                        assert(register_all_spec(srv0, rem0) == (
                            srv_view(self.core.api_server),
                            false,
                        ));
                    }
                    return Result::Err(e);
                },
            }
        }
        Result::Ok(())
    }

    /// CrossCallProxy, core side: resolve the named endpoint through the
    /// core's routing and queue an invocation of its handler for the
    /// host's scheduler, payload unchanged. The returned call id names the
    /// response slot the caller awaits; the proxy adds no retry, timeout
    /// or caching of its own.
    pub fn api_call(
        &mut self,
        service: String,
        endpoint: String,
        data: JSONPayload,
        source: Option<u64>,
    ) -> (r: Result<u64, CallError>)
        requires
            old(self).next_call_id < u64::MAX,
        ensures
            final(self).core == old(self).core,
            (r is Ok) == can_deliver(srv_view(old(self).core.api_server), service@, endpoint@),
            r matches Ok(id) ==> ({
                let inv = final(self).pending@.last();
                &&& id == old(self).next_call_id
                &&& final(self).next_call_id == old(self).next_call_id + 1
                &&& final(self).pending@ == old(self).pending@.push(inv)
                &&& (match srv_view(old(self).core.api_server) {
                    Option::Some(rs) => invocation_for(
                        rs,
                        service@,
                        endpoint@,
                        id,
                        data,
                        source,
                        inv,
                    ),
                    Option::None => false,
                })
            }),
            r is Err ==> *final(self) == *old(self),
            r matches Err(e) ==> (match srv_view(old(self).core.api_server) {
                Option::None => e == CallError::NoActiveServer,
                Option::Some(rs) => e == CallError::EndpointNotFound,
            }),
    {
        let found: Option<(HandlerId, bool)>;
        match &self.core.api_server {
            Option::None => {
                return Result::Err(CallError::NoActiveServer);
            },
            Option::Some(srv) => {
                found = find_route(&srv.routes, &service, &endpoint);
            },
        }
        match found {
            Option::None => Result::Err(CallError::EndpointNotFound),
            Option::Some(hb) => {
                let id = self.next_call_id;
                self.next_call_id = id + 1;
                self.pending.push(
                    Invocation { call_id: id, handler: hb.0, raw: hb.1, payload: data, source },
                );
                Result::Ok(id)
            },
        }
    }

    /// Host side of the task queue: the next invocation request to run on
    /// the host's scheduler, in arrival order, if one is waiting.
    pub fn take_invocation(&mut self) -> (r: Option<Invocation>)
        ensures
            final(self).core == old(self).core,
            final(self).next_call_id == old(self).next_call_id,
            old(self).pending@.len() == 0 ==> r is None && final(self).pending@ == old(
                self,
            ).pending@,
            old(self).pending@.len() > 0 ==> (r matches Some(inv) && inv == old(
                self,
            ).pending@.first() && final(self).pending@ == old(self).pending@.drop_first()),
    {
        if self.pending.len() == 0 {
            Option::None
        } else {
            let inv = self.pending.remove(0);
            proof {
                assert(old(self).pending@.remove(0) =~= old(self).pending@.drop_first());
            }
            Option::Some(inv)
        }
    }

    /// Caller side of the response slot: what the awaiting caller observes
    /// once the host callback has run. The callback's payload is returned
    /// unchanged in structure; a host-side failure is wrapped into a call
    /// error carrying its message.
    pub fn finish_call(outcome: CallOutcome) -> (r: Result<JSONPayload, CallError>)
        ensures
            r == finish_spec(outcome),
    {
        match outcome {
            CallOutcome::Success(p) => Result::Ok(p),
            CallOutcome::Failure(m) => Result::Err(CallError::HandlerFailure(m)),
        }
    }

    /// The version of the runtime core this handle wraps.
    pub fn version(&self) -> (v: &String)
        ensures
            v@ == self.core.version@,
    {
        &self.core.version
    }

    /// The source revision the wrapped runtime core was built from.
    pub fn build_commit(&self) -> (c: &String)
        ensures
            c@ == self.core.build_commit@,
    {
        &self.core.build_commit
    }

    /// A copy of the application metadata the core discovered at
    /// construction time.
    pub fn app_meta(&self) -> (m: AppMeta)
        ensures
            m == self.core.meta,
    {
        AppMeta {
            app_id: self.core.meta.app_id.clone(),
            api_base_url: self.core.meta.api_base_url.clone(),
        }
    }
}

} // verus!
