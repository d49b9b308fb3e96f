use crate::names::{EndpointName, SubName};
use vstd::prelude::*;

verus! {

/// The host-side reference to one host callback. The host keeps the real
/// callback objects on its own scheduler; the bridge stores and hands back
/// only this reference.
pub type HandlerId = u64;

/// One registered API route: the endpoint key, the wrapped host callback,
/// and its calling convention (raw bytes when `raw` is set, structured JSON
/// otherwise). Built from an `APIRoute` at registration time.
pub struct RouteEntry {
    pub key: EndpointName,
    pub handler: HandlerId,
    pub raw: bool,
}

/// The core's API server and its routing table. A core that only handles
/// background work has no server at all.
pub struct ApiServer {
    pub routes: Vec<RouteEntry>,
}

/// Application metadata the core discovered at construction time.
pub struct AppMeta {
    pub app_id: String,
    pub api_base_url: String,
}

/// The assembled runtime core as the bridge sees it: the registries that
/// accessor objects reference into. Construction itself (metadata
/// autodetection, configuration load, broker and pool setup) belongs to the
/// external core; the bridge receives the assembled state.
pub struct CoreState {
    pub test_mode: bool,
    pub api_server: Option<ApiServer>,
    pub topics: Vec<String>,
    pub subscriptions: Vec<SubName>,
    pub gateways: Vec<String>,
    pub secrets: Vec<String>,
    pub meta: AppMeta,
    pub version: String,
    pub build_commit: String,
}

/// The route at index `i` is registered under exactly this service/endpoint
/// pair.
pub open spec fn route_matches(r: RouteEntry, service: Seq<char>, endpoint: Seq<char>) -> bool {
    r.key.service@ == service && r.key.endpoint@ == endpoint
}

/// Some route in `routes` is registered under this service/endpoint pair.
pub open spec fn has_route(routes: Seq<RouteEntry>, service: Seq<char>, endpoint: Seq<char>) -> bool {
    exists|i: int| 0 <= i < routes.len() && route_matches(routes[i], service, endpoint)
}

/// No two routes share an endpoint key. Registration rejects duplicates, so
/// every routing table the bridge builds satisfies this.
pub open spec fn routes_wf(routes: Seq<RouteEntry>) -> bool {
    forall|i: int, j: int|
        0 <= i < routes.len() && 0 <= j < routes.len()
            && #[trigger] route_matches(routes[i], routes[j].key.service@, routes[j].key.endpoint@)
            ==> i == j
}

/// Appending a route under an endpoint key that is not yet registered
/// keeps endpoint keys unique.
pub proof fn lemma_push_fresh_key_preserves_wf(rs: Seq<RouteEntry>, entry: RouteEntry)
    requires
        routes_wf(rs),
        !has_route(rs, entry.key.service@, entry.key.endpoint@),
    ensures
        routes_wf(rs.push(entry)),
{
    let rs2 = rs.push(entry);
    assert forall|i: int, j: int|
        0 <= i < rs2.len() && 0 <= j < rs2.len() && #[trigger] route_matches(
            rs2[i],
            rs2[j].key.service@,
            rs2[j].key.endpoint@,
        ) implies i == j by {
        if i < rs.len() && j < rs.len() {
            assert(route_matches(rs[i], rs[j].key.service@, rs[j].key.endpoint@));
        } else if i < rs.len() && j == rs.len() {
            assert(route_matches(rs[i], entry.key.service@, entry.key.endpoint@));
        } else if i == rs.len() && j < rs.len() {
            assert(route_matches(rs[j], entry.key.service@, entry.key.endpoint@));
        }
    }
}

/// The name is one of the declared names in `names`.
pub open spec fn has_name(names: Seq<String>, name: Seq<char>) -> bool {
    exists|i: int| 0 <= i < names.len() && #[trigger] names[i]@ == name
}

/// The (topic, subscription) pair is declared in the service's topology.
pub open spec fn has_sub(subs: Seq<SubName>, topic: Seq<char>, subscription: Seq<char>) -> bool {
    exists|i: int|
        0 <= i < subs.len() && #[trigger] subs[i].topic@ == topic
            && subs[i].subscription@ == subscription
}

} // verus!
