use crate::accessors::APIRoute;
use crate::core_state::{
    has_route, lemma_push_fresh_key_preserves_wf, route_matches, routes_wf, CoreState, RouteEntry,
};
use crate::errors::{CallError, InitError};
use crate::lifecycle::{is_fresh_runtime, obtain_post, CellState};
use crate::payload::JSONPayload;
use crate::runtime::{
    can_deliver, entry_of, finish_spec, invocation_for, register_step, srv_view, CallOutcome,
    Invocation, Runtime,
};
use vstd::prelude::*;

verus! {

/// The outcome a caller of `obtain` observes, up to the failure message.
pub open spec fn obtain_outcome(r: Result<(), InitError>) -> Result<(), Seq<char>> {
    match r {
        Result::Ok(u) => Result::Ok(u),
        Result::Err(e) => Result::Err(e.message@),
    }
}

/// Exactly-once initialization: once the first non-test `obtain` call has
/// decided the cell, a later call leaves the cell exactly as the first
/// call left it — no further construction outcome is ever consumed — and
/// its caller observes the first caller's outcome, success or failure
/// alike, with the same failure message.
pub proof fn lemma_obtain_exactly_once(
    built: Result<CoreState, String>,
    post1: CellState,
    r1: Result<(), InitError>,
    b2: Result<CoreState, String>,
    post2: CellState,
    r2: Result<(), InitError>,
)
    requires
        obtain_post(CellState::Unset, built, post1, r1),
        obtain_post(post1, b2, post2, r2),
    ensures
        post2 == post1,
        obtain_outcome(r2) == obtain_outcome(r1),
{
}

/// A decided cell is permanent: two concurrent or later callers, whatever
/// construction outcomes they stand ready to perform, both leave the cell
/// untouched and observe the one cached outcome.
pub proof fn lemma_decided_cell_is_stable(
    pre: CellState,
    b1: Result<CoreState, String>,
    post1: CellState,
    r1: Result<(), InitError>,
    b2: Result<CoreState, String>,
    post2: CellState,
    r2: Result<(), InitError>,
)
    requires
        !(pre is Unset),
        obtain_post(pre, b1, post1, r1),
        obtain_post(pre, b2, post2, r2),
    ensures
        post1 == pre,
        post2 == pre,
        obtain_outcome(r1) == obtain_outcome(r2),
{
}

/// A test-mode handle is fresh: it wraps exactly the core constructed for
/// it, and as the core comes with an empty routing table, no endpoint of
/// the new handle delivers until this very handle registers one. Handles
/// own their state outright, so nothing a fresh handle registers is
/// visible through any other handle.
pub proof fn lemma_fresh_handle_has_no_routes(
    rt: Runtime,
    core: CoreState,
    service: Seq<char>,
    endpoint: Seq<char>,
)
    requires
        is_fresh_runtime(rt, core),
        (match core.api_server {
            Option::Some(s) => s.routes@.len() == 0,
            Option::None => true,
        }),
    ensures
        !can_deliver(srv_view(rt.core.api_server), service, endpoint),
{
}

/// Registering a handler for an endpoint and then invoking that endpoint
/// delivers the call to exactly the handler just registered, under its
/// calling convention, with the caller's payload unchanged; and a
/// successful callback response is observed by the endpoint's caller
/// unchanged in structure.
pub proof fn lemma_registered_call_round_trip(
    rs: Seq<RouteEntry>,
    route: APIRoute,
    post: Option<Seq<RouteEntry>>,
    call_id: u64,
    data: JSONPayload,
    source: Option<u64>,
    inv: Invocation,
    response: JSONPayload,
)
    requires
        routes_wf(rs),
        register_step(Option::Some(rs), route) == (post, true),
        post matches Some(rs2) && invocation_for(
            rs2,
            route.service@,
            route.name@,
            call_id,
            data,
            source,
            inv,
        ),
    ensures
        inv.handler == route.handler,
        inv.raw == route.raw,
        inv.payload == data,
        inv.call_id == call_id,
        inv.source == source,
        finish_spec(CallOutcome::Success(response)) == Result::<JSONPayload, CallError>::Ok(
            response,
        ),
{
    let rs2 = rs.push(entry_of(route));
    lemma_push_fresh_key_preserves_wf(rs, entry_of(route));
    let i = choose|i: int|
        0 <= i < rs2.len() && #[trigger] route_matches(rs2[i], route.service@, route.name@)
            && inv.handler == rs2[i].handler && inv.raw == rs2[i].raw && inv.call_id == call_id
            && inv.payload == data && inv.source == source;
    let last = rs.len() as int;
    assert(rs2[last] == entry_of(route));
    assert(route_matches(rs2[i], rs2[last].key.service@, rs2[last].key.endpoint@));
    assert(i == last);
}

/// A second registration under an already-taken endpoint key is rejected
/// by the core and changes nothing: the routing table keeps the first
/// registration, which remains active.
pub proof fn lemma_duplicate_registration_rejected(
    rs: Seq<RouteEntry>,
    r1: APIRoute,
    mid: Option<Seq<RouteEntry>>,
    r2: APIRoute,
)
    requires
        register_step(Option::Some(rs), r1) == (mid, true),
        r2.service@ == r1.service@,
        r2.name@ == r1.name@,
    ensures
        register_step(mid, r2) == (mid, false),
        mid matches Some(ms) && ms.len() == rs.len() + 1 && ms.last() == entry_of(r1),
{
    let ms = rs.push(entry_of(r1));
    let last = rs.len() as int;
    assert(route_matches(ms[last], r2.service@, r2.name@));
    assert(has_route(ms, r2.service@, r2.name@));
}

/// With no active API server, registration succeeds as a no-op, and the
/// accepted handler can never subsequently be invoked: no endpoint of
/// this core delivers.
pub proof fn lemma_no_server_registration_inert(
    route: APIRoute,
    service: Seq<char>,
    endpoint: Seq<char>,
)
    ensures
        register_step(Option::None, route) == (Option::<Seq<RouteEntry>>::None, true),
        !can_deliver(Option::None, service, endpoint),
{
}

} // verus!
