//! Laws of the dispatcher, stated over the steps' specifications.

use vstd::prelude::*;

use crate::address::{direct_address, EndpointView, HostView, SocketAddress};
use crate::dispatch::{
    advance, direct_run, endpoints_step, first_step, host_step, is_domain, next_domain, state_wf,
    ActionView, EndpointErrorView, ResolutionView,
};
use crate::key::{host_part, parses_as_key};

verus! {

proof fn lemma_next_domain_bounds(eps: Seq<EndpointView>, from: int)
    requires
        0 <= from <= eps.len(),
    ensures
        from <= next_domain(eps, from) <= eps.len(),
        next_domain(eps, from) < eps.len() ==> is_domain(eps[next_domain(eps, from)]),
        forall|k: int| from <= k < next_domain(eps, from) ==> !is_domain(#[trigger] eps[k]),
    decreases eps.len() - from,
{
    if from < eps.len() && !is_domain(eps[from]) {
        lemma_next_domain_bounds(eps, from + 1);
    }
}

/// What every step over the endpoints does: it ends, or it asks the system
/// resolver for the domain of one of the endpoints, at that endpoint's port.
proof fn lemma_advance_asks_for_endpoint_domain(
    eps: Seq<EndpointView>,
    from: int,
    found: Seq<SocketAddress>,
)
    requires
        0 <= from <= eps.len(),
    ensures
        state_wf(advance(eps, from, found).0),
        advance(eps, from, found).1 is Finish || advance(eps, from, found).1 is LookupHost,
        advance(eps, from, found).1 matches ActionView::LookupHost { host, port } ==> exists|i: int|
            0 <= i < eps.len() && #[trigger] eps[i] == (EndpointView {
                host: HostView::Domain(host),
                port,
            }),
{
    lemma_next_domain_bounds(eps, from);
    let j = next_domain(eps, from);
    if j < eps.len() {
        assert(eps[j] == (EndpointView { host: HostView::Domain(eps[j].host->Domain_0), port: eps[j].port }));
    }
}

/// A name whose hostname portion parses as a public-key identifier goes to the
/// endpoint resolution service, with that identifier, and not to the system
/// resolver. Whatever the service answers, the system resolver is then asked
/// only for the domain of a returned endpoint, at that endpoint's own port, and
/// never for the name.
pub proof fn identifier_goes_to_endpoint_service(
    name: Seq<char>,
    port: u16,
    outcome: Result<Seq<EndpointView>, EndpointErrorView>,
)
    requires
        parses_as_key(name),
    ensures
        first_step(name, port, parses_as_key(name)) == (
            ResolutionView::AwaitingEndpoints,
            ActionView::ResolveEndpoint { identifier: host_part(name) },
        ),
        state_wf(endpoints_step(outcome).0),
        endpoints_step(outcome).1 is Finish || endpoints_step(outcome).1 is LookupHost,
        endpoints_step(outcome).1 matches ActionView::LookupHost { host, port: p } ==> outcome
            matches Ok(eps) && exists|i: int|
            0 <= i < eps.len() && #[trigger] eps[i] == (EndpointView {
                host: HostView::Domain(host),
                port: p,
            }),
{
    if let Ok(eps) = outcome {
        if eps.len() > 0 {
            lemma_advance_asks_for_endpoint_domain(eps, 0, Seq::empty());
        }
    }
}

/// Once an identifier's endpoints are being looked up, each answer of the
/// system resolver leads to the end or to a lookup of the domain of one of the
/// same endpoints, at that endpoint's port; never to the endpoint resolution
/// service.
pub proof fn endpoint_lookups_stay_on_endpoints(
    s: ResolutionView,
    outcome: Result<Seq<SocketAddress>, Seq<char>>,
)
    requires
        s is AwaitingHost,
        state_wf(s),
    ensures
        state_wf(host_step(s, outcome).0),
        host_step(s, outcome).1 is Finish || host_step(s, outcome).1 is LookupHost,
        host_step(s, outcome).1 matches ActionView::LookupHost { host, port } ==> exists|i: int|
            0 <= i < s->AwaitingHost_endpoints.len() && #[trigger] s->AwaitingHost_endpoints[i]
                == (EndpointView { host: HostView::Domain(host), port }),
{
    if let Ok(addrs) = outcome {
        if let ResolutionView::AwaitingHost { endpoints, next, found } = s {
            lemma_advance_asks_for_endpoint_domain(endpoints, next + 1, found + addrs);
        }
    }
}

/// A name whose hostname portion does not parse as a public-key identifier goes
/// to the system resolver, with the name and the requested port unchanged, and
/// its answer ends the resolution: the endpoint resolution service is never
/// asked.
pub proof fn hostname_goes_to_system_resolver(
    name: Seq<char>,
    port: u16,
    outcome: Result<Seq<SocketAddress>, Seq<char>>,
)
    requires
        !parses_as_key(name),
    ensures
        first_step(name, port, parses_as_key(name)) == (
            ResolutionView::AwaitingSystem,
            ActionView::LookupHost { host: name, port },
        ),
        host_step(ResolutionView::AwaitingSystem, outcome).0 == ResolutionView::Done,
        host_step(ResolutionView::AwaitingSystem, outcome).1 == (ActionView::Finish {
            result: match outcome {
                Ok(addrs) => Ok(addrs),
                Err(m) => Err(crate::dispatch::ResolveErrorView::HostResolution(m)),
            },
        }),
{
}

/// Endpoints that are all IP addresses resolve, in one step, to exactly their
/// socket addresses in the order given; so the same endpoints give the same
/// addresses each time.
pub proof fn direct_endpoints_resolve_to_their_addresses(eps: Seq<EndpointView>)
    requires
        eps.len() > 0,
        forall|k: int| 0 <= k < eps.len() ==> !is_domain(#[trigger] eps[k]),
    ensures
        endpoints_step(Ok(eps)) == (
            ResolutionView::Done,
            ActionView::Finish {
                result: Ok(eps.map_values(|e: EndpointView| direct_address(e))),
            },
        ),
{
    lemma_next_domain_bounds(eps, 0);
    if next_domain(eps, 0) < eps.len() {
        assert(is_domain(eps[next_domain(eps, 0)]));
    }
    assert(eps.subrange(0, eps.len() as int) =~= eps);
    assert(Seq::<SocketAddress>::empty() + direct_run(eps, 0, eps.len() as int) =~= eps.map_values(
        |e: EndpointView| direct_address(e),
    ));
}

/// An identifier whose first endpoint has a domain host leads to a system
/// resolver lookup of that domain at the endpoint's port, not at the requested
/// port.
pub proof fn domain_endpoint_looked_up_at_its_port(eps: Seq<EndpointView>)
    requires
        eps.len() > 0,
        is_domain(eps[0]),
    ensures
        endpoints_step(Ok(eps)).1 == (ActionView::LookupHost {
            host: eps[0].host->Domain_0,
            port: eps[0].port,
        }),
{
}

} // verus!
