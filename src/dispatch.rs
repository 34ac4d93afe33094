//! The resolution dispatcher, as a state machine: each step takes what a
//! backend answered and says which backend to ask next, or what the result is.
//! The caller performs each action and hands the answer back.

use vstd::prelude::*;

use crate::address::{
    direct_address, endpoints_view, Endpoint, EndpointView, Host, SocketAddress,
};
use crate::key::{host_of, host_part, is_public_key_name, parses_as_key};

verus! {

/// Why the endpoint resolution service gave no endpoints.
#[derive(Clone, Debug, PartialEq, Eq)]
pub enum EndpointResolutionError {
    /// The identifier has no registered endpoints.
    NotFound,
    /// The lookup failed; the service's message.
    Lookup(String),
}

pub enum EndpointErrorView {
    NotFound,
    Lookup(Seq<char>),
}

impl View for EndpointResolutionError {
    type V = EndpointErrorView;

    open spec fn view(&self) -> EndpointErrorView {
        match self {
            EndpointResolutionError::NotFound => EndpointErrorView::NotFound,
            EndpointResolutionError::Lookup(m) => EndpointErrorView::Lookup(m@),
        }
    }
}

/// Why a resolution failed.
#[derive(Clone, Debug, PartialEq, Eq)]
pub enum ResolveError {
    /// The endpoint resolution service failed, or found no endpoints.
    EndpointResolution(EndpointResolutionError),
    /// The system resolver failed; its message.
    HostResolution(String),
}

pub enum ResolveErrorView {
    EndpointResolution(EndpointErrorView),
    HostResolution(Seq<char>),
}

impl View for ResolveError {
    type V = ResolveErrorView;

    open spec fn view(&self) -> ResolveErrorView {
        match self {
            ResolveError::EndpointResolution(e) => ResolveErrorView::EndpointResolution(e@),
            ResolveError::HostResolution(m) => ResolveErrorView::HostResolution(m@),
        }
    }
}

/// What the caller is to do next.
#[derive(Debug)]
pub enum Action {
    /// Ask the endpoint resolution service for the endpoints of an identifier.
    ResolveEndpoint { identifier: String },
    /// Ask the system resolver for the addresses of `host` at `port`.
    LookupHost { host: String, port: u16 },
    /// The resolution is over, with this result.
    Finish { result: Result<Vec<SocketAddress>, ResolveError> },
}

pub enum ActionView {
    ResolveEndpoint { identifier: Seq<char> },
    LookupHost { host: Seq<char>, port: u16 },
    Finish { result: Result<Seq<SocketAddress>, ResolveErrorView> },
}

pub open spec fn result_view(r: Result<Vec<SocketAddress>, ResolveError>) -> Result<
    Seq<SocketAddress>,
    ResolveErrorView,
> {
    match r {
        Ok(v) => Ok(v@),
        Err(e) => Err(e@),
    }
}

impl View for Action {
    type V = ActionView;

    open spec fn view(&self) -> ActionView {
        match self {
            Action::ResolveEndpoint { identifier } => ActionView::ResolveEndpoint {
                identifier: identifier@,
            },
            Action::LookupHost { host, port } => ActionView::LookupHost { host: host@, port: *port },
            Action::Finish { result } => ActionView::Finish { result: result_view(*result) },
        }
    }
}

/// Where a resolution stands.
pub enum Resolution {
    /// Waiting for the endpoint resolution service.
    AwaitingEndpoints,
    /// Waiting for the system resolver to look up the domain of `endpoints[next]`;
    /// `found` holds the addresses of the endpoints before it.
    AwaitingHost { endpoints: Vec<Endpoint>, next: usize, found: Vec<SocketAddress> },
    /// Waiting for the system resolver to look up the name itself.
    AwaitingSystem,
    /// The resolution is over.
    Done,
}

pub enum ResolutionView {
    AwaitingEndpoints,
    AwaitingHost { endpoints: Seq<EndpointView>, next: int, found: Seq<SocketAddress> },
    AwaitingSystem,
    Done,
}

impl View for Resolution {
    type V = ResolutionView;

    open spec fn view(&self) -> ResolutionView {
        match self {
            Resolution::AwaitingEndpoints => ResolutionView::AwaitingEndpoints,
            Resolution::AwaitingHost { endpoints, next, found } => ResolutionView::AwaitingHost {
                endpoints: endpoints_view(endpoints@),
                next: *next as int,
                found: found@,
            },
            Resolution::AwaitingSystem => ResolutionView::AwaitingSystem,
            Resolution::Done => ResolutionView::Done,
        }
    }
}

pub open spec fn is_domain(e: EndpointView) -> bool {
    e.host is Domain
}

/// Whether a state is one that a resolution can be in: a host lookup waits
/// only on an endpoint with a domain.
pub open spec fn state_wf(s: ResolutionView) -> bool {
    match s {
        ResolutionView::AwaitingHost { endpoints, next, found } => 0 <= next < endpoints.len()
            && is_domain(endpoints[next]),
        _ => true,
    }
}

/// The first index from `from` on whose endpoint has a domain, or the length.
pub open spec fn next_domain(eps: Seq<EndpointView>, from: int) -> int
    decreases eps.len() - from,
{
    if from < 0 || from >= eps.len() {
        eps.len() as int
    } else if is_domain(eps[from]) {
        from
    } else {
        next_domain(eps, from + 1)
    }
}

/// The addresses of the endpoints in `eps[from..to]`, each an IP endpoint.
pub open spec fn direct_run(eps: Seq<EndpointView>, from: int, to: int) -> Seq<SocketAddress> {
    eps.subrange(from, to).map_values(|e: EndpointView| direct_address(e))
}

/// The step after the addresses `found` have been gathered from the endpoints
/// before `from`: the IP endpoints that follow are used directly, up to the next
/// domain, which is looked up at its own port; with none left the addresses are
/// the result.
pub open spec fn advance(eps: Seq<EndpointView>, from: int, found: Seq<SocketAddress>) -> (
    ResolutionView,
    ActionView,
) {
    let j = next_domain(eps, from);
    let all = found + direct_run(eps, from, j);
    if j < eps.len() {
        (
            ResolutionView::AwaitingHost { endpoints: eps, next: j, found: all },
            ActionView::LookupHost { host: eps[j].host->Domain_0, port: eps[j].port },
        )
    } else {
        (ResolutionView::Done, ActionView::Finish { result: Ok(all) })
    }
}

/// The first step for `name` and the requested `port`, given whether the name
/// parses as a public-key identifier.
pub open spec fn first_step(name: Seq<char>, port: u16, is_key: bool) -> (
    ResolutionView,
    ActionView,
) {
    if is_key {
        (ResolutionView::AwaitingEndpoints, ActionView::ResolveEndpoint { identifier: host_part(name) })
    } else {
        (ResolutionView::AwaitingSystem, ActionView::LookupHost { host: name, port })
    }
}

/// The step after the endpoint resolution service answered.
pub open spec fn endpoints_step(outcome: Result<Seq<EndpointView>, EndpointErrorView>) -> (
    ResolutionView,
    ActionView,
) {
    match outcome {
        Err(e) => (
            ResolutionView::Done,
            ActionView::Finish { result: Err(ResolveErrorView::EndpointResolution(e)) },
        ),
        Ok(eps) => if eps.len() == 0 {
            (
                ResolutionView::Done,
                ActionView::Finish {
                    result: Err(ResolveErrorView::EndpointResolution(EndpointErrorView::NotFound)),
                },
            )
        } else {
            advance(eps, 0, Seq::empty())
        },
    }
}

/// The step after the system resolver answered, in state `s`.
pub open spec fn host_step(s: ResolutionView, outcome: Result<Seq<SocketAddress>, Seq<char>>) -> (
    ResolutionView,
    ActionView,
) {
    match outcome {
        Err(m) => (
            ResolutionView::Done,
            ActionView::Finish { result: Err(ResolveErrorView::HostResolution(m)) },
        ),
        Ok(addrs) => match s {
            ResolutionView::AwaitingHost { endpoints, next, found } => advance(
                endpoints,
                next + 1,
                found + addrs,
            ),
            _ => (ResolutionView::Done, ActionView::Finish { result: Ok(addrs) }),
        },
    }
}

pub open spec fn endpoints_outcome_view(o: Result<Vec<Endpoint>, EndpointResolutionError>) -> Result<
    Seq<EndpointView>,
    EndpointErrorView,
> {
    match o {
        Ok(v) => Ok(endpoints_view(v@)),
        Err(e) => Err(e@),
    }
}

pub open spec fn host_outcome_view(o: Result<Vec<SocketAddress>, String>) -> Result<
    Seq<SocketAddress>,
    Seq<char>,
> {
    match o {
        Ok(v) => Ok(v@),
        Err(m) => Err(m@),
    }
}

/// Uses the IP endpoints of `endpoints` from `from` on directly, up to the next
/// domain, which is then to be looked up.
fn advance_from(endpoints: Vec<Endpoint>, from: usize, prior: Vec<SocketAddress>) -> (r: (
    Resolution,
    Action,
))
    requires
        from <= endpoints@.len(),
    ensures
        (r.0@, r.1@) == advance(endpoints_view(endpoints@), from as int, prior@),
        state_wf(r.0@),
{
    let ghost eps = endpoints_view(endpoints@);
    let ghost found0 = prior@;
    let mut found = prior;
    let mut i: usize = from;
    assert(eps.subrange(from as int, from as int).map_values(|e: EndpointView| direct_address(e))
        =~= Seq::<SocketAddress>::empty());
    assert(found@ =~= found0 + direct_run(eps, from as int, i as int));
    while i < endpoints.len()
        invariant
            from <= i <= endpoints@.len(),
            eps == endpoints_view(endpoints@),
            eps.len() == endpoints@.len(),
            found0 == prior@,
            next_domain(eps, from as int) == next_domain(eps, i as int),
            found@ == found0 + direct_run(eps, from as int, i as int),
        decreases endpoints@.len() - i,
    {
        let port = endpoints[i].port;
        let domain: Option<String> = match &endpoints[i].host {
            Host::Ip(ip) => {
                found.push(SocketAddress { ip: *ip, port });
                None
            },
            Host::Domain(d) => Some(d.as_str().to_owned()),
        };
        assert(domain matches Some(h) ==> endpoints@[i as int].host matches Host::Domain(d) && h@
            == d@);
        assert(eps[i as int] == endpoints@[i as int]@);
        match domain {
            Some(host) => {
                assert(next_domain(eps, i as int) == i);
                assert(host@ == eps[i as int].host->Domain_0);
                return (
                    Resolution::AwaitingHost { endpoints, next: i, found },
                    Action::LookupHost { host, port },
                );
            },
            None => {
                assert(direct_run(eps, from as int, i + 1) =~= direct_run(
                    eps,
                    from as int,
                    i as int,
                ).push(direct_address(eps[i as int])));
                i = i + 1;
            },
        }
    }
    (Resolution::Done, Action::Finish { result: Ok(found) })
}

/// The first step of resolving `name` at the requested `port`, where `is_key`
/// says whether the name's hostname portion parses as a public-key identifier:
/// an identifier goes to the endpoint resolution service, any other name, as
/// it stands, to the system resolver.
pub fn route(name: &str, port: u16, is_key: bool) -> (r: (Resolution, Action))
    ensures
        (r.0@, r.1@) == first_step(name@, port, is_key),
{
    if is_key {
        let identifier = host_of(name).to_owned();
        (Resolution::AwaitingEndpoints, Action::ResolveEndpoint { identifier })
    } else {
        (Resolution::AwaitingSystem, Action::LookupHost { host: name.to_owned(), port })
    }
}

/// Starts resolving `name` at the requested `port`.
pub fn begin(name: &str, port: u16) -> (r: (Resolution, Action))
    ensures
        (r.0@, r.1@) == first_step(name@, port, parses_as_key(name@)),
        state_wf(r.0@),
{
    let is_key = is_public_key_name(name);
    route(name, port, is_key)
}

impl Resolution {
    /// Takes the answer of the endpoint resolution service. A failure, or no
    /// endpoint at all, ends the resolution with an endpoint resolution error;
    /// otherwise the endpoints are taken in order.
    pub fn on_endpoints(self, outcome: Result<Vec<Endpoint>, EndpointResolutionError>) -> (r: (
        Resolution,
        Action,
    ))
        requires
            self@ is AwaitingEndpoints,
        ensures
            (r.0@, r.1@) == endpoints_step(endpoints_outcome_view(outcome)),
            state_wf(r.0@),
    {
        match outcome {
            Err(e) => (
                Resolution::Done,
                Action::Finish { result: Err(ResolveError::EndpointResolution(e)) },
            ),
            Ok(endpoints) => {
                if endpoints.len() == 0 {
                    (
                        Resolution::Done,
                        Action::Finish {
                            result: Err(
                                ResolveError::EndpointResolution(EndpointResolutionError::NotFound),
                            ),
                        },
                    )
                } else {
                    advance_from(endpoints, 0, Vec::new())
                }
            },
        }
    }

    /// Takes the answer of the system resolver. A failure ends the resolution
    /// with a host resolution error. The addresses of a name are the result;
    /// those of an endpoint's domain join the addresses found so far.
    pub fn on_host(self, outcome: Result<Vec<SocketAddress>, String>) -> (r: (Resolution, Action))
        requires
            state_wf(self@),
            self@ is AwaitingHost || self@ is AwaitingSystem,
        ensures
            (r.0@, r.1@) == host_step(self@, host_outcome_view(outcome)),
            state_wf(r.0@),
    {
        match outcome {
            Err(m) => (Resolution::Done, Action::Finish { result: Err(ResolveError::HostResolution(m)) }),
            Ok(addrs) => match self {
                Resolution::AwaitingHost { endpoints, next, found } => {
                    assert(endpoints_view(endpoints@).len() == endpoints@.len());
                    let count = endpoints.len();
                    assert(next < count);
                    let mut found = found;
                    let mut addrs = addrs;
                    found.append(&mut addrs);
                    advance_from(endpoints, next + 1, found)
                },
                _ => (Resolution::Done, Action::Finish { result: Ok(addrs) }),
            },
        }
    }
}

} // verus!
