//! The ingress routing table: host -> exactly one of a static file root or
//! a local proxy port, last successful deploy wins; and the gateway's
//! per-request routing decision.

use vstd::prelude::*;
use crate::assoc::{assoc_find, lemma_assoc_push, spec_assoc};
use crate::strutil::{find_char, starts_with, spec_starts_with, str_eq};

verus! {

/// Where a host's traffic goes. An entry always carries a complete target:
/// there is no half-written state between "file root" and "proxy port".
#[derive(Debug)]
pub enum RouteTarget {
    /// Serve files from this directory root.
    StaticDir(String),
    /// Reverse-proxy to this local port.
    Port(u16),
}

/// The shared routing table. Entries are appended; the binding of a host is
/// the most recently appended entry, so the last successful deploy wins and
/// a host maps to exactly one complete target.
#[derive(Debug)]
pub struct GatewayState {
    pub routes: Vec<(String, RouteTarget)>,
}

/// The route bound to a host, if any.
pub open spec fn spec_route(s: GatewayState, host: Seq<char>) -> Option<RouteTarget> {
    spec_assoc(s.routes@, host)
}

impl GatewayState {
    /// An empty table: no host routes anywhere.
    pub fn new() -> (r: GatewayState)
        ensures
            r.routes@.len() == 0,
            forall|h: Seq<char>| spec_route(r, h) is None,
    {
        let r = GatewayState { routes: Vec::new() };
        proof {
            assert forall|h: Seq<char>| spec_route(r, h) is None by {
                assert(r.routes@.len() == 0);
            }
        }
        r
    }

    /// Registers a static site: `host` now serves files from `root`; every
    /// other host's route is untouched.
    pub fn set_static(&mut self, host: String, root: String)
        ensures
            final(self).routes@ == old(self).routes@.push((host, RouteTarget::StaticDir(root))),
            spec_route(*final(self), host@) == Some(RouteTarget::StaticDir(root)),
            forall|h: Seq<char>|
                h != host@ ==> spec_route(*final(self), h) == spec_route(*old(self), h),
    {
        let ghost entries = self.routes@;
        let ghost e = (host, RouteTarget::StaticDir(root));
        self.routes.push((host, RouteTarget::StaticDir(root)));
        proof {
            assert forall|h: Seq<char>| #![auto] spec_assoc(entries.push(e), h) == if e.0@ == h {
                Some(e.1)
            } else {
                spec_assoc(entries, h)
            } by {
                lemma_assoc_push(entries, e, h);
            }
        }
    }

    /// Registers a proxied app: `host` now forwards to `localhost:port`;
    /// every other host's route is untouched.
    pub fn set_proxy(&mut self, host: String, port: u16)
        ensures
            final(self).routes@ == old(self).routes@.push((host, RouteTarget::Port(port))),
            spec_route(*final(self), host@) == Some(RouteTarget::Port(port)),
            forall|h: Seq<char>|
                h != host@ ==> spec_route(*final(self), h) == spec_route(*old(self), h),
    {
        let ghost entries = self.routes@;
        let ghost e = (host, RouteTarget::Port(port));
        self.routes.push((host, RouteTarget::Port(port)));
        proof {
            assert forall|h: Seq<char>| #![auto] spec_assoc(entries.push(e), h) == if e.0@ == h {
                Some(e.1)
            } else {
                spec_assoc(entries, h)
            } by {
                lemma_assoc_push(entries, e, h);
            }
        }
    }
}

/// Every observable state of the table binds each host to one complete
/// target or none: a registration flips a host atomically from its old
/// binding to the new one, and no third, partial state exists in between.
pub proof fn lemma_registration_atomic(
    before: GatewayState,
    after: GatewayState,
    host: Seq<char>,
    target: RouteTarget,
    h: Seq<char>,
)
    requires
        after.routes@.len() > 0,
        after.routes@ == before.routes@.push(after.routes@.last()),
        after.routes@.last().0@ == host,
        after.routes@.last().1 == target,
    ensures
        spec_route(after, h) == if h == host {
            Some(target)
        } else {
            spec_route(before, h)
        },
{
    lemma_assoc_push(before.routes@, after.routes@.last(), h);
}

/// The host header with any `:port` suffix removed.
pub open spec fn spec_host_of(s: Seq<char>) -> Seq<char>
    decreases s.len(),
{
    if s.len() == 0 {
        Seq::empty()
    } else if s[0] == ':' {
        Seq::empty()
    } else {
        seq![s[0]] + spec_host_of(s.drop_first())
    }
}

proof fn lemma_host_of_prefix(s: Seq<char>, i: int)
    requires
        0 <= i <= s.len(),
        forall|j: int| 0 <= j < i ==> s[j] != ':',
        i == s.len() || s[i] == ':',
    ensures
        spec_host_of(s) == s.take(i),
    decreases i,
{
    if s.len() == 0 {
        assert(s.take(i) =~= Seq::<char>::empty());
    } else if i == 0 {
        assert(s.take(0) =~= Seq::<char>::empty());
    } else {
        assert(s[0] != ':');
        lemma_host_of_prefix(s.drop_first(), i - 1);
        assert(seq![s[0]] + s.drop_first().take(i - 1) =~= s.take(i));
    }
}

/// Strips the port suffix from a host header: everything before the first
/// `:`, or the whole header when it has none.
pub fn host_without_port(header: &str) -> (r: String)
    ensures
        r@ == spec_host_of(header@),
{
    match find_char(header, ':') {
        Some(i) => {
            proof {
                lemma_host_of_prefix(header@, i as int);
            }
            let piece = header.substring_char(0, i);
            proof {
                assert(header@.subrange(0, i as int) =~= header@.take(i as int));
            }
            piece.to_owned()
        },
        None => {
            proof {
                lemma_host_of_prefix(header@, header@.len() as int);
                assert(header@.take(header@.len() as int) =~= header@);
            }
            header.to_owned()
        },
    }
}

/// What the gateway does with one inbound request.
#[derive(Debug)]
pub enum RouteDecision {
    /// A reserved internal path: forward to the health registry's endpoint.
    HealthProxy,
    /// Serve files from this static root.
    ServeStatic(String),
    /// Reverse-proxy to this local port.
    ProxyTo(u16),
    /// No route for this host.
    NotFound,
}

/// The gateway's decision for a request: the reserved health prefix wins
/// over any host route; otherwise the table's binding for the host (port
/// suffix stripped) decides; an unbound host is not found.
pub fn route_request(state: &GatewayState, host_header: &str, path: &str) -> (r: RouteDecision)
    ensures
        spec_starts_with(path@, "/health"@) ==> r is HealthProxy,
        !spec_starts_with(path@, "/health"@) ==> match spec_route(
            *state,
            spec_host_of(host_header@),
        ) {
            Some(RouteTarget::StaticDir(root)) => r matches RouteDecision::ServeStatic(x) && x@
                == root@,
            Some(RouteTarget::Port(p)) => r == RouteDecision::ProxyTo(p),
            None => r is NotFound,
        },
{
    if starts_with(path, "/health") {
        return RouteDecision::HealthProxy;
    }
    let host = host_without_port(host_header);
    match assoc_find(&state.routes, host.as_str()) {
        Some(i) => match &state.routes[i].1 {
            RouteTarget::StaticDir(root) => RouteDecision::ServeStatic(root.clone()),
            RouteTarget::Port(p) => RouteDecision::ProxyTo(*p),
        },
        None => RouteDecision::NotFound,
    }
}

} // verus!
