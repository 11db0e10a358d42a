//! The route table and the dispatcher: an ordered list of routes with
//! first-match-wins lookup, and the per-request decision between the CORS
//! preflight short-circuit, a matched handler, and the fallback.

use vstd::prelude::*;
use crate::config::Config;
use crate::http::{HttpMethod, Response, is_preflight_response, preflight_response};

verus! {

/// Which handler a route is bound to; the surrounding program maps each
/// variant to the code that does the work.
#[derive(Clone, Copy, PartialEq, Eq, Structural, Debug)]
pub enum HandlerRef {
    FontFiles,
}

/// A (method, path) pair bound to a handler. Immutable once registered;
/// matching is exact string equality, with no normalization and no wildcards.
#[derive(Debug)]
pub struct Route {
    pub method: HttpMethod,
    pub path: String,
    pub handler: HandlerRef,
}

/// Exact match of a route against a request's method and path.
pub open spec fn route_matches(r: Route, method: HttpMethod, path: Seq<char>) -> bool {
    r.method == method && r.path@ == path
}

/// The index of the first route that matches (method, path), scanning in
/// registration order; `None` when no route matches.
pub open spec fn spec_first_match(routes: Seq<Route>, method: HttpMethod, path: Seq<char>) -> Option<
    int,
>
    decreases routes.len(),
{
    if routes.len() == 0 {
        None
    } else if route_matches(routes[0], method, path) {
        Some(0int)
    } else {
        match spec_first_match(routes.drop_first(), method, path) {
            Some(i) => Some(i + 1),
            None => None,
        }
    }
}

/// Lookup returns the first registered match: when it answers `Some(i)`,
/// route `i` matches and no earlier route does, so registration order alone
/// decides between duplicate (method, path) registrations.
pub proof fn lemma_first_match_is_first(routes: Seq<Route>, method: HttpMethod, path: Seq<char>)
    ensures
        spec_first_match(routes, method, path) matches Some(i) ==> 0 <= i < routes.len()
            && route_matches(routes[i], method, path) && (forall|j: int|
            0 <= j < i ==> !route_matches(routes[j], method, path)),
    decreases routes.len(),
{
    if routes.len() > 0 && !route_matches(routes[0], method, path) {
        lemma_first_match_is_first(routes.drop_first(), method, path);
        assert forall|j: int|
            spec_first_match(routes, method, path) matches Some(i) && 0 <= j < i implies !route_matches(
            routes[j],
            method,
            path,
        ) by {
            if j > 0 {
                assert(routes.drop_first()[j - 1] == routes[j]);
            }
        }
    }
}

/// A matching route is never missed: when some route matches, lookup answers
/// `Some`, so the fallback never runs for a registered (method, path).
pub proof fn lemma_match_is_found(routes: Seq<Route>, method: HttpMethod, path: Seq<char>, i: int)
    requires
        0 <= i < routes.len(),
        route_matches(routes[i], method, path),
    ensures
        spec_first_match(routes, method, path) is Some,
    decreases routes.len(),
{
    if !route_matches(routes[0], method, path) {
        assert(routes.drop_first()[i - 1] == routes[i]);
        lemma_match_is_found(routes.drop_first(), method, path, i - 1);
    }
}

/// When no route matches, lookup answers `None`, so exactly the fallback runs.
pub proof fn lemma_no_match_none(routes: Seq<Route>, method: HttpMethod, path: Seq<char>)
    requires
        forall|j: int| 0 <= j < routes.len() ==> !route_matches(routes[j], method, path),
    ensures
        spec_first_match(routes, method, path) is None,
    decreases routes.len(),
{
    if routes.len() > 0 {
        assert forall|j: int| 0 <= j < routes.drop_first().len() implies !route_matches(
            routes.drop_first()[j],
            method,
            path,
        ) by {
            assert(routes.drop_first()[j] == routes[j + 1]);
        }
        lemma_no_match_none(routes.drop_first(), method, path);
    }
}

/// What the dispatcher decides for one request.
#[derive(Debug)]
pub enum Dispatch {
    /// The request was a CORS preflight; answer it directly with this response.
    Preflight(Response),
    /// A route matched; run its handler.
    Handler(HandlerRef),
    /// No route matched; run the fallback handler.
    Fallback,
}

/// The server core: the startup parameters and the ordered route table.
pub struct Server {
    pub config: Config,
    pub routes: Vec<Route>,
}

impl Server {
    /// A server with no routes yet.
    pub fn new(config: Config) -> (s: Server)
        ensures
            s.config == config,
            s.routes@ == Seq::<Route>::empty(),
    {
        Server { config, routes: Vec::new() }
    }

    /// Appends a route; registration order is preserved and decides ties.
    pub fn add_route(self, route: Route) -> (s: Server)
        ensures
            s.config == self.config,
            s.routes@ == self.routes@.push(route),
    {
        let mut s = self;
        s.routes.push(route);
        s
    }

    /// Scans the table in registration order and returns the index of the
    /// first route whose method and path both match exactly, or `None`.
    pub fn lookup(&self, method: HttpMethod, path: &String) -> (r: Option<usize>)
        ensures
            match r {
                Some(i) => i < self.routes@.len() && route_matches(
                    self.routes@[i as int],
                    method,
                    path@,
                ) && (forall|j: int|
                    0 <= j < i ==> !route_matches(self.routes@[j], method, path@))
                    && spec_first_match(self.routes@, method, path@) == Some(i as int),
                None => (forall|j: int|
                    0 <= j < self.routes@.len() ==> !route_matches(self.routes@[j], method, path@))
                    && spec_first_match(self.routes@, method, path@) is None,
            },
    {
        let mut i: usize = 0;
        while i < self.routes.len()
            invariant
                i <= self.routes@.len(),
                forall|j: int| 0 <= j < i ==> !route_matches(self.routes@[j], method, path@),
            decreases self.routes@.len() - i,
        {
            let route = &self.routes[i];
            if route.method == method && route.path == *path {
                proof {
                    lemma_match_is_found(self.routes@, method, path@, i as int);
                    lemma_first_match_is_first(self.routes@, method, path@);
                }
                return Some(i);
            }
            i += 1;
        }
        proof {
            lemma_no_match_none(self.routes@, method, path@);
        }
        None
    }

    /// The per-request decision. An `OPTIONS` request is answered with the
    /// fixed preflight response and never consults the route table; any other
    /// request goes to the first matching route's handler, or to the fallback
    /// when no route matches.
    pub fn dispatch(&self, method: HttpMethod, path: &String) -> (d: Dispatch)
        ensures
            method is Options ==> (d matches Dispatch::Preflight(r) && is_preflight_response(r)),
            !(method is Options) ==> match spec_first_match(self.routes@, method, path@) {
                Some(i) => d == Dispatch::Handler(self.routes@[i].handler),
                None => d == Dispatch::Fallback,
            },
    {
        if method == HttpMethod::Options {
            Dispatch::Preflight(preflight_response())
        } else {
            match self.lookup(method, path) {
                Some(i) => Dispatch::Handler(self.routes[i].handler),
                None => Dispatch::Fallback,
            }
        }
    }
}

} // verus!
