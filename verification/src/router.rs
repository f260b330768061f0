//! Routing of requests by path: a chain of routes, each with a pattern, that
//! ends in a router that answers "not found".

pub mod empty_router;
pub mod future;
pub mod method_filter;
pub mod route;

use self::empty_router::EmptyRouter;
use self::route::{PathPattern, Route};
use vstd::prelude::*;

verus! {

/// A router around the service `S`.
#[derive(Debug)]
pub struct Router<S> {
    svc: S,
}

/// A maker of services that hands out copies of one service.
#[derive(Debug)]
pub struct IntoMakeService<S> {
    service: S,
}

impl Router<EmptyRouter> {
    /// A router that routes nothing yet: it answers "not found".
    pub fn new() -> (r: Router<EmptyRouter>)
        ensures
            r.service().status() == self::empty_router::NOT_FOUND,
    {
        Router { svc: EmptyRouter::not_found() }
    }
}

impl<S> Router<S> {
    /// The service inside the router.
    pub closed spec fn service(&self) -> S {
        self.svc
    }

    /// The service inside the router.
    pub fn svc(&self) -> (s: &S)
        ensures
            *s == self.service(),
    {
        &self.svc
    }

    /// Puts a route for `path` in front: requests whose path matches the
    /// pattern go to `svc`, all others to the router as it was.
    pub fn route<T>(self, path: &str, svc: T) -> (r: Router<Route<T, S>>)
        requires
            path@.len() > 0 && path@[0] == '/',
            self::route::regex_compiles(self::route::regex_source(path@)),
        ensures
            r.service().svc == svc,
            r.service().fallback == self.service(),
            r.service().pattern.source() == self::route::regex_source(path@),
            r.service().pattern.names() == self::route::parameter_names(path@),
    {
        Router { svc: Route { pattern: PathPattern::new(path), svc, fallback: self.svc } }
    }

    /// Like [`Router::route`], for any `path`: the route is added if `path`
    /// can be made a pattern, and otherwise the router comes back
    /// unchanged, together with `svc`.
    pub fn try_route<T>(self, path: &str, svc: T) -> (r: Result<Router<Route<T, S>>, (Router<S>, T)>)
        ensures
            match r {
                Ok(routed) => {
                    &&& PathPattern::acceptable(path@)
                    &&& routed.service().svc == svc
                    &&& routed.service().fallback == self.service()
                    &&& routed.service().pattern.source() == self::route::regex_source(path@)
                    &&& routed.service().pattern.names() == self::route::parameter_names(path@)
                },
                Err(back) => back == (self, svc) && !PathPattern::acceptable(path@),
            },
    {
        if PathPattern::accepts(path) {
            Ok(self.route(path, svc))
        } else {
            Err((self, svc))
        }
    }

    /// The router around the service that `f` makes of this router's
    /// service.
    pub fn map<F, S2>(self, f: F) -> (r: Router<S2>) where F: FnOnce(S) -> S2
        requires
            f.requires((self.service(),)),
        ensures
            f.ensures((self.service(),), r.service()),
    {
        Router { svc: f(self.svc) }
    }

    /// The maker of services that hands out this router's service.
    pub fn into_make_service(self) -> (m: IntoMakeService<S>)
        ensures
            m.inner() == self.service(),
    {
        IntoMakeService::new(self.svc)
    }
}

impl<S> IntoMakeService<S> {
    /// The service that is handed out.
    pub closed spec fn inner(&self) -> S {
        self.service
    }

    /// The maker that hands out `service`.
    pub fn new(service: S) -> (m: IntoMakeService<S>)
        ensures
            m.inner() == service,
    {
        IntoMakeService { service }
    }

    /// The service that is handed out.
    pub fn service(&self) -> (s: &S)
        ensures
            *s == self.inner(),
    {
        &self.service
    }
}

} // verus!
