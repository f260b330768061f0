//! Handlers bound to request methods. A chain of [`OnMethod`] values tries
//! its filters in the order they were added last to first, and ends in a
//! router that answers "method not allowed".

use crate::router::empty_router::{EmptyRouter, METHOD_NOT_ALLOWED};
use crate::router::method_filter::{Method, MethodFilter};
use vstd::prelude::*;

verus! {

/// The trait that seals the handlers of this library.
pub trait HiddentTrait {

}

/// The type that seals the handlers of this library.
#[derive(Debug)]
pub struct Hidden;

impl HiddentTrait for Hidden {

}

/// A handler for the methods of a filter, with a fallback for all others.
#[derive(Debug)]
pub struct OnMethod<H, F> {
    pub method: MethodFilter,
    pub handler: H,
    pub fallback: F,
}

/// Who answers a request.
#[derive(Clone, Copy, Debug, PartialEq, Eq, Structural)]
pub enum Chosen {
    /// The handler of this link of the chain.
    Handler,
    /// The fallback of this link.
    Fallback,
}

/// `handler` for the methods of `method`, and "method not allowed" for all
/// others.
pub fn on<H>(method: MethodFilter, handler: H) -> (r: OnMethod<H, EmptyRouter>)
    ensures
        r.method == method,
        r.handler == handler,
        r.fallback.status() == METHOD_NOT_ALLOWED,
{
    OnMethod { method, handler, fallback: EmptyRouter::method_not_allowed() }
}

/// `handler` for `GET` and `HEAD` requests.
pub fn get<H>(handler: H) -> (r: OnMethod<H, EmptyRouter>)
    ensures
        forall|m: Method| r.method.contains(m) <==> m == Method::Get || m == Method::Head,
        r.handler == handler,
        r.fallback.status() == METHOD_NOT_ALLOWED,
{
    on(MethodFilter::only(Method::Get).or(MethodFilter::only(Method::Head)), handler)
}

/// `handler` for `POST` requests.
pub fn post<H>(handler: H) -> (r: OnMethod<H, EmptyRouter>)
    ensures
        forall|m: Method| r.method.contains(m) <==> m == Method::Post,
        r.handler == handler,
        r.fallback.status() == METHOD_NOT_ALLOWED,
{
    on(MethodFilter::only(Method::Post), handler)
}

impl<H, F> OnMethod<H, F> {
    /// Who answers a request with method `method`: the handler if the
    /// filter holds the method, the fallback otherwise.
    pub open spec fn chosen(&self, method: Method) -> Chosen {
        if self.method.contains(method) {
            Chosen::Handler
        } else {
            Chosen::Fallback
        }
    }

    /// Puts `handler` in front for the methods of `method`; the chain as it
    /// was answers all others.
    pub fn on<H2>(self, method: MethodFilter, handler: H2) -> (r: OnMethod<H2, OnMethod<H, F>>)
        ensures
            r.method == method,
            r.handler == handler,
            r.fallback == self,
    {
        OnMethod { method, handler, fallback: self }
    }

    /// Puts `handler` in front for every method that has a name.
    pub fn any<H2>(self, handler: H2) -> (r: OnMethod<H2, OnMethod<H, F>>)
        ensures
            forall|m: Method| r.method.contains(m) <==> m != Method::Other,
            r.handler == handler,
            r.fallback == self,
    {
        self.on(MethodFilter::all(), handler)
    }

    /// Puts `handler` in front for `CONNECT` requests.
    pub fn connect<H2>(self, handler: H2) -> (r: OnMethod<H2, OnMethod<H, F>>)
        ensures
            forall|m: Method| r.method.contains(m) <==> m == Method::Connect,
            r.handler == handler,
            r.fallback == self,
    {
        self.on(MethodFilter::only(Method::Connect), handler)
    }

    /// Puts `handler` in front for `DELETE` requests.
    pub fn delete<H2>(self, handler: H2) -> (r: OnMethod<H2, OnMethod<H, F>>)
        ensures
            forall|m: Method| r.method.contains(m) <==> m == Method::Delete,
            r.handler == handler,
            r.fallback == self,
    {
        self.on(MethodFilter::only(Method::Delete), handler)
    }

    /// Puts `handler` in front for `GET` and `HEAD` requests.
    pub fn get<H2>(self, handler: H2) -> (r: OnMethod<H2, OnMethod<H, F>>)
        ensures
            forall|m: Method| r.method.contains(m) <==> m == Method::Get || m == Method::Head,
            r.handler == handler,
            r.fallback == self,
    {
        self.on(MethodFilter::only(Method::Get).or(MethodFilter::only(Method::Head)), handler)
    }

    /// Puts `handler` in front for `HEAD` requests.
    pub fn head<H2>(self, handler: H2) -> (r: OnMethod<H2, OnMethod<H, F>>)
        ensures
            forall|m: Method| r.method.contains(m) <==> m == Method::Head,
            r.handler == handler,
            r.fallback == self,
    {
        self.on(MethodFilter::only(Method::Head), handler)
    }

    /// Puts `handler` in front for `OPTIONS` requests.
    pub fn options<H2>(self, handler: H2) -> (r: OnMethod<H2, OnMethod<H, F>>)
        ensures
            forall|m: Method| r.method.contains(m) <==> m == Method::Options,
            r.handler == handler,
            r.fallback == self,
    {
        self.on(MethodFilter::only(Method::Options), handler)
    }

    /// Puts `handler` in front for `PATCH` requests.
    pub fn patch<H2>(self, handler: H2) -> (r: OnMethod<H2, OnMethod<H, F>>)
        ensures
            forall|m: Method| r.method.contains(m) <==> m == Method::Patch,
            r.handler == handler,
            r.fallback == self,
    {
        self.on(MethodFilter::only(Method::Patch), handler)
    }

    /// Puts `handler` in front for `POST` requests.
    pub fn post<H2>(self, handler: H2) -> (r: OnMethod<H2, OnMethod<H, F>>)
        ensures
            forall|m: Method| r.method.contains(m) <==> m == Method::Post,
            r.handler == handler,
            r.fallback == self,
    {
        self.on(MethodFilter::only(Method::Post), handler)
    }

    /// Puts `handler` in front for `PUT` requests.
    pub fn put<H2>(self, handler: H2) -> (r: OnMethod<H2, OnMethod<H, F>>)
        ensures
            forall|m: Method| r.method.contains(m) <==> m == Method::Put,
            r.handler == handler,
            r.fallback == self,
    {
        self.on(MethodFilter::only(Method::Put), handler)
    }

    /// Puts `handler` in front for `TRACE` requests.
    pub fn trace<H2>(self, handler: H2) -> (r: OnMethod<H2, OnMethod<H, F>>)
        ensures
            forall|m: Method| r.method.contains(m) <==> m == Method::Trace,
            r.handler == handler,
            r.fallback == self,
    {
        self.on(MethodFilter::only(Method::Trace), handler)
    }

    /// Who answers a request with method `method`.
    pub fn call(&self, method: Method) -> (c: Chosen)
        ensures
            c == self.chosen(method),
    {
        if self.method.matches(method) {
            Chosen::Handler
        } else {
            Chosen::Fallback
        }
    }
}

/// The handler added last is asked first: whatever the chain behind it
/// holds, a request whose method is in the newest filter goes to the newest
/// handler.
pub proof fn lemma_last_added_wins<H, F, H2>(
    chain: OnMethod<H, F>,
    method: MethodFilter,
    handler: H2,
    request: Method,
)
    ensures
        (OnMethod { method, handler, fallback: chain }).chosen(request) == if method.contains(
            request,
        ) {
            Chosen::Handler
        } else {
            Chosen::Fallback
        },
{
}

} // verus!
