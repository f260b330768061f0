//! The answer of a route as a computation in two phases: first the route's
//! own service is asked; if that service could not route the request, the
//! request goes to the fallback.

use crate::executor::Poll;
use crate::router::empty_router::FromEmptyRouter;
use vstd::prelude::*;

verus! {

/// Where the answer of a route stands.
#[derive(Debug, PartialEq, Eq)]
pub enum RouteFuture<F> {
    /// The route's own service is being asked. The fallback is kept for
    /// the case that it cannot answer.
    A { fallback: Option<F> },
    /// The fallback is being asked.
    B,
}

/// What resuming the service that is being asked reported: whether it is
/// done, and if it answered, the answer and, if the answer came from an
/// empty router, the request that router handed back.
pub type Asked<R, Q, E> = Poll<Result<(R, Option<FromEmptyRouter<Q>>), E>>;

/// What the answer of a route does after the service it asked was resumed.
#[derive(Debug, PartialEq, Eq)]
pub enum RouteStep<F, R, Q, E> {
    /// The service is still at work; the route stays as it is.
    Pending(RouteFuture<F>),
    /// The route is done, with this answer or error.
    Ready(Result<(R, Option<FromEmptyRouter<Q>>), E>),
    /// The route's own service could not route the request: hand `request`
    /// to `fallback`, and resume that from now on.
    Fallback { fallback: F, request: Q },
}

impl<F> RouteFuture<F> {
    /// The answer of a route whose own service is asked first.
    pub fn a(fallback: F) -> (r: RouteFuture<F>)
        ensures
            r == (RouteFuture::A { fallback: Some(fallback) }),
    {
        RouteFuture::A { fallback: Some(fallback) }
    }

    /// The answer of a route whose fallback is asked at once.
    pub fn b() -> (r: RouteFuture<F>)
        ensures
            r == RouteFuture::<F>::B,
    {
        RouteFuture::B
    }

    /// Whether the route still has its fallback to hand a request to.
    pub open spec fn can_fall_back(&self) -> bool {
        self matches RouteFuture::A { fallback: Some(_) }
    }

    /// One resume. In the first phase, an error ends the route, an answer
    /// that did not come from an empty router is the route's answer, and an
    /// answer that did hands the request to the fallback. In the second
    /// phase, whatever the fallback reports is the route's report.
    pub fn poll<R, Q, E>(self, asked: Asked<R, Q, E>) -> (step: RouteStep<F, R, Q, E>)
        requires
            (self is A && (asked matches Poll::Ready(Ok((_, Some(_)))))) ==> self.can_fall_back(),
        ensures
            step == match asked {
                Poll::Pending => RouteStep::Pending(self),
                Poll::Ready(Err(e)) => RouteStep::Ready(Err(e)),
                Poll::Ready(Ok((response, unrouted))) => match (self, unrouted) {
                    (RouteFuture::A { fallback }, Some(from)) => RouteStep::Fallback {
                        fallback: fallback->Some_0,
                        request: from.request,
                    },
                    _ => RouteStep::Ready(Ok((response, unrouted))),
                },
            },
    {
        match asked {
            Poll::Pending => RouteStep::Pending(self),
            Poll::Ready(Err(e)) => RouteStep::Ready(Err(e)),
            Poll::Ready(Ok((response, unrouted))) => match self {
                RouteFuture::A { fallback } => match unrouted {
                    Some(from) => RouteStep::Fallback {
                        fallback: fallback.unwrap(),
                        request: from.request,
                    },
                    None => RouteStep::Ready(Ok((response, None))),
                },
                RouteFuture::B => RouteStep::Ready(Ok((response, unrouted))),
            },
        }
    }
}

} // verus!
