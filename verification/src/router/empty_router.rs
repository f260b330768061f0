//! The router at the end of every chain: it routes nothing and answers with
//! a fixed status.

use vstd::prelude::*;

verus! {

/// The status "not found".
pub const NOT_FOUND: u16 = 404;

/// The status "method not allowed".
pub const METHOD_NOT_ALLOWED: u16 = 405;

/// A router that answers every request with its status.
#[derive(Clone, Copy, Debug, PartialEq, Eq, Structural)]
pub struct EmptyRouter {
    status: u16,
}

/// What an [`EmptyRouter`] attaches to its answer: the request it could not
/// route, so that a route further up can hand it to its fallback.
#[derive(Debug, PartialEq, Eq)]
pub struct FromEmptyRouter<B> {
    pub request: B,
}

/// The answer of an [`EmptyRouter`].
#[derive(Debug, PartialEq, Eq)]
pub struct EmptyResponse<B> {
    /// The status of the answer.
    pub status: u16,
    /// Whether the request, as it is handed back, is marked as one for which
    /// a path matched but no method did.
    pub no_method_match: bool,
    /// The request, handed back.
    pub from_empty_router: FromEmptyRouter<B>,
}

/// The status an empty router with status `status` answers with, for a
/// request that is marked (`marked`) or not as having matched a path but no
/// method: a router for "method not allowed" answers so; a router for "not
/// found" answers "method not allowed" for a marked request.
pub open spec fn answer_status(status: u16, marked: bool) -> u16 {
    if status == NOT_FOUND && marked {
        METHOD_NOT_ALLOWED
    } else {
        status
    }
}

impl EmptyRouter {
    /// The status the router answers with.
    pub closed spec fn status(&self) -> u16 {
        self.status
    }

    /// The router that answers "not found".
    pub fn not_found() -> (r: EmptyRouter)
        ensures
            r.status() == NOT_FOUND,
    {
        EmptyRouter { status: NOT_FOUND }
    }

    /// The router that answers "method not allowed".
    pub fn method_not_allowed() -> (r: EmptyRouter)
        ensures
            r.status() == METHOD_NOT_ALLOWED,
    {
        EmptyRouter { status: METHOD_NOT_ALLOWED }
    }

    /// The status the router answers with.
    pub fn code(&self) -> (status: u16)
        ensures
            status == self.status(),
    {
        self.status
    }

    /// Answers `request`. `marked` says whether the request is marked as
    /// one for which a path matched but no method did. A router for "method
    /// not allowed" sets the mark. A router for "not found" that meets the
    /// mark becomes a router for "method not allowed", and stays one. The
    /// answer carries the router's status and the request.
    pub fn call<B>(&mut self, request: B, marked: bool) -> (response: EmptyResponse<B>)
        ensures
            response.status == answer_status(old(self).status(), marked),
            response.no_method_match == (marked || old(self).status() == METHOD_NOT_ALLOWED),
            response.from_empty_router.request == request,
            final(self).status() == response.status,
    {
        let mut no_method_match: bool = marked;
        if self.status == METHOD_NOT_ALLOWED {
            no_method_match = true;
        }
        if self.status == NOT_FOUND && no_method_match {
            self.status = METHOD_NOT_ALLOWED;
        }
        EmptyResponse {
            status: self.status,
            no_method_match,
            from_empty_router: FromEmptyRouter { request },
        }
    }
}

} // verus!
