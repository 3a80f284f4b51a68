//! The handler capability.

use std::future::Future;
use vstd::prelude::*;

verus! {

/// Something that takes one request and hands back the future of its
/// response, or of the error it fails with.
///
/// A runtime that holds a `Service` needs to know nothing else of the
/// handler behind it. The three spec functions are the handler's contract:
/// which requests it may be called with, which futures it may answer a
/// request with, and what it may be once it has done so.
pub trait Service<Req> {
    /// What the future resolves to when the handler succeeds.
    type Response;

    /// What the future resolves to when the handler fails.
    type Error;

    /// The future that `call` returns.
    type Future: Future<Output = Result<Self::Response, Self::Error>>;

    /// Whether the handler may be called with `req`.
    spec fn accepts(&self, req: Req) -> bool;

    /// Whether `fut` is a future that the handler may return for `req`.
    spec fn responds(&self, req: Req, fut: Self::Future) -> bool;

    /// Whether the handler may be `next` after it has handled `req`.
    spec fn becomes(&self, req: Req, next: &Self) -> bool;

    /// Handles one request.
    fn call(&mut self, req: Req) -> (fut: Self::Future)
        requires
            old(self).accepts(req),
        ensures
            old(self).responds(req, fut),
            old(self).becomes(req, final(self)),
    ;
}

} // verus!
