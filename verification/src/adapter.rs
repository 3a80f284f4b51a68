//! The adapter from a callable to a [`Service`].

use crate::body::Body;
use crate::error::unified;
use crate::format::{write_text, written};
use crate::message::{Request, Response};
use crate::service::Service;
use std::future::Future;
use std::marker::PhantomData;
use vstd::future::FutureAdditionalSpecFns;
use vstd::prelude::*;
use vstd::std_specs::convert::IntoSpec;

verus! {

/// A [`Service`] made of a callable. [`service_fn`] makes one.
///
/// The adapter owns its callable and holds nothing else.
pub struct ServiceFn<F, R> {
    f: F,
    _req: PhantomData<R>,
}

impl<F, R> ServiceFn<F, R> {
    /// The callable that the adapter wraps.
    pub closed spec fn callable(&self) -> F {
        self.f
    }
}

/// Wraps `f`, a callable from a request to the future of a response, into a
/// [`Service`].
pub fn service_fn<F, R, S>(f: F) -> (service: ServiceFn<F, R>) where
    F: FnMut(Request<R>) -> S,
    S: Future,

    ensures
        service.callable() == f,
{
    ServiceFn { f, _req: PhantomData }
}

impl<F, ReqBody, Ret, ResBody, E> Service<Request<ReqBody>> for ServiceFn<F, ReqBody> where
    F: FnMut(Request<ReqBody>) -> Ret,
    ReqBody: Body,
    Ret: Future<Output = Result<Response<ResBody>, E>>,
    ResBody: Body,
 {
    type Response = Response<ResBody>;

    type Error = E;

    type Future = Ret;

    /// The adapter may be called with the requests that its callable may be
    /// called with.
    open spec fn accepts(&self, req: Request<ReqBody>) -> bool {
        call_requires(self.callable(), (req,))
    }

    /// The adapter answers with the futures that its callable answers with.
    open spec fn responds(&self, req: Request<ReqBody>, fut: Ret) -> bool {
        call_ensures(self.callable(), (req,), fut)
    }

    /// The adapter stays what it is.
    open spec fn becomes(&self, req: Request<ReqBody>, next: &Self) -> bool {
        *next == *self
    }

    /// Hands `req` to the callable and returns the callable's future as it
    /// is: nothing is buffered, retried or changed on the way, and no error
    /// comes from the adapter itself.
    ///
    /// Verified code cannot yet tell a callable that changes what it has
    /// captured from one that does not: to it a callable is the same value
    /// after a call. The adapter adds no state of its own, so it is
    /// afterwards what it was before.
    fn call(&mut self, req: Request<ReqBody>) -> (fut: Ret)
        ensures
            call_ensures(old(self).callable(), (req,), fut),
            *final(self) == *old(self),
    {
        (self.f)(req)
    }
}

impl<F, R> Clone for ServiceFn<F, R> where F: Clone {
    /// Duplicates the callable: the copy wraps a clone of it.
    fn clone(&self) -> (copy: Self)
        ensures
            cloned(self.callable(), copy.callable()),
    {
        ServiceFn { f: self.f.clone(), _req: PhantomData }
    }
}

impl<F, R> std::fmt::Debug for ServiceFn<F, R> {
    /// Writes `impl Service` and nothing of the callable, which need not be
    /// printable. Whether the write succeeds is up to the sink.
    fn fmt(&self, f: &mut std::fmt::Formatter<'_>) -> (done: Result<(), std::fmt::Error>)
        ensures
            done is Ok ==> written(*final(f)) == written(*old(f)) + "impl Service"@,
    {
        write_text(f, "impl Service")
    }
}

impl<F, R> Copy for ServiceFn<F, R> where F: Copy {

}

/// An adapter is its callable and nothing more: two adapters that wrap equal
/// callables are equal.
pub proof fn lemma_callable_determines_adapter<F, R>(a: ServiceFn<F, R>, b: ServiceFn<F, R>)
    requires
        a.callable() == b.callable(),
    ensures
        a == b,
{
}

/// Pure delegation: an adapter made of `f` may be called exactly when `f` may
/// be, the futures it may return for a request are exactly those that `f`
/// may return for it, and it is the same adapter afterwards.
pub proof fn lemma_pure_delegation<F, R, S, B, E>(
    f: F,
    service: ServiceFn<F, R>,
    req: Request<R>,
    fut: S,
) where
    F: FnMut(Request<R>) -> S,
    R: Body,
    S: Future<Output = Result<Response<B>, E>>,
    B: Body,

    requires
        service.callable() == f,
    ensures
        service.accepts(req) == call_requires(f, (req,)),
        service.responds(req, fut) == call_ensures(f, (req,), fut),
        forall|next: ServiceFn<F, R>| #[trigger] service.becomes(req, &next) == (next == service),
{
}

/// What the callable's future resolves to, the adapter's future resolves to:
/// if every future that `f` may return for `req` resolves to `outcome`, so
/// does every future that an adapter made of `f` may return for `req`.
pub proof fn lemma_outcome_propagates<F, R, S, B, E>(
    f: F,
    service: ServiceFn<F, R>,
    req: Request<R>,
    outcome: Result<Response<B>, E>,
) where
    F: FnMut(Request<R>) -> S,
    R: Body,
    S: Future<Output = Result<Response<B>, E>>,
    B: Body,

    requires
        service.callable() == f,
        forall|fut: S| call_ensures(f, (req,), fut) ==> fut@ == outcome,
    ensures
        forall|fut: S| #[trigger] service.responds(req, fut) ==> fut@ == outcome,
{
}

/// An error of the callable reaches the caller converted and otherwise
/// unchanged: if every future that `f` may return for `req` resolves to the
/// error `error`, then what the adapter's future resolves to is, once
/// unified, the failure with `error` converted into the uniform type `U`,
/// and no other value.
pub proof fn lemma_error_propagates<F, R, S, B, E, U>(
    f: F,
    service: ServiceFn<F, R>,
    req: Request<R>,
    error: E,
) where
    F: FnMut(Request<R>) -> S,
    R: Body,
    S: Future<Output = Result<Response<B>, E>>,
    B: Body,
    E: Into<U>,

    requires
        service.callable() == f,
        forall|fut: S| call_ensures(f, (req,), fut) ==> fut@ == Err::<Response<B>, E>(error),
    ensures
        forall|fut: S| #[trigger]
            service.responds(req, fut) ==> unified::<Response<B>, E, U>(fut@) == Err::<
                Response<B>,
                U,
            >(error.into_spec()),
{
}

/// A duplicate behaves as the adapter it was made from, provided that the
/// callable duplicates faithfully: if a clone of a callable of type `F` is
/// always a callable equal to it, then a duplicate of an adapter is that
/// adapter again, may be called with the same requests and may return the
/// same futures for them.
pub proof fn lemma_duplicate_behaves_alike<F, R, S, B, E>(
    source: ServiceFn<F, R>,
    copy: ServiceFn<F, R>,
    req: Request<R>,
    fut: S,
) where
    F: FnMut(Request<R>) -> S + Clone,
    R: Body,
    S: Future<Output = Result<Response<B>, E>>,
    B: Body,

    requires
        cloned(source.callable(), copy.callable()),
        forall|a: F, b: F| cloned(a, b) ==> a == b,
    ensures
        copy == source,
        copy.accepts(req) == source.accepts(req),
        copy.responds(req, fut) == source.responds(req, fut),
{
}

} // verus!
