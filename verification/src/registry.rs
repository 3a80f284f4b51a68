//! The registry of adapters.

use crate::adapter::ServiceFn;
use crate::body::Body;
use crate::message::{Request, Response};
use crate::service::Service;
use std::future::Future;
use vstd::hash_map::StringHashMap;
use vstd::prelude::*;

verus! {

/// Adapters kept under string keys.
///
/// A registry is a passive mapping. A key has at most one adapter: the one
/// that was registered last under it. Which handler a request goes to is
/// decided by whoever looks one up.
#[verifier::reject_recursive_types(F)]
#[verifier::reject_recursive_types(R)]
pub struct ServiceFns<F, R> {
    fns: StringHashMap<ServiceFn<F, R>>,
}

impl<F, R> View for ServiceFns<F, R> {
    type V = Map<Seq<char>, ServiceFn<F, R>>;

    /// The registry as a map from each registered key to its adapter.
    closed spec fn view(&self) -> Self::V {
        self.fns@
    }
}

impl<F, R> ServiceFns<F, R> {
    /// What a lookup of `key` finds: the adapter registered under it, or
    /// nothing.
    pub open spec fn lookup(&self, key: Seq<char>) -> Option<&ServiceFn<F, R>> {
        if self@.contains_key(key) {
            Some(&self@[key])
        } else {
            None
        }
    }

    /// A registry with no entries.
    pub fn new() -> (fns: Self)
        ensures
            fns@ == Map::<Seq<char>, ServiceFn<F, R>>::empty(),
    {
        ServiceFns { fns: StringHashMap::new() }
    }

    /// Registers `service` under `key`. An adapter that was registered under
    /// `key` before is dropped; every other entry stays as it is.
    pub fn add(&mut self, key: String, service: ServiceFn<F, R>)
        ensures
            final(self)@ == old(self)@.insert(key@, service),
    {
        self.fns.insert(key, service);
    }

    /// Looks up the adapter registered under `key`. The registry keeps the
    /// adapter: what comes back borrows from it. A key that has no adapter
    /// gives `None`.
    pub fn get(&self, key: &str) -> (found: Option<&ServiceFn<F, R>>)
        ensures
            found == self.lookup(key@),
    {
        self.fns.get(key)
    }
}

/// The entries of a registry that started empty and had `registrations`
/// made in it, one after the other: each is a key and the adapter
/// registered under it.
pub open spec fn registered<F, R>(registrations: Seq<(Seq<char>, ServiceFn<F, R>)>) -> Map<
    Seq<char>,
    ServiceFn<F, R>,
>
    decreases registrations.len(),
{
    if registrations.len() == 0 {
        Map::empty()
    } else {
        registered(registrations.drop_last()).insert(
            registrations.last().0,
            registrations.last().1,
        )
    }
}

/// Round trip: after `service` was registered under `key`, a lookup of `key`
/// finds `service`, which may be called with the same requests and may
/// return the same futures as before. A lookup of any other key finds what
/// it found before.
pub proof fn lemma_round_trip<F, R, S, B, E>(
    before: ServiceFns<F, R>,
    after: ServiceFns<F, R>,
    key: Seq<char>,
    service: ServiceFn<F, R>,
) where
    F: FnMut(Request<R>) -> S,
    R: Body,
    S: Future<Output = Result<Response<B>, E>>,
    B: Body,

    requires
        after@ == before@.insert(key, service),
    ensures
        after.lookup(key) == Some(&service),
        forall|req: Request<R>| #[trigger] after@[key].accepts(req) == service.accepts(req),
        forall|req: Request<R>, fut: S| #[trigger]
            after@[key].responds(req, fut) == service.responds(req, fut),
        forall|other: Seq<char>|
            other != key ==> #[trigger] after.lookup(other) == before.lookup(other),
{
}

/// Overwrite: after `first` and then `second` were registered under `key`, a
/// lookup of `key` finds `second`, and the registry is what it would be had
/// `first` never been registered.
pub proof fn lemma_overwrite<F, R>(
    before: ServiceFns<F, R>,
    between: ServiceFns<F, R>,
    after: ServiceFns<F, R>,
    key: Seq<char>,
    first: ServiceFn<F, R>,
    second: ServiceFn<F, R>,
)
    requires
        between@ == before@.insert(key, first),
        after@ == between@.insert(key, second),
    ensures
        after.lookup(key) == Some(&second),
        after@ == before@.insert(key, second),
{
    assert(after@ =~= before@.insert(key, second));
}

/// Miss: a lookup in a registry without entries finds nothing, whatever the
/// key.
pub proof fn lemma_empty_misses<F, R>(fns: ServiceFns<F, R>, key: Seq<char>)
    requires
        fns@ == Map::<Seq<char>, ServiceFn<F, R>>::empty(),
    ensures
        fns.lookup(key) is None,
{
}

/// Miss: a lookup of a key under which nothing was ever registered finds
/// nothing, whatever was registered under other keys.
pub proof fn lemma_unregistered_misses<F, R>(
    fns: ServiceFns<F, R>,
    registrations: Seq<(Seq<char>, ServiceFn<F, R>)>,
    key: Seq<char>,
)
    requires
        fns@ == registered(registrations),
        forall|i: int| 0 <= i < registrations.len() ==> registrations[i].0 != key,
    ensures
        fns.lookup(key) is None,
{
    lemma_registered_keys(registrations, key);
}

/// Last write wins: a lookup of `key` finds the adapter of the last
/// registration made under `key`.
pub proof fn lemma_lookup_finds_last<F, R>(
    fns: ServiceFns<F, R>,
    registrations: Seq<(Seq<char>, ServiceFn<F, R>)>,
    key: Seq<char>,
    last: int,
)
    requires
        fns@ == registered(registrations),
        0 <= last < registrations.len(),
        registrations[last].0 == key,
        forall|i: int| last < i < registrations.len() ==> registrations[i].0 != key,
    ensures
        fns.lookup(key) == Some(&registrations[last].1),
{
    lemma_registered_last(registrations, key, last);
}

/// A key is among the entries exactly if some registration was made under
/// it.
proof fn lemma_registered_keys<F, R>(
    registrations: Seq<(Seq<char>, ServiceFn<F, R>)>,
    key: Seq<char>,
)
    ensures
        registered(registrations).contains_key(key) <==> exists|i: int|
            0 <= i < registrations.len() && registrations[i].0 == key,
    decreases registrations.len(),
{
    if registrations.len() > 0 {
        let earlier = registrations.drop_last();
        lemma_registered_keys(earlier, key);
        if registrations.last().0 == key {
            assert(registrations[registrations.len() - 1].0 == key);
        } else if registered(earlier).contains_key(key) {
            let i = choose|i: int| 0 <= i < earlier.len() && earlier[i].0 == key;
            assert(registrations[i].0 == key);
        } else {
            assert forall|i: int| 0 <= i < registrations.len() implies registrations[i].0
                != key by {
                if i < earlier.len() {
                    assert(earlier[i].0 == registrations[i].0);
                }
            }
        }
    }
}

/// The entry of a key is the adapter of the last registration under it.
proof fn lemma_registered_last<F, R>(
    registrations: Seq<(Seq<char>, ServiceFn<F, R>)>,
    key: Seq<char>,
    last: int,
)
    requires
        0 <= last < registrations.len(),
        registrations[last].0 == key,
        forall|i: int| last < i < registrations.len() ==> registrations[i].0 != key,
    ensures
        registered(registrations).contains_key(key),
        registered(registrations)[key] == registrations[last].1,
    decreases registrations.len(),
{
    let earlier = registrations.drop_last();
    if last < registrations.len() - 1 {
        assert(registrations[registrations.len() - 1].0 != key);
        assert(earlier[last] == registrations[last]);
        assert forall|i: int| last < i < earlier.len() implies earlier[i].0 != key by {
            assert(earlier[i] == registrations[i]);
        }
        lemma_registered_last(earlier, key, last);
    }
}

} // verus!
