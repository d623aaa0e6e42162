//! Storage providers: the capability of durably persisting bytes under a
//! relative identifier, an in-memory reference implementation, and the
//! multi-destination fan-out that broadcasts one artifact to an ordered set
//! of providers with all-or-nothing aggregate semantics.

use vstd::prelude::*;
use vstd::slice::slice_to_vec;
use vstd::string::StringExecFns;

verus! {

/// A single destination's failure: the destination's identity and a
/// human-readable cause. The orchestrator does not distinguish failure
/// subkinds, only which destination failed and why.
#[derive(Clone, Debug, PartialEq, Eq)]
pub struct ProviderError {
    pub destination: String,
    pub cause: String,
}

/// The aggregate failure of a fan-out: one entry per failing destination.
/// Destinations that succeeded are not listed; their writes are durable even
/// though the call as a whole failed.
#[derive(Clone, Debug, PartialEq, Eq)]
pub struct CompositeUploadError {
    pub failures: Vec<ProviderError>,
}

/// The identities named by a sequence of per-destination failures, in order.
pub open spec fn destinations_of(failures: Seq<ProviderError>) -> Seq<Seq<char>> {
    failures.map_values(|f: ProviderError| f.destination@)
}

impl CompositeUploadError {
    /// The identities of the destinations this error reports, in order.
    pub open spec fn spec_destinations(&self) -> Seq<Seq<char>> {
        destinations_of(self.failures@)
    }
}

/// The capability of durably persisting `data` under the relative,
/// backend-agnostic identifier `path`.
pub trait Provider: Sized {
    /// The destination's identity, used in failure reports.
    spec fn id(&self) -> Seq<char>;

    /// The artifacts durably persisted at the destination, in write order.
    spec fn stored(&self) -> Seq<(Seq<char>, Seq<u8>)>;

    /// Whether a put of `data` under `path` from this state succeeds.
    spec fn put_ok(&self, path: Seq<char>, data: Seq<u8>) -> bool;

    /// Durably persists `data` under `path`: on success exactly the given
    /// pair is appended to the durable store; on failure nothing is, and the
    /// error names this destination.
    fn put(&mut self, path: &str, data: &[u8]) -> (r: Result<(), ProviderError>)
        ensures
            final(self).id() == old(self).id(),
            r is Ok <==> old(self).put_ok(path@, data@),
            r is Ok ==> final(self).stored() == old(self).stored().push((path@, data@)),
            r is Err ==> final(self).stored() == old(self).stored(),
            r matches Err(e) ==> e.destination@ == old(self).id(),
    ;
}

/// An in-memory destination: artifacts land in a vector. It can be set up to
/// refuse every write, which stands in for an unreachable or rejecting
/// backend.
#[derive(Clone, Debug)]
pub struct MemoryProvider {
    pub name: String,
    pub fail: bool,
    pub records: Vec<(String, Vec<u8>)>,
}

impl MemoryProvider {
    pub fn new(name: &str, fail: bool) -> (r: Self)
        ensures
            r.name@ == name@,
            r.fail == fail,
            r.records@.len() == 0,
    {
        Self { name: name.to_owned(), fail, records: Vec::new() }
    }
}

impl Provider for MemoryProvider {
    open spec fn id(&self) -> Seq<char> {
        self.name@
    }

    open spec fn stored(&self) -> Seq<(Seq<char>, Seq<u8>)> {
        self.records@.map_values(|e: (String, Vec<u8>)| (e.0@, e.1@))
    }

    open spec fn put_ok(&self, path: Seq<char>, data: Seq<u8>) -> bool {
        !self.fail
    }

    fn put(&mut self, path: &str, data: &[u8]) -> (r: Result<(), ProviderError>) {
        if self.fail {
            Err(
                ProviderError {
                    destination: self.name.clone(),
                    cause: String::from_str("destination refused the write"),
                },
            )
        } else {
            let entry = (path.to_owned(), slice_to_vec(data));
            self.records.push(entry);
            proof {
                assert(final(self).stored() =~= old(self).stored().push((path@, data@)));
            }
            Ok(())
        }
    }
}

/// Whether every member of `ps` accepts a put of `data` under `path`.
pub open spec fn all_ok<P: Provider>(ps: Seq<P>, path: Seq<char>, data: Seq<u8>) -> bool {
    forall|i: int| 0 <= i < ps.len() ==> (#[trigger] ps[i]).put_ok(path, data)
}

/// The identities of the members of `ps` that refuse a put of `data` under
/// `path`, in member order.
pub open spec fn spec_failing_ids<P: Provider>(
    ps: Seq<P>,
    path: Seq<char>,
    data: Seq<u8>,
) -> Seq<Seq<char>>
    decreases ps.len(),
{
    if ps.len() == 0 {
        Seq::empty()
    } else {
        let rest = spec_failing_ids(ps.drop_last(), path, data);
        if ps.last().put_ok(path, data) {
            rest
        } else {
            rest.push(ps.last().id())
        }
    }
}

/// What a fan-out of `(path, data)` leaves behind: every member was attempted
/// with the same identifier and the same bytes, the members that accept hold
/// exactly one more artifact, the rest are unchanged, and every identity is
/// kept. A failure of one member never prevents durability on the others.
pub open spec fn put_effects<P: Provider>(
    pre: Seq<P>,
    post: Seq<P>,
    path: Seq<char>,
    data: Seq<u8>,
) -> bool {
    &&& post.len() == pre.len()
    &&& forall|i: int| 0 <= i < pre.len() ==> (#[trigger] post[i]).id() == pre[i].id()
    &&& forall|i: int|
        0 <= i < pre.len() && pre[i].put_ok(path, data) ==> (#[trigger] post[i]).stored()
            == pre[i].stored().push((path, data))
    &&& forall|i: int|
        0 <= i < pre.len() && !pre[i].put_ok(path, data) ==> (#[trigger] post[i]).stored()
            == pre[i].stored()
}

/// No member fails exactly when every member accepts.
proof fn lemma_failing_ids_empty_iff_all_ok<P: Provider>(ps: Seq<P>, path: Seq<char>, data: Seq<u8>)
    ensures
        spec_failing_ids(ps, path, data).len() == 0 <==> all_ok(ps, path, data),
    decreases ps.len(),
{
    if ps.len() > 0 {
        lemma_failing_ids_empty_iff_all_ok(ps.drop_last(), path, data);
        assert(all_ok(ps, path, data) ==> all_ok(ps.drop_last(), path, data) && ps.last().put_ok(
            path,
            data,
        )) by {
            if all_ok(ps, path, data) {
                assert forall|i: int| 0 <= i < ps.drop_last().len() implies (#[trigger] ps.drop_last()[i]).put_ok(
                    path,
                    data,
                ) by {
                    assert(ps.drop_last()[i] == ps[i]);
                }
            }
        }
        assert(all_ok(ps.drop_last(), path, data) && ps.last().put_ok(path, data) ==> all_ok(
            ps,
            path,
            data,
        )) by {
            if all_ok(ps.drop_last(), path, data) && ps.last().put_ok(path, data) {
                assert forall|i: int| 0 <= i < ps.len() implies (#[trigger] ps[i]).put_ok(
                    path,
                    data,
                ) by {
                    if i < ps.len() - 1 {
                        assert(ps.drop_last()[i] == ps[i]);
                        assert(ps.drop_last()[i].put_ok(path, data));
                    } else {
                        assert(ps[i] == ps.last());
                    }
                }
            }
        }
    }
}

/// An ordered collection of storage providers composed behind one `put`:
/// built once at startup, one member added at a time.
#[derive(Clone, Debug)]
pub struct MultiProvider<P> {
    pub providers: Vec<P>,
}

impl<P> MultiProvider<P> {
    /// The empty provider set.
    pub fn new() -> (r: Self)
        ensures
            r.providers@.len() == 0,
    {
        Self { providers: Vec::new() }
    }

    /// Appends one member to the set.
    pub fn add(&mut self, p: P)
        ensures
            final(self).providers@ == old(self).providers@.push(p),
    {
        self.providers.push(p);
    }

    /// Whether the set has no members.
    pub fn is_empty(&self) -> (r: bool)
        ensures
            r <==> self.providers@.len() == 0,
    {
        self.providers.is_empty()
    }

    /// The number of configured destinations.
    pub fn len(&self) -> (r: usize)
        ensures
            r == self.providers@.len(),
    {
        self.providers.len()
    }
}

impl<P: Provider> MultiProvider<P> {
    /// Broadcasts one artifact to every member with the same `path` and
    /// `data`. Every member is attempted regardless of earlier failures, so a
    /// failing destination never prevents durability on the others. The call
    /// succeeds only if every member succeeded; otherwise the composite error
    /// names exactly the failing destinations, in member order.
    pub fn put(&mut self, path: &str, data: &[u8]) -> (r: Result<(), CompositeUploadError>)
        ensures
            put_effects(old(self).providers@, final(self).providers@, path@, data@),
            r is Ok <==> all_ok(old(self).providers@, path@, data@),
            r matches Err(e) ==> e.spec_destinations() == spec_failing_ids(
                old(self).providers@,
                path@,
                data@,
            ) && e.failures@.len() > 0,
    {
        let ghost ops = self.providers@;
        let mut failures: Vec<ProviderError> = Vec::new();
        let mut i: usize = 0;
        while i < self.providers.len()
            invariant
                i <= ops.len(),
                self.providers@.len() == ops.len(),
                forall|j: int| i <= j < ops.len() ==> self.providers@[j] == ops[j],
                forall|j: int|
                    0 <= j < i ==> (#[trigger] self.providers@[j]).id() == ops[j].id(),
                forall|j: int|
                    0 <= j < i && ops[j].put_ok(path@, data@) ==> (
                    #[trigger] self.providers@[j]).stored() == ops[j].stored().push(
                        (path@, data@),
                    ),
                forall|j: int|
                    0 <= j < i && !ops[j].put_ok(path@, data@) ==> (
                    #[trigger] self.providers@[j]).stored() == ops[j].stored(),
                destinations_of(failures@) == spec_failing_ids(ops.take(i as int), path@, data@),
            decreases ops.len() - i,
        {
            let ghost pre = self.providers@;
            let ghost failures_pre = failures@;
            let p = &mut self.providers[i];
            let res = p.put(path, data);
            match res {
                Ok(()) => {},
                Err(e) => {
                    failures.push(e);
                },
            }
            proof {
                assert(ops.take(i + 1 as int).drop_last() =~= ops.take(i as int));
                assert(ops.take(i + 1 as int).last() == ops[i as int]);
                if !ops[i as int].put_ok(path@, data@) {
                    assert(destinations_of(failures@) =~= destinations_of(failures_pre).push(
                        ops[i as int].id(),
                    ));
                }
            }
            i += 1;
        }
        proof {
            assert(ops.take(ops.len() as int) =~= ops);
            lemma_failing_ids_empty_iff_all_ok(ops, path@, data@);
        }
        if failures.len() == 0 {
            Ok(())
        } else {
            Err(CompositeUploadError { failures })
        }
    }
}

/// The failures among a sequence of per-destination outcomes, in order.
pub open spec fn spec_failed(outcomes: Seq<Result<(), ProviderError>>) -> Seq<ProviderError>
    decreases outcomes.len(),
{
    if outcomes.len() == 0 {
        Seq::empty()
    } else {
        let rest = spec_failed(outcomes.drop_last());
        match outcomes.last() {
            Ok(_) => rest,
            Err(e) => rest.push(e),
        }
    }
}

/// Aggregates per-destination outcomes of one fan-out: success only if every
/// destination succeeded; otherwise a composite error carrying every
/// individual failure, in outcome order.
pub fn aggregate_outcomes(outcomes: Vec<Result<(), ProviderError>>) -> (r: Result<
    (),
    CompositeUploadError,
>)
    ensures
        r is Ok <==> spec_failed(outcomes@).len() == 0,
        r matches Err(e) ==> e.failures@ == spec_failed(outcomes@) && e.failures@.len() > 0,
{
    let ghost all = outcomes@;
    let mut rest = outcomes;
    let mut failures: Vec<ProviderError> = Vec::new();
    let ghost mut taken: int = 0;
    while rest.len() > 0
        invariant
            0 <= taken,
            taken + rest@.len() == all.len(),
            rest@ == all.skip(taken),
            failures@ == spec_failed(all.take(taken)),
        decreases rest@.len(),
    {
        let o = rest.remove(0);
        proof {
            assert(o == all[taken]);
            assert(rest@ =~= all.skip(taken + 1));
            assert(all.take(taken + 1).drop_last() =~= all.take(taken));
            assert(all.take(taken + 1).last() == all[taken]);
        }
        match o {
            Ok(()) => {},
            Err(e) => {
                failures.push(e);
            },
        }
        proof {
            taken = taken + 1;
        }
    }
    proof {
        assert(all.take(taken) =~= all);
    }
    if failures.len() == 0 {
        Ok(())
    } else {
        Err(CompositeUploadError { failures })
    }
}

} // verus!
