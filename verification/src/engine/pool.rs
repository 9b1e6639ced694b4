//! Reconciling the running workers (one per registered repository) with
//! the registered repositories. Spawning and joining threads is the host's
//! part.

use vstd::prelude::*;

use crate::domain::ids::RepoId;

verus! {

/// The outcome of one reconciliation: workers started and stopped.
#[derive(Debug, Default, Clone, PartialEq, Eq)]
pub struct Reconciliation {
    pub started: Vec<RepoId>,
    pub stopped: Vec<RepoId>,
}

/// The workers to stop: those whose repository is no longer registered.
pub open spec fn to_stop(running: Seq<RepoId>, desired: Seq<RepoId>) -> Seq<RepoId> {
    running.filter(|id: RepoId| !desired.contains(id))
}

/// The workers to start: registered repositories without one, unless the
/// pool is shutting down.
pub open spec fn to_start(running: Seq<RepoId>, desired: Seq<RepoId>, accepting: bool) -> Seq<RepoId> {
    if accepting {
        desired.filter(|id: RepoId| !running.contains(id))
    } else {
        Seq::empty()
    }
}

/// The running workers once a reconciliation has been carried out.
pub open spec fn after_reconciliation(
    running: Seq<RepoId>,
    desired: Seq<RepoId>,
    accepting: bool,
) -> Seq<RepoId> {
    running.filter(|id: RepoId| desired.contains(id)) + to_start(running, desired, accepting)
}

fn contains_id(v: &Vec<RepoId>, id: RepoId) -> (r: bool)
    ensures
        r == v@.contains(id),
{
    let mut i: usize = 0;
    while i < v.len()
        invariant
            i <= v@.len(),
            forall|j: int| 0 <= j < i ==> v@[j] != id,
        decreases v@.len() - i,
    {
        if v[i] == id {
            return true;
        }
        i = i + 1;
    }
    false
}

/// The elements of `v` that `keep` accepts, in order.
fn filter_ids(v: &Vec<RepoId>, other: &Vec<RepoId>, keep_present: bool) -> (r: Vec<RepoId>)
    ensures
        keep_present ==> r@ == v@.filter(|id: RepoId| other@.contains(id)),
        !keep_present ==> r@ == v@.filter(|id: RepoId| !other@.contains(id)),
{
    let ghost f = if keep_present {
        |id: RepoId| other@.contains(id)
    } else {
        |id: RepoId| !other@.contains(id)
    };
    let mut out: Vec<RepoId> = Vec::new();
    let mut i: usize = 0;
    while i < v.len()
        invariant
            i <= v@.len(),
            f == (if keep_present {
                |id: RepoId| other@.contains(id)
            } else {
                |id: RepoId| !other@.contains(id)
            }),
            out@ == v@.subrange(0, i as int).filter(f),
        decreases v@.len() - i,
    {
        let ghost prev = v@.subrange(0, i as int);
        assert(v@.subrange(0, i + 1) =~= prev + seq![v@[i as int]]);
        proof {
            Seq::filter_distributes_over_add(prev, seq![v@[i as int]], f);
        }
        let present = contains_id(other, v[i]);
        if present == keep_present {
            out.push(v[i]);
            assert(seq![v@[i as int]].filter(f) =~= seq![v@[i as int]]) by {
                reveal_with_fuel(Seq::filter, 2);
            }
        } else {
            assert(seq![v@[i as int]].filter(f) =~= Seq::<RepoId>::empty()) by {
                reveal_with_fuel(Seq::filter, 2);
            }
        }
        i = i + 1;
    }
    assert(v@.subrange(0, v@.len() as int) =~= v@);
    out
}

/// Plans a reconciliation of the running workers with the registered
/// repositories: stop the workers of repositories that are gone; start
/// workers for repositories that have none, unless the pool is shutting
/// down (`accepting` is false).
pub fn plan_reconciliation(running: &Vec<RepoId>, desired: &Vec<RepoId>, accepting: bool) -> (r:
    Reconciliation)
    ensures
        r.stopped@ == to_stop(running@, desired@),
        r.started@ == to_start(running@, desired@, accepting),
{
    let stopped = filter_ids(running, desired, false);
    let started = if accepting {
        filter_ids(desired, running, false)
    } else {
        Vec::new()
    };
    Reconciliation { started, stopped }
}

proof fn lemma_filter_member<A>(s: Seq<A>, p: spec_fn(A) -> bool, x: A)
    ensures
        s.filter(p).contains(x) <==> s.contains(x) && p(x),
{
    broadcast use Seq::lemma_filter_contains_rev;

    if s.filter(p).contains(x) {
        let k = choose|k: int| 0 <= k < s.filter(p).len() && s.filter(p)[k] == x;
        s.lemma_filter_pred(p, k);
    }
    if s.contains(x) && p(x) {
        let k = choose|k: int| 0 <= k < s.len() && s[k] == x;
        s.lemma_filter_contains(p, k);
    }
}

proof fn lemma_concat_member<A>(a: Seq<A>, b: Seq<A>, x: A)
    ensures
        (a + b).contains(x) <==> a.contains(x) || b.contains(x),
{
    if (a + b).contains(x) {
        let k = choose|k: int| 0 <= k < (a + b).len() && (a + b)[k] == x;
        if k < a.len() {
            assert(a[k] == x);
        } else {
            assert(b[k - a.len()] == x);
        }
    }
    if a.contains(x) {
        let k = choose|k: int| 0 <= k < a.len() && a[k] == x;
        assert((a + b)[k] == x);
    }
    if b.contains(x) {
        let k = choose|k: int| 0 <= k < b.len() && b[k] == x;
        assert((a + b)[k + a.len()] == x);
    }
}

proof fn lemma_filter_empty<A>(s: Seq<A>, p: spec_fn(A) -> bool)
    requires
        forall|x: A| s.contains(x) ==> !p(x),
    ensures
        s.filter(p).len() == 0,
{
    if s.filter(p).len() > 0 {
        lemma_filter_member(s, p, s.filter(p)[0]);
        assert(s.filter(p).contains(s.filter(p)[0]));
    }
}

/// Reconciling converges: once a plan has been carried out while the pool
/// accepts work, the running workers are exactly the registered
/// repositories, and planning again changes nothing.
pub proof fn lemma_reconcile_converges(running: Seq<RepoId>, desired: Seq<RepoId>)
    ensures
        forall|id: RepoId|
            after_reconciliation(running, desired, true).contains(id) <==> desired.contains(id),
        to_stop(after_reconciliation(running, desired, true), desired).len() == 0,
        to_start(after_reconciliation(running, desired, true), desired, true).len() == 0,
{
    let kept = running.filter(|id: RepoId| desired.contains(id));
    let added = desired.filter(|id: RepoId| !running.contains(id));
    let after = after_reconciliation(running, desired, true);
    assert(after == kept + added);
    assert forall|id: RepoId| after.contains(id) <==> desired.contains(id) by {
        lemma_concat_member(kept, added, id);
        lemma_filter_member(running, |x: RepoId| desired.contains(x), id);
        lemma_filter_member(desired, |x: RepoId| !running.contains(x), id);
    }
    lemma_filter_empty(after, |id: RepoId| !desired.contains(id));
    lemma_filter_empty(desired, |id: RepoId| !after.contains(id));
}

/// Without new work accepted, reconciling only stops workers: nothing is
/// started, and every worker left running has a registered repository.
pub proof fn lemma_shutdown_starts_nothing(running: Seq<RepoId>, desired: Seq<RepoId>)
    ensures
        to_start(running, desired, false).len() == 0,
        forall|id: RepoId|
            after_reconciliation(running, desired, false).contains(id) ==> desired.contains(id)
                && running.contains(id),
{
    let kept = running.filter(|id: RepoId| desired.contains(id));
    assert forall|id: RepoId|
        after_reconciliation(running, desired, false).contains(id) implies desired.contains(id)
        && running.contains(id) by {
        assert(after_reconciliation(running, desired, false) =~= kept);
        lemma_filter_member(running, |x: RepoId| desired.contains(x), id);
    }
}

/// A sequence whose elements all pass a filter is its own filtering.
proof fn lemma_filter_all<A>(s: Seq<A>, p: spec_fn(A) -> bool)
    requires
        forall|i: int| 0 <= i < s.len() ==> p(s[i]),
    ensures
        s.filter(p) == s,
    decreases s.len(),
{
    reveal_with_fuel(Seq::filter, 1);
    if s.len() > 0 {
        lemma_filter_all(s.drop_last(), p);
        assert(s.drop_last().push(s.last()) =~= s);
    } else {
        assert(s.filter(p) =~= s);
    }
}

/// Filtering a sequence with one more element at the end.
proof fn lemma_filter_push<A>(s: Seq<A>, x: A, p: spec_fn(A) -> bool)
    ensures
        s.push(x).filter(p) == (if p(x) {
            s.filter(p).push(x)
        } else {
            s.filter(p)
        }),
{
    Seq::filter_distributes_over_add(s, seq![x], p);
    assert(s + seq![x] =~= s.push(x));
    reveal_with_fuel(Seq::filter, 2);
    if p(x) {
        assert(seq![x].filter(p) =~= seq![x]);
    } else {
        assert(seq![x].filter(p) =~= Seq::<A>::empty());
    }
    assert(s.filter(p) + seq![x] =~= s.filter(p).push(x));
    assert(s.filter(p) + Seq::<A>::empty() =~= s.filter(p));
}

/// Reconciling twice with the same registered repositories while the pool
/// accepts work: the second time nothing is stopped, every registered
/// repository already has a worker (so nothing is started and no start can
/// fail), and the running workers stay as the first left them.
pub proof fn lemma_reconcile_twice_is_still(running: Seq<RepoId>, desired: Seq<RepoId>)
    ensures
        ({
            let once = after_reconciliation(running, desired, true);
            &&& to_stop(once, desired).len() == 0
            &&& to_start(once, desired, true).len() == 0
            &&& forall|id: RepoId| desired.contains(id) ==> once.contains(id)
            &&& once.filter(|id: RepoId| desired.contains(id)) == once
            &&& after_reconciliation(once, desired, true) == once
        }),
{
    let once = after_reconciliation(running, desired, true);
    lemma_reconcile_converges(running, desired);
    assert forall|i: int| 0 <= i < once.len() implies desired.contains(once[i]) by {
        assert(once.contains(once[i]));
    }
    lemma_filter_all(once, |id: RepoId| desired.contains(id));
    assert(to_start(once, desired, true) =~= Seq::<RepoId>::empty());
    assert(after_reconciliation(once, desired, true) =~= once);
}

/// Filtering by predicates that agree on every element gives the same.
proof fn lemma_filter_congruent<A>(s: Seq<A>, p: spec_fn(A) -> bool, q: spec_fn(A) -> bool)
    requires
        forall|i: int| 0 <= i < s.len() ==> p(s[i]) == q(s[i]),
    ensures
        s.filter(p) == s.filter(q),
    decreases s.len(),
{
    reveal_with_fuel(Seq::filter, 1);
    if s.len() > 0 {
        lemma_filter_congruent(s.drop_last(), p, q);
    } else {
        assert(s.filter(p) =~= s.filter(q));
    }
}

/// Removing the workers of unregistered repositories and then starting the
/// missing ones leaves the running workers `after_reconciliation` says.
pub proof fn lemma_take_then_start(running: Seq<RepoId>, desired: Seq<RepoId>, accepting: bool)
    ensures
        ({
            let kept = running.filter(|id: RepoId| desired.contains(id));
            &&& to_start(kept, desired, accepting) == to_start(running, desired, accepting)
            &&& kept + to_start(kept, desired, accepting) == after_reconciliation(
                running,
                desired,
                accepting,
            )
        }),
{
    let kept = running.filter(|id: RepoId| desired.contains(id));
    assert forall|i: int| 0 <= i < desired.len() implies (!kept.contains(desired[i])) == (
    !running.contains(desired[i])) by {
        lemma_filter_member(running, |id: RepoId| desired.contains(id), desired[i]);
        assert(desired.contains(desired[i]));
    }
    lemma_filter_congruent(
        desired,
        |id: RepoId| !kept.contains(id),
        |id: RepoId| !running.contains(id),
    );
}

/// The repositories of table entries, in order.
pub open spec fn entry_ids<H>(entries: Seq<(RepoId, H)>) -> Seq<RepoId> {
    entries.map_values(|e: (RepoId, H)| e.0)
}

/// The repositories of the entries `keep` accepts are those of all entries
/// filtered by the same test on the repository.
proof fn lemma_ids_of_filter<H>(s: Seq<(RepoId, H)>, p: spec_fn(RepoId) -> bool)
    ensures
        entry_ids(s.filter(|e: (RepoId, H)| p(e.0))) == entry_ids(s).filter(p),
    decreases s.len(),
{
    let pe = |e: (RepoId, H)| p(e.0);
    if s.len() == 0 {
        reveal_with_fuel(Seq::filter, 1);
        assert(entry_ids(s.filter(pe)) =~= entry_ids(s).filter(p));
    } else {
        let t = s.drop_last();
        let x = s.last();
        lemma_ids_of_filter(t, p);
        assert(t.push(x) =~= s);
        assert(entry_ids(s) =~= entry_ids(t).push(x.0));
        lemma_filter_push(t, x, pe);
        lemma_filter_push(entry_ids(t), x.0, p);
        if p(x.0) {
            assert(entry_ids(t.filter(pe).push(x)) =~= entry_ids(t.filter(pe)).push(x.0));
        }
    }
}

/// Whether `after` is `before` with a worker appended for each repository
/// of `added`, in order, each handle one that `start` gave for it.
pub open spec fn grown_by<H, E, S: Fn(RepoId) -> Result<H, E>>(
    before: Seq<(RepoId, H)>,
    after: Seq<(RepoId, H)>,
    added: Seq<RepoId>,
    start: S,
) -> bool {
    &&& after.len() == before.len() + added.len()
    &&& after.subrange(0, before.len() as int) == before
    &&& forall|j: int|
        0 <= j < added.len() ==> (#[trigger] after[before.len() + j]).0 == added[j] && call_ensures(
            start,
            (added[j],),
            Ok::<H, E>(after[before.len() + j].1),
        )
}

/// The running workers of a pool, one entry per repository, each with the
/// host's handle on its thread.
pub struct WorkerTable<H> {
    entries: Vec<(RepoId, H)>,
}

impl<H> WorkerTable<H> {
    /// The entries: each repository with its worker's handle, in order.
    pub closed spec fn pairs(self) -> Seq<(RepoId, H)> {
        self.entries@
    }

    /// The repositories that have a running worker, in the table's order.
    pub open spec fn ids(self) -> Seq<RepoId> {
        entry_ids(self.pairs())
    }

    /// A table with no workers.
    pub fn new() -> (r: Self)
        ensures
            r.pairs() == Seq::<(RepoId, H)>::empty(),
    {
        WorkerTable { entries: Vec::new() }
    }

    /// The repositories that have a running worker.
    pub fn running(&self) -> (r: Vec<RepoId>)
        ensures
            r@ == self.ids(),
    {
        let mut out: Vec<RepoId> = Vec::new();
        let mut i: usize = 0;
        while i < self.entries.len()
            invariant
                i <= self.entries@.len(),
                out@ == entry_ids(self.entries@).subrange(0, i as int),
            decreases self.entries@.len() - i,
        {
            out.push(self.entries[i].0);
            i = i + 1;
            assert(out@ =~= entry_ids(self.entries@).subrange(0, i as int));
        }
        assert(out@ =~= self.ids());
        out
    }

    /// The number of running workers.
    pub fn len(&self) -> (r: usize)
        ensures
            r == self.pairs().len(),
    {
        self.entries.len()
    }

    /// Every entry, the table given up.
    pub fn into_pairs(self) -> (r: Vec<(RepoId, H)>)
        ensures
            r@ == self.pairs(),
    {
        self.entries
    }

    /// Takes out the workers of repositories that are no longer registered,
    /// with their handles, for the host to stop; the others stay, in order.
    pub fn take_unregistered(&mut self, desired: &Vec<RepoId>) -> (removed: Vec<(RepoId, H)>)
        ensures
            removed@ == old(self).pairs().filter(|e: (RepoId, H)| !desired@.contains(e.0)),
            final(self).pairs() == old(self).pairs().filter(|e: (RepoId, H)| desired@.contains(e.0)),
            entry_ids(removed@) == to_stop(old(self).ids(), desired@),
            final(self).ids() == old(self).ids().filter(|id: RepoId| desired@.contains(id)),
    {
        let ghost pk = |e: (RepoId, H)| desired@.contains(e.0);
        let ghost pr = |e: (RepoId, H)| !desired@.contains(e.0);
        let mut rest: Vec<(RepoId, H)> = Vec::new();
        std::mem::swap(&mut rest, &mut self.entries);
        let ghost orig = rest@;
        assert(orig == old(self).pairs());
        assert(orig.len() == rest.len());
        let mut kept: Vec<(RepoId, H)> = Vec::new();
        let mut removed: Vec<(RepoId, H)> = Vec::new();
        let mut k: usize = 0;
        while rest.len() > 0
            invariant
                k <= orig.len(),
                orig.len() <= usize::MAX,
                rest@ == orig.subrange(k as int, orig.len() as int),
                kept@ == orig.subrange(0, k as int).filter(pk),
                removed@ == orig.subrange(0, k as int).filter(pr),
                pk == (|e: (RepoId, H)| desired@.contains(e.0)),
                pr == (|e: (RepoId, H)| !desired@.contains(e.0)),
            decreases rest@.len(),
        {
            let e = rest.remove(0);
            assert(e == orig[k as int]);
            assert(rest@ =~= orig.subrange(k + 1, orig.len() as int));
            assert(orig.subrange(0, k + 1) =~= orig.subrange(0, k as int).push(e));
            proof {
                lemma_filter_push(orig.subrange(0, k as int), e, pk);
                lemma_filter_push(orig.subrange(0, k as int), e, pr);
            }
            if contains_id(desired, e.0) {
                kept.push(e);
            } else {
                removed.push(e);
            }
            k = k + 1;
        }
        assert(orig.subrange(0, k as int) =~= orig);
        self.entries = kept;
        proof {
            lemma_ids_of_filter(orig, |id: RepoId| desired@.contains(id));
            lemma_ids_of_filter(orig, |id: RepoId| !desired@.contains(id));
            assert(pk =~= (|e: (RepoId, H)| (|id: RepoId| desired@.contains(id))(e.0)));
            assert(pr =~= (|e: (RepoId, H)| (|id: RepoId| !desired@.contains(id))(e.0)));
        }
        removed
    }

    /// Starts a worker, through `start`, for each registered repository
    /// without one, in order; none while the pool is shutting down
    /// (`accepting` false). It fails only when a start fails: then that
    /// failure is returned and the workers started before it are kept.
    pub fn start_missing<E, S>(&mut self, desired: &Vec<RepoId>, accepting: bool, start: S) -> (r:
        Result<Vec<RepoId>, E>) where S: Fn(RepoId) -> Result<H, E>
        requires
            forall|id: RepoId| start.requires((id,)),
        ensures
            match r {
                Ok(started) => started@ == to_start(old(self).ids(), desired@, accepting) && grown_by(
                    old(self).pairs(),
                    final(self).pairs(),
                    started@,
                    start,
                ),
                Err(e) => accepting && (exists|id: RepoId|
                    desired@.contains(id) && !old(self).ids().contains(id) && call_ensures(
                        start,
                        (id,),
                        Err::<H, E>(e),
                    )) && (exists|i: int|
                    0 <= i <= desired@.len() && grown_by(
                        old(self).pairs(),
                        final(self).pairs(),
                        desired@.subrange(0, i).filter(|id: RepoId| !old(self).ids().contains(id)),
                        start,
                    )),
            },
    {
        let ghost before = self.pairs();
        let ghost oids = self.ids();
        let ghost fnew = |id: RepoId| !oids.contains(id);
        if !accepting {
            assert(self.pairs().subrange(0, before.len() as int) =~= before);
            let none: Vec<RepoId> = Vec::new();
            assert(none@ =~= to_start(oids, desired@, accepting));
            return Ok(none);
        }
        let running = self.running();
        let mut started: Vec<RepoId> = Vec::new();
        assert(self.pairs().subrange(0, before.len() as int) =~= before);
        assert(desired@.subrange(0, 0) =~= Seq::<RepoId>::empty());
        proof {
            reveal_with_fuel(Seq::filter, 1);
        }
        assert(started@ =~= desired@.subrange(0, 0).filter(fnew));
        let mut i: usize = 0;
        while i < desired.len()
            invariant
                i <= desired@.len(),
                accepting,
                running@ == oids,
                oids == old(self).ids(),
                before == old(self).pairs(),
                fnew == (|id: RepoId| !oids.contains(id)),
                started@ == desired@.subrange(0, i as int).filter(fnew),
                grown_by(before, self.pairs(), started@, start),
                forall|id: RepoId| start.requires((id,)),
            decreases desired@.len() - i,
        {
            let id = desired[i];
            proof {
                lemma_filter_push(desired@.subrange(0, i as int), id, fnew);
                assert(desired@.subrange(0, i + 1) =~= desired@.subrange(0, i as int).push(id));
            }
            if !contains_id(&running, id) {
                let res = start(id);
                match res {
                    Ok(h) => {
                        let ghost grown = self.pairs();
                        let ghost added = started@;
                        self.entries.push((id, h));
                        started.push(id);
                        assert(self.pairs().subrange(0, before.len() as int) =~= grown.subrange(
                            0,
                            before.len() as int,
                        ));
                        assert forall|j: int| 0 <= j < started@.len() implies (#[trigger] self.pairs()[before.len() + j]).0
                            == started@[j] && call_ensures(
                            start,
                            (started@[j],),
                            Ok::<H, E>(self.pairs()[before.len() + j].1),
                        ) by {
                            if j < added.len() {
                                assert(self.pairs()[before.len() + j] == grown[before.len() + j]);
                            }
                        }
                    },
                    Err(e) => {
                        assert(desired@[i as int] == id);
                        assert(desired@.contains(id));
                        let ghost j = i as int;
                        assert(fnew == (|x: RepoId| !old(self).ids().contains(x)));
                        assert(0 <= j <= desired@.len() && grown_by(
                            old(self).pairs(),
                            self.pairs(),
                            desired@.subrange(0, j).filter(|x: RepoId| !old(self).ids().contains(x)),
                            start,
                        ));
                        return Err(e);
                    },
                }
            }
            i = i + 1;
        }
        assert(desired@.subrange(0, desired@.len() as int) =~= desired@);
        Ok(started)
    }
}

} // verus!
