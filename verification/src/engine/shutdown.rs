//! `ShutdownToken`: cooperative shutdown signal.
//!
//! A token holds one or more shared atomic sources. `level()` reports the
//! maximum across all sources (`Hard` over `Soft` over `Running`).
//! `set_soft`/`set_hard` write into the *first* source, the one owned by
//! this token. Composite tokens built with [`ShutdownToken::merged`] track
//! every parent's escalation while their holder can still flip its own.

use std::sync::atomic::AtomicU8;
use std::sync::Arc;

use vstd::prelude::*;

verus! {

#[derive(Debug, Clone, Copy, PartialEq, Eq, Structural)]
pub enum ShutdownLevel {
    Running,
    Soft,
    Hard,
}

/// The level a source value stands for: 0 running, 1 soft, above that hard.
pub open spec fn level_of(v: u8) -> ShutdownLevel {
    if v == 0 {
        ShutdownLevel::Running
    } else if v == 1 {
        ShutdownLevel::Soft
    } else {
        ShutdownLevel::Hard
    }
}

/// The order of levels.
pub open spec fn rank(l: ShutdownLevel) -> nat {
    match l {
        ShutdownLevel::Running => 0,
        ShutdownLevel::Soft => 1,
        ShutdownLevel::Hard => 2,
    }
}

/// What `set_soft` does to a source: move 0 to 1, leave anything else.
pub open spec fn soft_value(v: u8) -> u8 {
    if v == 0 {
        1
    } else {
        v
    }
}

/// What `set_hard` does to a source: store 2.
pub open spec fn hard_value(v: u8) -> u8 {
    2
}

/// The largest of the values observed.
pub open spec fn max_value(vs: Seq<u8>) -> u8
    decreases vs.len(),
{
    if vs.len() == 0 {
        0
    } else {
        let m = max_value(vs.drop_last());
        if vs.last() > m {
            vs.last()
        } else {
            m
        }
    }
}

/// Calls `Arc::clone`, which hands out another handle to the same
/// allocation; claimed: the handle denotes the same source.
#[verifier::external_body]
fn share(a: &Arc<AtomicU8>) -> (r: Arc<AtomicU8>)
    ensures
        r == *a,
{
    Arc::clone(a)
}

/// Whether a level signals shutdown: any level but `Running` does.
pub fn level_is_set(l: ShutdownLevel) -> (r: bool)
    ensures
        r == !(l is Running),
{
    match l {
        ShutdownLevel::Running => false,
        ShutdownLevel::Soft => true,
        ShutdownLevel::Hard => true,
    }
}

/// The level for the largest value read from the sources.
pub fn level_from_value(max: u8) -> (r: ShutdownLevel)
    ensures
        r == level_of(max),
{
    if max == 0 {
        ShutdownLevel::Running
    } else if max == 1 {
        ShutdownLevel::Soft
    } else {
        ShutdownLevel::Hard
    }
}

/// The largest of a list of values read from sources (0 when empty).
pub fn max_of(vs: &Vec<u8>) -> (r: u8)
    ensures
        r == max_value(vs@),
{
    let mut m: u8 = 0;
    let mut i: usize = 0;
    while i < vs.len()
        invariant
            i <= vs@.len(),
            m == max_value(vs@.subrange(0, i as int)),
        decreases vs@.len() - i,
    {
        assert(vs@.subrange(0, (i + 1) as int).drop_last() =~= vs@.subrange(0, i as int));
        if vs[i] > m {
            m = vs[i];
        }
        i = i + 1;
    }
    assert(vs@.subrange(0, vs@.len() as int) =~= vs@);
    m
}

#[derive(Debug)]
pub struct ShutdownToken {
    /// The first entry is the token's own source, which `set_soft` and
    /// `set_hard` write to. Further entries are observed only.
    sources: Vec<Arc<AtomicU8>>,
}

impl ShutdownToken {
    /// The sources of a token: its own first, then the ones it observes.
    pub closed spec fn spec_sources(self) -> Seq<Arc<AtomicU8>> {
        self.sources@
    }

    #[verifier::type_invariant]
    spec fn has_own_source(self) -> bool {
        self.sources@.len() >= 1
    }

    /// A token with a single fresh source at `Running`.
    pub fn new() -> (r: Self)
        ensures
            r.spec_sources().len() == 1,
    {
        ShutdownToken { sources: vec![Arc::new(AtomicU8::new(0))] }
    }

    /// A token observing every source of `parents` as well as a fresh source
    /// of its own. Setting this token's level only affects its own source;
    /// the parents' sources are shared, not copied, so their escalations
    /// show through.
    pub fn merged<const N: usize>(parents: [ShutdownToken; N]) -> (r: Self)
        ensures
            r.spec_sources().len() >= 1,
            forall|i: int, j: int|
                0 <= i < N && 0 <= j < parents@[i].spec_sources().len() ==> r.spec_sources().contains(
                    #[trigger] parents@[i].spec_sources()[j],
                ),
    {
        let mut sources: Vec<Arc<AtomicU8>> = vec![Arc::new(AtomicU8::new(0))];
        let mut i: usize = 0;
        while i < N
            invariant
                i <= N,
                sources@.len() >= 1,
                forall|k: int, j: int|
                    0 <= k < i && 0 <= j < parents@[k].spec_sources().len() ==> sources@.contains(
                        #[trigger] parents@[k].spec_sources()[j],
                    ),
            decreases N - i,
        {
            let parent = &parents[i];
            let mut j: usize = 0;
            while j < parent.sources.len()
                invariant
                    i < N,
                    *parent == parents@[i as int],
                    j <= parent.sources@.len(),
                    sources@.len() >= 1,
                    forall|k: int, l: int|
                        0 <= k < i && 0 <= l < parents@[k].spec_sources().len() ==> sources@.contains(
                            #[trigger] parents@[k].spec_sources()[l],
                        ),
                    forall|l: int| 0 <= l < j ==> sources@.contains(#[trigger] parent.sources@[l]),
                decreases parent.sources@.len() - j,
            {
                let ghost before = sources@;
                sources.push(share(&parent.sources[j]));
                assert(sources@[sources@.len() - 1] == parent.sources@[j as int]);
                assert forall|k: int, l: int|
                    0 <= k < i && 0 <= l < parents@[k].spec_sources().len() implies sources@.contains(
                        #[trigger] parents@[k].spec_sources()[l],
                    ) by {
                    let w = choose|w: int| 0 <= w < before.len() && before[w] == parents@[k].spec_sources()[l];
                    assert(sources@[w] == before[w]);
                }
                assert forall|l: int| 0 <= l < j + 1 implies sources@.contains(
                    #[trigger] parent.sources@[l],
                ) by {
                    if l < j {
                        let w = choose|w: int| 0 <= w < before.len() && before[w] == parent.sources@[l];
                        assert(sources@[w] == before[w]);
                    } else {
                        assert(sources@[sources@.len() - 1] == parent.sources@[l]);
                    }
                }
                j = j + 1;
            }
            i = i + 1;
        }
        ShutdownToken { sources }
    }

    /// The maximum level across all sources. The sources are shared with
    /// other threads, so the values read are whatever those threads last
    /// wrote; nothing beyond the level's type is promised here.
    pub fn level(&self) -> ShutdownLevel {
        let mut seen: Vec<u8> = Vec::new();
        let mut i: usize = 0;
        while i < self.sources.len()
            invariant
                i <= self.sources@.len(),
            decreases self.sources@.len() - i,
        {
            let v = self.sources[i].load(std::sync::atomic::Ordering::SeqCst);
            seen.push(v);
            i = i + 1;
        }
        level_from_value(max_of(&seen))
    }

    /// Whether any source has left `Running`.
    pub fn is_set(&self) -> bool {
        level_is_set(self.level())
    }

    /// Sets this token's own source to `Soft`; a no-op once it is `Hard`.
    pub fn set_soft(&self) {
        proof {
            use_type_invariant(self);
        }
        let _ = self.sources[0].compare_exchange(
            0,
            1,
            std::sync::atomic::Ordering::SeqCst,
            std::sync::atomic::Ordering::SeqCst,
        );
    }

    /// Sets this token's own source to `Hard`. Always succeeds.
    pub fn set_hard(&self) {
        proof {
            use_type_invariant(self);
        }
        self.sources[0].store(2, std::sync::atomic::Ordering::SeqCst);
    }
}

impl Clone for ShutdownToken {
    /// Another token on the same sources: what either sets, both see.
    fn clone(&self) -> (r: Self)
        ensures
            r.spec_sources() == self.spec_sources(),
    {
        proof {
            use_type_invariant(self);
        }
        let mut sources: Vec<Arc<AtomicU8>> = Vec::new();
        let mut i: usize = 0;
        while i < self.sources.len()
            invariant
                i <= self.sources@.len(),
                sources@ == self.sources@.subrange(0, i as int),
            decreases self.sources@.len() - i,
        {
            sources.push(share(&self.sources[i]));
            i = i + 1;
            assert(sources@ =~= self.sources@.subrange(0, i as int));
        }
        assert(sources@ =~= self.sources@);
        ShutdownToken { sources }
    }
}

impl Default for ShutdownToken {
    fn default() -> (r: Self)
        ensures
            r.spec_sources().len() == 1,
    {
        ShutdownToken::new()
    }
}

/// Levels only escalate: neither `set_soft` nor `set_hard` lowers the
/// level a source stands for, `set_hard` always reaches `Hard`, and
/// `set_soft` leaves a `Hard` source `Hard`.
pub proof fn lemma_levels_only_escalate(v: u8)
    ensures
        rank(level_of(v)) <= rank(level_of(soft_value(v))),
        rank(level_of(v)) <= rank(level_of(hard_value(v))),
        level_of(hard_value(v)) == ShutdownLevel::Hard,
        level_of(soft_value(v)) != ShutdownLevel::Running,
        level_of(v) == ShutdownLevel::Hard ==> level_of(soft_value(v)) == ShutdownLevel::Hard,
{
}

/// The level of a token is the highest level among its sources: adding
/// observed sources (as `merged` does) never lowers it, and it is at least
/// the level of each source.
pub proof fn lemma_level_is_max(vs: Seq<u8>, k: int)
    requires
        0 <= k < vs.len(),
    ensures
        rank(level_of(vs[k])) <= rank(level_of(max_value(vs))),
    decreases vs.len(),
{
    if k < vs.len() - 1 {
        lemma_level_is_max(vs.drop_last(), k);
    }
}

/// A soft quit is a shutdown: once `set_soft` or `set_hard` has acted on a
/// token's own source, whatever it held, the level read from it is not
/// `Running`, so `level_is_set` answers true for it; a source never
/// written reads as not set.
pub proof fn lemma_quit_sets_shutdown(v: u8)
    ensures
        !(level_of(soft_value(v)) is Running),
        !(level_of(hard_value(v)) is Running),
        level_of(0) is Running,
        (level_of(v) is Running) <==> v == 0,
{
}

} // verus!
