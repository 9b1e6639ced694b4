//! Which schema migrations a database still needs.

use vstd::prelude::*;

use crate::error::{Error, ErrorView};

verus! {

/// The schema version this library reads and writes.
pub const SUPPORTED_VERSION: i64 = 2;

/// The positions of the migrations newer than the database's version, in
/// order.
pub open spec fn pending(current: i64, versions: Seq<i64>) -> Seq<int>
    decreases versions.len(),
{
    if versions.len() == 0 {
        seq![]
    } else if versions.last() > current {
        pending(current, versions.drop_last()).push(versions.len() - 1)
    } else {
        pending(current, versions.drop_last())
    }
}

/// The migrations to apply to a database at version `current`: those of
/// `versions` above it, in order. A database newer than this library is
/// refused.
pub fn pending_migrations(current: i64, versions: &Vec<i64>) -> (r: Result<Vec<usize>, Error>)
    ensures
        current > SUPPORTED_VERSION ==> (r matches Err(e) && e@ == ErrorView::SchemaTooNew {
            found: current,
            supported: SUPPORTED_VERSION,
        }),
        current <= SUPPORTED_VERSION ==> (r matches Ok(v) && v@.map_values(|i: usize| i as int)
            == pending(current, versions@)),
{
    if current > SUPPORTED_VERSION {
        return Err(Error::SchemaTooNew { found: current, supported: SUPPORTED_VERSION });
    }
    let mut out: Vec<usize> = Vec::new();
    let mut i: usize = 0;
    while i < versions.len()
        invariant
            i <= versions@.len(),
            out@.map_values(|k: usize| k as int) == pending(current, versions@.subrange(0, i as int)),
        decreases versions@.len() - i,
    {
        let ghost prev = out@;
        assert(versions@.subrange(0, i + 1).drop_last() =~= versions@.subrange(0, i as int));
        if versions[i] > current {
            out.push(i);
            assert(out@.map_values(|k: usize| k as int) =~= prev.map_values(|k: usize| k as int).push(
                i as int,
            ));
        }
        i = i + 1;
    }
    assert(versions@.subrange(0, versions@.len() as int) =~= versions@);
    Ok(out)
}

} // verus!
