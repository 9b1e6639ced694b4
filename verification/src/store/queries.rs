//! The statements the store builds from their arguments: the filtered
//! listing of queue entries and the sweep of claims held by dead
//! processes. Each comes with the values bound to its numbered
//! placeholders, in order.

use vstd::prelude::*;

use crate::domain::ids::hyphenated_text;
use crate::domain::ports::EntryFilter;
use crate::domain::queue::{status_name, QueueEntry, QueueStatus};
use crate::engine::handoff::join_with;
use crate::text::{decimal, owned, push_decimal, views};

verus! {

/// The placeholders `?start,?start+1,…` for `n` values.
pub open spec fn placeholder_list(start: nat, n: nat) -> Seq<char>
    decreases n,
{
    if n == 0 {
        seq![]
    } else if n == 1 {
        "?"@ + decimal(start)
    } else {
        placeholder_list(start, (n - 1) as nat) + ","@ + "?"@ + decimal((start + n - 1) as nat)
    }
}

/// Appends the placeholders for `n` values numbered from `start`.
fn push_placeholders(out: &mut String, start: u64, n: usize)
    ensures
        final(out)@ == old(out)@ + placeholder_list(start as nat, n as nat),
{
    let ghost init = out@;
    let mut i: usize = 0;
    while i < n
        invariant
            i <= n,
            out@ == init + placeholder_list(start as nat, i as nat),
        decreases n - i,
    {
        let ghost before = out@;
        if i > 0 {
            out.append(",");
        }
        out.append("?");
        push_decimal(out, (start as u128) + (i as u128));
        proof {
            if i == 0 {
                assert(out@ =~= init + placeholder_list(start as nat, (i + 1) as nat));
            } else {
                assert(out@ =~= before + ","@ + "?"@ + decimal((start + i) as nat));
                assert(out@ =~= init + placeholder_list(start as nat, (i + 1) as nat));
            }
        }
        i = i + 1;
    }
}

/// Whether a filter narrows the listing by status: it names at least one.
pub open spec fn narrows_status(f: EntryFilter) -> bool {
    f.statuses is Some && f.statuses->0@.len() > 0
}

/// The conditions of a filtered listing, in order: the repository, then
/// the statuses.
pub open spec fn entry_list_clauses(f: EntryFilter) -> Seq<Seq<char>> {
    let first: nat = if f.repo_id is Some {
        2
    } else {
        1
    };
    (if f.repo_id is Some {
        seq!["repo_id = ?"@ + decimal(1)]
    } else {
        seq![]
    }) + (if narrows_status(f) {
        seq!["status IN ("@ + placeholder_list(first, f.statuses->0@.len()) + ")"@]
    } else {
        seq![]
    })
}

/// The names of statuses, in order.
pub open spec fn status_names(v: Seq<QueueStatus>) -> Seq<Seq<char>> {
    v.map_values(|s: QueueStatus| status_name(s))
}

/// The values bound to a filtered listing: the repository's id, then the
/// names of the statuses.
pub open spec fn entry_list_binds(f: EntryFilter) -> Seq<Seq<char>> {
    (if f.repo_id is Some {
        seq![hyphenated_text((f.repo_id->0).0)]
    } else {
        seq![]
    }) + (if narrows_status(f) {
        status_names(f.statuses->0@)
    } else {
        seq![]
    })
}

/// The statement of a filtered listing, oldest entries first.
pub open spec fn entry_list_sql(f: EntryFilter) -> Seq<char> {
    "SELECT * FROM queue_entries"@ + (if entry_list_clauses(f).len() == 0 {
        seq![]
    } else {
        " WHERE "@ + join_with(entry_list_clauses(f), " AND "@)
    }) + " ORDER BY enqueued_at"@
}

/// The statement and bound values that list the entries a filter admits.
pub fn entry_list_query(f: &EntryFilter) -> (r: (String, Vec<String>))
    ensures
        r.0@ == entry_list_sql(*f),
        views(r.1@) == entry_list_binds(*f),
{
    let mut sql = String::from_str("SELECT * FROM queue_entries");
    let mut binds: Vec<String> = Vec::new();
    let has_repo = f.repo_id.is_some();
    match f.repo_id {
        Some(r) => binds.push(r.to_string()),
        None => {},
    }
    let n: usize = match &f.statuses {
        Some(v) => v.len(),
        None => 0,
    };
    let has_status = n > 0;
    let ghost clauses = entry_list_clauses(*f);
    let ghost base = sql@;
    if has_repo || has_status {
        sql.append(" WHERE ");
    }
    let ghost after_where = sql@;
    if has_repo {
        sql.append("repo_id = ?");
        push_decimal(&mut sql, 1);
    }
    let ghost after_repo = sql@;
    if has_status {
        let first: u64 = if has_repo {
            2
        } else {
            1
        };
        if has_repo {
            sql.append(" AND ");
        }
        let ghost before_status = sql@;
        sql.append("status IN (");
        push_placeholders(&mut sql, first, n);
        sql.append(")");
        proof {
            let c = "status IN ("@ + placeholder_list(first as nat, n as nat) + ")"@;
            assert(sql@ =~= before_status + c);
        }
        match &f.statuses {
            Some(v) => {
                let ghost start = views(binds@);
                let mut i: usize = 0;
                while i < v.len()
                    invariant
                        i <= v@.len(),
                        views(binds@) == start + status_names(v@.subrange(0, i as int)),
                    decreases v@.len() - i,
                {
                    let ghost prev = binds@;
                    binds.push(owned(v[i].as_str()));
                    proof {
                        assert(views(binds@) =~= views(prev).push(status_name(v@[i as int])));
                        assert(status_names(v@.subrange(0, i + 1)) =~= status_names(
                            v@.subrange(0, i as int),
                        ).push(status_name(v@[i as int])));
                    }
                    i = i + 1;
                }
                assert(v@.subrange(0, v@.len() as int) =~= v@);
            },
            None => {},
        }
    }
    proof {
        assert(after_repo =~= after_where + (if has_repo {
            "repo_id = ?"@ + decimal(1)
        } else {
            seq![]
        }));
        if has_repo && has_status {
            assert(clauses.len() == 2);
            assert(clauses.drop_last() =~= seq![clauses[0]]);
            assert(join_with(clauses, " AND "@) == join_with(clauses.drop_last(), " AND "@) + " AND "@
                + clauses[1]);
            assert(sql@ =~= base + " WHERE "@ + join_with(clauses, " AND "@));
        } else if has_repo {
            assert(clauses =~= seq!["repo_id = ?"@ + decimal(1)]);
            assert(sql@ =~= base + " WHERE "@ + join_with(clauses, " AND "@));
        } else if has_status {
            assert(clauses.len() == 1);
            assert(sql@ =~= base + " WHERE "@ + join_with(clauses, " AND "@));
        } else {
            assert(clauses.len() == 0);
        }
        assert(views(binds@) =~= entry_list_binds(*f));
    }
    sql.append(" ORDER BY enqueued_at");
    assert(sql@ =~= entry_list_sql(*f));
    (sql, binds)
}

/// The sweep that returns to the queue every entry in progress whose claim
/// is held by a process not among the live ones.
pub open spec fn sweep_sql(live: nat) -> Seq<char> {
    "UPDATE queue_entries SET status = 'Queued', claimed_by_pid = NULL, claimed_at = NULL, last_outcome = NULL WHERE status IN ('Rebasing','CIRunning','Merging') AND claimed_by_pid IS NOT NULL"@
        + (if live == 0 {
        seq![]
    } else {
        " AND claimed_by_pid NOT IN ("@ + placeholder_list(1, live) + ")"@
    })
}

/// The live process ids as stored.
pub open spec fn pid_binds(live: Seq<u32>) -> Seq<i64> {
    live.map_values(|p: u32| p as i64)
}

/// The statuses of an entry that a worker is carrying through the
/// pipeline.
pub open spec fn in_progress_statuses() -> Seq<QueueStatus> {
    seq![QueueStatus::Rebasing, QueueStatus::CIRunning, QueueStatus::Merging]
}

/// The names of statuses, each in single quotes.
pub open spec fn quoted_names(v: Seq<QueueStatus>) -> Seq<Seq<char>> {
    v.map_values(|s: QueueStatus| "'"@ + status_name(s) + "'"@)
}

/// The text of a claim release: it sets the status `to` and clears the
/// claim and the last outcome of every entry whose status is one of `from`
/// and whose claim is held, except where the claimant is one of the `live`
/// values bound to its placeholders.
pub open spec fn release_statement(to: QueueStatus, from: Seq<QueueStatus>, live: nat) -> Seq<
    char,
> {
    "UPDATE queue_entries SET status = '"@ + status_name(to)
        + "', claimed_by_pid = NULL, claimed_at = NULL, last_outcome = NULL WHERE status IN ("@
        + join_with(quoted_names(from), ","@) + ") AND claimed_by_pid IS NOT NULL"@ + (if live
        == 0 {
        seq![]
    } else {
        " AND claimed_by_pid NOT IN ("@ + placeholder_list(1, live) + ")"@
    })
}

/// What a claim release does to one entry when `live` is bound to its
/// placeholders: an entry it matches gets status `to`, no claimant, no
/// claim time and no last outcome; any other entry stays as it was.
pub open spec fn release_effect(to: QueueStatus, from: Seq<QueueStatus>, live: Seq<i64>, e: QueueEntry) -> QueueEntry {
    if from.contains(e.status) && e.claimed_by_pid is Some && !live.contains(
        (e.claimed_by_pid->0) as i64,
    ) {
        QueueEntry { status: to, claimed_by_pid: None, claimed_at: None, last_outcome: None, ..e }
    } else {
        e
    }
}

/// The sweep statement is the claim release that puts entries in progress
/// back to `Queued`.
proof fn lemma_sweep_is_release(live: nat)
    ensures
        sweep_sql(live) == release_statement(QueueStatus::Queued, in_progress_statuses(), live),
{
    let q = quoted_names(in_progress_statuses());
    assert(q.drop_last().drop_last() =~= seq![q[0]]);
    assert(join_with(q.drop_last(), ","@) == join_with(q.drop_last().drop_last(), ","@) + ","@ + q[1]);
    reveal_strlit("'");
    reveal_strlit(",");
    reveal_strlit("Queued");
    reveal_strlit("Rebasing");
    reveal_strlit("CIRunning");
    reveal_strlit("Merging");
    reveal_strlit("UPDATE queue_entries SET status = '");
    reveal_strlit("', claimed_by_pid = NULL, claimed_at = NULL, last_outcome = NULL WHERE status IN (");
    reveal_strlit(") AND claimed_by_pid IS NOT NULL");
    reveal_strlit(
        "UPDATE queue_entries SET status = 'Queued', claimed_by_pid = NULL, claimed_at = NULL, last_outcome = NULL WHERE status IN ('Rebasing','CIRunning','Merging') AND claimed_by_pid IS NOT NULL",
    );
    assert(join_with(q, ","@) =~= "'Rebasing','CIRunning','Merging'"@) by {
        reveal_strlit("'Rebasing','CIRunning','Merging'");
    }
    assert(sweep_sql(live) =~= release_statement(QueueStatus::Queued, in_progress_statuses(), live));
}

/// The sweep statement for the given live processes, with their ids bound
/// to its placeholders.
pub fn sweep_query(live_pids: &Vec<u32>) -> (r: (String, Vec<i64>))
    ensures
        r.0@ == sweep_sql(live_pids@.len()),
        r.0@ == release_statement(QueueStatus::Queued, in_progress_statuses(), live_pids@.len()),
        r.1@ == pid_binds(live_pids@),
{
    proof {
        lemma_sweep_is_release(live_pids@.len());
    }
    let mut sql = String::from_str(
        "UPDATE queue_entries SET status = 'Queued', claimed_by_pid = NULL, claimed_at = NULL, last_outcome = NULL WHERE status IN ('Rebasing','CIRunning','Merging') AND claimed_by_pid IS NOT NULL",
    );
    let ghost base = sql@;
    let mut binds: Vec<i64> = Vec::new();
    let mut i: usize = 0;
    while i < live_pids.len()
        invariant
            i <= live_pids@.len(),
            binds@ == pid_binds(live_pids@.subrange(0, i as int)),
        decreases live_pids@.len() - i,
    {
        binds.push(live_pids[i] as i64);
        proof {
            assert(pid_binds(live_pids@.subrange(0, i + 1)) =~= pid_binds(
                live_pids@.subrange(0, i as int),
            ).push(live_pids@[i as int] as i64));
        }
        i = i + 1;
    }
    assert(live_pids@.subrange(0, live_pids@.len() as int) =~= live_pids@);
    let n = live_pids.len();
    if n > 0 {
        sql.append(" AND claimed_by_pid NOT IN (");
        push_placeholders(&mut sql, 1, n);
        sql.append(")");
        assert(sql@ =~= sweep_sql(live_pids@.len()));
    } else {
        assert(sql@ =~= sweep_sql(live_pids@.len()));
    }
    (sql, binds)
}

/// Running the sweep with the live processes' ids bound hands every entry
/// in progress whose claim is held by a process not among them back to the
/// queue: `Queued`, with no claimant, no claim time and no last outcome,
/// every other field kept. Entries of live processes, unclaimed entries and
/// entries not in progress are left as they were.
pub proof fn lemma_sweep_returns_dead_claims(live: Seq<u32>, e: QueueEntry)
    ensures
        ({
            let after = release_effect(
                QueueStatus::Queued,
                in_progress_statuses(),
                pid_binds(live),
                e,
            );
            if (e.status is Rebasing || e.status is CIRunning || e.status is Merging)
                && e.claimed_by_pid is Some && !live.contains(e.claimed_by_pid->0) {
                &&& after.status == QueueStatus::Queued
                &&& after.claimed_by_pid is None
                &&& after.claimed_at is None
                &&& after.last_outcome is None
                &&& after == (QueueEntry {
                    status: QueueStatus::Queued,
                    claimed_by_pid: None,
                    claimed_at: None,
                    last_outcome: None,
                    ..e
                })
            } else {
                after == e
            }
        }),
{
    let from = in_progress_statuses();
    let binds = pid_binds(live);
    assert(from[0] == QueueStatus::Rebasing && from[1] == QueueStatus::CIRunning && from[2]
        == QueueStatus::Merging);
    assert(from.contains(e.status) <==> (e.status is Rebasing || e.status is CIRunning
        || e.status is Merging));
    if e.claimed_by_pid is Some {
        let p = e.claimed_by_pid->0;
        if live.contains(p) {
            let k = choose|k: int| 0 <= k < live.len() && live[k] == p;
            assert(binds[k] == p as i64);
        }
        if binds.contains(p as i64) {
            let k = choose|k: int| 0 <= k < binds.len() && binds[k] == p as i64;
            assert(live[k] == p);
        }
    }
}

} // verus!
