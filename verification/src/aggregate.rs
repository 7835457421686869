//! Merging and ordering.
//!
//! One run reads many database files; each read either yields records or
//! fails on its own. Failures are collected, never propagated: one bad file
//! must not cost the records of another. The merged records are then ordered
//! by visit time, newest first.

use vstd::prelude::*;
use crate::record::Browser;
use crate::record::VisitRecord;

verus! {

broadcast use vstd::seq_lib::group_to_multiset_ensures;

/// A source file whose read failed: which browser it was read for, the
/// path it came from, and a human-readable description of the failure.
#[derive(Debug)]
pub struct SourceError {
    pub browser: Browser,
    pub path: String,
    pub detail: String,
}

/// The records of the successful reads, in arrival order.
pub open spec fn merged_records(rs: Seq<Result<Vec<VisitRecord>, SourceError>>) -> Seq<
    VisitRecord,
>
    decreases rs.len(),
{
    if rs.len() == 0 {
        Seq::empty()
    } else {
        (if rs.first() is Ok {
            rs.first()->Ok_0@
        } else {
            Seq::empty()
        }) + merged_records(rs.drop_first())
    }
}

/// The failures of the failed reads, in arrival order.
pub open spec fn merged_failures(rs: Seq<Result<Vec<VisitRecord>, SourceError>>) -> Seq<
    SourceError,
>
    decreases rs.len(),
{
    if rs.len() == 0 {
        Seq::empty()
    } else {
        (if rs.first() is Err {
            seq![rs.first()->Err_0]
        } else {
            Seq::empty()
        }) + merged_failures(rs.drop_first())
    }
}

/// Concatenates the records of every successful read, in order, and collects
/// every failure beside them. No failure aborts the merge: the run goes on
/// with what could be read.
pub fn merge_source_results(results: Vec<Result<Vec<VisitRecord>, SourceError>>) -> (r: (
    Vec<VisitRecord>,
    Vec<SourceError>,
))
    ensures
        r.0@ == merged_records(results@),
        r.1@ == merged_failures(results@),
{
    let ghost all = results@;
    let mut remaining = results;
    let mut out: Vec<VisitRecord> = Vec::new();
    let mut errs: Vec<SourceError> = Vec::new();
    while remaining.len() > 0
        invariant
            all == results@,
            out@ + merged_records(remaining@) == merged_records(all),
            errs@ + merged_failures(remaining@) == merged_failures(all),
        decreases remaining@.len(),
    {
        let ghost before = remaining@;
        let next = remaining.remove(0);
        proof {
            assert(before.remove(0) =~= before.drop_first());
            assert(before.first() == next);
        }
        match next {
            Ok(mut v) => {
                let ghost out_before = out@;
                let ghost v_seq = v@;
                out.append(&mut v);
                proof {
                    assert(out@ =~= out_before + v_seq);
                    assert(out@ + merged_records(remaining@) =~= merged_records(all));
                    assert(errs@ + merged_failures(remaining@) =~= merged_failures(all));
                }
            },
            Err(e) => {
                let ghost errs_before = errs@;
                let ghost e_val = e;
                errs.push(e);
                proof {
                    assert(errs@ =~= errs_before + seq![e_val]);
                    assert(out@ + merged_records(remaining@) =~= merged_records(all));
                    assert(errs@ + merged_failures(remaining@) =~= merged_failures(all));
                }
            },
        }
    }
    proof {
        assert(out@ + merged_records(remaining@) =~= out@);
        assert(errs@ + merged_failures(remaining@) =~= errs@);
    }
    (out, errs)
}

/// Newest first: visit times never increase along the sequence.
pub open spec fn sorted_by_time_desc(s: Seq<VisitRecord>) -> bool {
    forall|i: int, j: int|
        0 <= i <= j < s.len() ==> s[i].visit_time.micros >= s[j].visit_time.micros
}

/// Orders the aggregate by visit time, newest first. The result holds
/// exactly the given records: nothing is dropped, duplicated or altered.
/// Ties keep no promised relative order.
pub fn sort_visits_desc(records: Vec<VisitRecord>) -> (r: Vec<VisitRecord>)
    ensures
        sorted_by_time_desc(r@),
        r@.to_multiset() == records@.to_multiset(),
        r@.len() == records@.len(),
{
    let ghost all = records@;
    let mut rest = records;
    let mut out: Vec<VisitRecord> = Vec::new();
    proof {
        assert(out@.to_multiset().add(rest@.to_multiset()) =~= all.to_multiset());
    }
    while rest.len() > 0
        invariant
            out@.to_multiset().add(rest@.to_multiset()) == all.to_multiset(),
            out@.len() + rest@.len() == all.len(),
            sorted_by_time_desc(out@),
            forall|a: int, b: int|
                0 <= a < out@.len() && 0 <= b < rest@.len() ==> out@[a].visit_time.micros
                    >= rest@[b].visit_time.micros,
        decreases rest@.len(),
    {
        let mut imax: usize = 0;
        let mut k: usize = 1;
        while k < rest.len()
            invariant
                rest@.len() > 0,
                imax < rest@.len(),
                k <= rest@.len(),
                forall|b: int|
                    0 <= b < k ==> rest@[imax as int].visit_time.micros
                        >= rest@[b].visit_time.micros,
            decreases rest@.len() - k,
        {
            if rest[k].visit_time.micros > rest[imax].visit_time.micros {
                imax = k;
            }
            k = k + 1;
        }
        let ghost rest_before = rest@;
        let ghost out_before = out@;
        let x = rest.remove(imax);
        proof {
            assert(rest_before.contains(x));
        }
        out.push(x);
        proof {
            assert(rest_before.to_multiset().count(x) > 0);
            assert(out@.to_multiset().add(rest@.to_multiset()) =~= all.to_multiset());
        }
    }
    proof {
        assert(out@.to_multiset() =~= out@.to_multiset().add(rest@.to_multiset()));
    }
    out
}

/// One run's aggregation, whole: merges the per-source outcomes, tolerating
/// failures, and orders the merged records newest first. The records out
/// are exactly the records of the successful reads; the failures out are
/// exactly the failures, in arrival order.
pub fn aggregate_run(outcomes: Vec<Result<Vec<VisitRecord>, SourceError>>) -> (r: (
    Vec<VisitRecord>,
    Vec<SourceError>,
))
    ensures
        r.0@.to_multiset() == merged_records(outcomes@).to_multiset(),
        sorted_by_time_desc(r.0@),
        r.0@.len() == merged_records(outcomes@).len(),
        r.1@ == merged_failures(outcomes@),
{
    let (records, failures) = merge_source_results(outcomes);
    let sorted = sort_visits_desc(records);
    (sorted, failures)
}

/// A report is written only when some visits were found; with an empty
/// aggregate the exporter is never invoked.
pub fn should_export(records: &Vec<VisitRecord>) -> (b: bool)
    ensures
        b <==> records@.len() > 0,
{
    records.len() > 0
}

} // verus!
