use vstd::prelude::*;

use crate::record::DicomData;

verus! {

/// One file that failed as a whole: the file's path and the diagnostic
/// text of the failure.
#[derive(Debug, Clone, PartialEq)]
pub struct FileFailure {
    /// The path of the file that failed to open or decode.
    pub path: String,
    /// The diagnostic text of the failure.
    pub message: String,
}

/// The aggregate outcome of a batch run: the records of the files that
/// succeeded, the failures, and the number of files considered.
#[derive(Debug, Clone, PartialEq)]
pub struct BatchReport {
    /// Records of the files that were extracted, in completion order.
    pub succeeded: Vec<DicomData>,
    /// The files that failed as a whole, in completion order.
    pub failed: Vec<FileFailure>,
    /// The number of files the run considered.
    pub total_discovered: usize,
}

/// The records of the outcomes that succeeded, in order.
pub open spec fn spec_successes(rs: Seq<Result<DicomData, FileFailure>>) -> Seq<DicomData>
    decreases rs.len(),
{
    if rs.len() == 0 {
        Seq::empty()
    } else {
        match rs.last() {
            Ok(d) => spec_successes(rs.drop_last()).push(d),
            Err(_) => spec_successes(rs.drop_last()),
        }
    }
}

/// The failures among the outcomes, in order.
pub open spec fn spec_failures(rs: Seq<Result<DicomData, FileFailure>>) -> Seq<FileFailure>
    decreases rs.len(),
{
    if rs.len() == 0 {
        Seq::empty()
    } else {
        match rs.last() {
            Ok(_) => spec_failures(rs.drop_last()),
            Err(f) => spec_failures(rs.drop_last()).push(f),
        }
    }
}

/// Every outcome is counted exactly once: the successes and the failures
/// partition the outcome list, so their lengths add up to its length.
pub proof fn lemma_outcome_partition(rs: Seq<Result<DicomData, FileFailure>>)
    ensures
        spec_successes(rs).len() + spec_failures(rs).len() == rs.len(),
    decreases rs.len(),
{
    if rs.len() > 0 {
        lemma_outcome_partition(rs.drop_last());
    }
}

/// Removing one outcome removes exactly its own contribution from the
/// successes.
proof fn lemma_successes_remove(rs: Seq<Result<DicomData, FileFailure>>, i: int)
    requires
        0 <= i < rs.len(),
    ensures
        match rs[i] {
            Ok(d) => spec_successes(rs).to_multiset() == spec_successes(rs.remove(i)).to_multiset().insert(d),
            Err(_) => spec_successes(rs).to_multiset() == spec_successes(rs.remove(i)).to_multiset(),
        },
    decreases rs.len(),
{
    broadcast use vstd::seq_lib::group_to_multiset_ensures;

    if i == rs.len() - 1 {
        assert(rs.remove(i) =~= rs.drop_last());
    } else {
        let dl = rs.drop_last();
        let r2 = rs.remove(i);
        assert(r2.last() == rs.last());
        assert(r2.drop_last() =~= dl.remove(i));
        lemma_successes_remove(dl, i);
        match rs[i] {
            Ok(d) => {
                match rs.last() {
                    Ok(e) => {
                        assert(spec_successes(rs).to_multiset() =~= spec_successes(
                            r2,
                        ).to_multiset().insert(d));
                    },
                    Err(_) => {},
                }
            },
            Err(_) => {},
        }
    }
}

/// Removing one outcome removes exactly its own contribution from the
/// failures.
proof fn lemma_failures_remove(rs: Seq<Result<DicomData, FileFailure>>, i: int)
    requires
        0 <= i < rs.len(),
    ensures
        match rs[i] {
            Ok(_) => spec_failures(rs).to_multiset() == spec_failures(rs.remove(i)).to_multiset(),
            Err(f) => spec_failures(rs).to_multiset() == spec_failures(rs.remove(i)).to_multiset().insert(f),
        },
    decreases rs.len(),
{
    broadcast use vstd::seq_lib::group_to_multiset_ensures;

    if i == rs.len() - 1 {
        assert(rs.remove(i) =~= rs.drop_last());
    } else {
        let dl = rs.drop_last();
        let r2 = rs.remove(i);
        assert(r2.last() == rs.last());
        assert(r2.drop_last() =~= dl.remove(i));
        lemma_failures_remove(dl, i);
        match rs[i] {
            Err(f) => {
                match rs.last() {
                    Err(_) => {
                        assert(spec_failures(rs).to_multiset() =~= spec_failures(
                            r2,
                        ).to_multiset().insert(f));
                    },
                    Ok(_) => {},
                }
            },
            Ok(_) => {},
        }
    }
}

/// The report does not depend on the order in which outcomes complete:
/// two outcome lists that hold the same outcomes, however interleaved,
/// yield the same multiset of records, the same multiset of failures and
/// the same total. Running the pipeline twice over an unchanged input set
/// therefore reports the same partition.
pub proof fn lemma_report_order_independent(
    rs1: Seq<Result<DicomData, FileFailure>>,
    rs2: Seq<Result<DicomData, FileFailure>>,
)
    requires
        rs1.to_multiset() == rs2.to_multiset(),
    ensures
        spec_successes(rs1).to_multiset() == spec_successes(rs2).to_multiset(),
        spec_failures(rs1).to_multiset() == spec_failures(rs2).to_multiset(),
        rs1.len() == rs2.len(),
    decreases rs1.len(),
{
    broadcast use vstd::seq_lib::group_to_multiset_ensures;

    if rs1.len() == 0 {
        assert(rs2.to_multiset().len() == 0);
        assert(rs1 =~= rs2);
    } else {
        let x = rs1.last();
        let n = rs1.len() - 1;
        assert(rs1[n] == x);
        assert(rs1.contains(x));
        assert(rs2.to_multiset().count(x) > 0);
        assert(rs2.contains(x));
        let j = choose|j: int| 0 <= j < rs2.len() && rs2[j] == x;
        let rs1p = rs1.drop_last();
        let rs2p = rs2.remove(j);
        assert(rs1.remove(n) =~= rs1p);
        assert(rs1p.to_multiset() == rs1.to_multiset().remove(x));
        assert(rs2p.to_multiset() == rs2.to_multiset().remove(x));
        lemma_report_order_independent(rs1p, rs2p);
        lemma_successes_remove(rs1, n);
        lemma_successes_remove(rs2, j);
        lemma_failures_remove(rs1, n);
        lemma_failures_remove(rs2, j);
    }
}

/// Folds the per-file outcomes of a batch into its report. Every outcome
/// lands in exactly one of the two collections, in the order handed in,
/// and the counts add up: with `N` outcomes of which `K` failed, the
/// report holds `N - K` records, `K` failures, and `N` as its total.
pub fn aggregate_results(results: Vec<Result<DicomData, FileFailure>>) -> (r: BatchReport)
    ensures
        r.succeeded@ == spec_successes(results@),
        r.failed@ == spec_failures(results@),
        r.total_discovered == results@.len(),
        r.succeeded@.len() + r.failed@.len() == r.total_discovered,
{
    let ghost all = results@;
    let total_discovered = results.len();
    let mut remaining = results;
    let mut succeeded: Vec<DicomData> = Vec::new();
    let mut failed: Vec<FileFailure> = Vec::new();
    let ghost mut done: int = 0;
    while remaining.len() > 0
        invariant
            0 <= done <= all.len(),
            remaining@ == all.skip(done),
            succeeded@ == spec_successes(all.take(done)),
            failed@ == spec_failures(all.take(done)),
        decreases remaining@.len(),
    {
        let next = remaining.remove(0);
        proof {
            assert(all.skip(done).remove(0) =~= all.skip(done + 1));
            assert(all.take(done + 1).drop_last() =~= all.take(done));
            assert(all.take(done + 1).last() == all[done]);
            assert(all.skip(done)[0] == all[done]);
        }
        match next {
            Ok(d) => succeeded.push(d),
            Err(f) => failed.push(f),
        }
        proof {
            done = done + 1;
        }
    }
    proof {
        assert(all.take(done) =~= all);
        lemma_outcome_partition(all);
    }
    BatchReport { succeeded, failed, total_discovered }
}

/// Whether a discovered directory entry takes part in the batch: every
/// regular file does, except the platform's metadata artifact.
pub fn keep_file(name: &str) -> (r: bool)
    ensures
        r == (name@ != ".DS_Store"@),
{
    let candidate = String::from_str(name);
    let artifact = String::from_str(".DS_Store");
    !(candidate == artifact)
}

} // verus!
