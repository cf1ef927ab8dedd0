//! Run-scoped statistics: a count of verification records per outcome kind.

use vstd::prelude::*;
use crate::outcome::VerifyErr;
use crate::outcome::VerifyErrType;

verus! {

/// How many records of kind `k` the sequence holds.
pub open spec fn count_kind(recs: Seq<VerifyErr>, k: VerifyErrType) -> int
    decreases recs.len(),
{
    if recs.len() == 0 {
        0
    } else {
        count_kind(recs.drop_last(), k) + if recs.last().kind == k {
            1int
        } else {
            0int
        }
    }
}

pub proof fn lemma_count_kind_push(recs: Seq<VerifyErr>, e: VerifyErr, k: VerifyErrType)
    ensures
        count_kind(recs.push(e), k) == count_kind(recs, k) + if e.kind == k {
            1int
        } else {
            0int
        },
{
    assert(recs.push(e).drop_last() =~= recs);
    assert(recs.push(e).last() == e);
}

/// Counts of records per outcome kind, initialized to zero and only ever
/// incremented; local to one verification run.
#[derive(Clone, Copy, Debug, PartialEq, Eq, Structural)]
pub struct VerifyErrStats {
    src_missing: u64,
    dst_missing: u64,
    src_smaller: u64,
    dst_smaller: u64,
    ok: u64,
}

impl VerifyErrStats {
    /// The count recorded for kind `k`.
    pub closed spec fn count_spec(self, k: VerifyErrType) -> u64 {
        match k {
            VerifyErrType::SrcMissing => self.src_missing,
            VerifyErrType::DstMissing => self.dst_missing,
            VerifyErrType::SrcSmaller => self.src_smaller,
            VerifyErrType::DstSmaller => self.dst_smaller,
            VerifyErrType::OK => self.ok,
        }
    }

    /// The sum of all counts.
    pub closed spec fn total_spec(self) -> int {
        self.src_missing + self.dst_missing + self.src_smaller + self.dst_smaller + self.ok
    }

    pub fn new() -> (s: VerifyErrStats)
        ensures
            forall|k: VerifyErrType| #[trigger] s.count_spec(k) == 0,
            s.total_spec() == 0,
    {
        VerifyErrStats { src_missing: 0, dst_missing: 0, src_smaller: 0, dst_smaller: 0, ok: 0 }
    }

    /// Adds one record of kind `k` to the counts.
    pub fn increment(&mut self, k: VerifyErrType)
        requires
            old(self).total_spec() < u64::MAX,
        ensures
            final (self).count_spec(k) == old(self).count_spec(k) + 1,
            forall|k2: VerifyErrType|
                k2 != k ==> #[trigger] final (self).count_spec(k2) == old(self).count_spec(k2),
            final (self).total_spec() == old(self).total_spec() + 1,
    {
        match k {
            VerifyErrType::SrcMissing => self.src_missing = self.src_missing + 1,
            VerifyErrType::DstMissing => self.dst_missing = self.dst_missing + 1,
            VerifyErrType::SrcSmaller => self.src_smaller = self.src_smaller + 1,
            VerifyErrType::DstSmaller => self.dst_smaller = self.dst_smaller + 1,
            VerifyErrType::OK => self.ok = self.ok + 1,
        }
    }

    /// The count recorded for kind `k`.
    pub fn get(&self, k: &VerifyErrType) -> (n: u64)
        ensures
            n == self.count_spec(*k),
    {
        match k {
            VerifyErrType::SrcMissing => self.src_missing,
            VerifyErrType::DstMissing => self.dst_missing,
            VerifyErrType::SrcSmaller => self.src_smaller,
            VerifyErrType::DstSmaller => self.dst_smaller,
            VerifyErrType::OK => self.ok,
        }
    }

    /// The sum of all counts: after a completed run, the number of
    /// non-directory entries the traversal enumerated.
    pub fn total(&self) -> (n: u64)
        requires
            self.total_spec() <= u64::MAX,
        ensures
            n == self.total_spec(),
    {
        self.src_missing + self.dst_missing + self.src_smaller + self.dst_smaller + self.ok
    }

    /// Whether no record at all was counted.
    pub fn is_empty(&self) -> (b: bool)
        ensures
            b == (self.total_spec() == 0),
    {
        self.src_missing == 0 && self.dst_missing == 0 && self.src_smaller == 0
            && self.dst_smaller == 0 && self.ok == 0
    }
}

/// `s` holds exactly the per-kind counts of `recs`.
pub open spec fn stats_match(s: VerifyErrStats, recs: Seq<VerifyErr>) -> bool {
    forall|k: VerifyErrType| #[trigger] s.count_spec(k) == count_kind(recs, k)
}

/// Completeness: the five per-kind counts partition a record sequence, so
/// their sum is exactly the number of records.
pub proof fn lemma_count_partition(recs: Seq<VerifyErr>)
    ensures
        count_kind(recs, VerifyErrType::SrcMissing) + count_kind(recs, VerifyErrType::DstMissing)
            + count_kind(recs, VerifyErrType::SrcSmaller) + count_kind(
            recs,
            VerifyErrType::DstSmaller,
        ) + count_kind(recs, VerifyErrType::OK) == recs.len(),
    decreases recs.len(),
{
    if recs.len() > 0 {
        lemma_count_partition(recs.drop_last());
    }
}

/// Statistics are a function of the record sequence alone: two runs that
/// count the same records end with equal statistics.
pub proof fn lemma_stats_determined(recs: Seq<VerifyErr>, s1: VerifyErrStats, s2: VerifyErrStats)
    requires
        stats_match(s1, recs),
        stats_match(s2, recs),
    ensures
        s1 == s2,
{
    assert(s1.count_spec(VerifyErrType::SrcMissing) == s2.count_spec(VerifyErrType::SrcMissing));
    assert(s1.count_spec(VerifyErrType::DstMissing) == s2.count_spec(VerifyErrType::DstMissing));
    assert(s1.count_spec(VerifyErrType::SrcSmaller) == s2.count_spec(VerifyErrType::SrcSmaller));
    assert(s1.count_spec(VerifyErrType::DstSmaller) == s2.count_spec(VerifyErrType::DstSmaller));
    assert(s1.count_spec(VerifyErrType::OK) == s2.count_spec(VerifyErrType::OK));
}

/// A statistics value that matches a record sequence totals to the number of
/// records.
pub proof fn lemma_stats_total(recs: Seq<VerifyErr>, s: VerifyErrStats)
    requires
        stats_match(s, recs),
    ensures
        s.total_spec() == recs.len(),
{
    lemma_count_partition(recs);
    assert(s.count_spec(VerifyErrType::SrcMissing) == count_kind(recs, VerifyErrType::SrcMissing));
    assert(s.count_spec(VerifyErrType::DstMissing) == count_kind(recs, VerifyErrType::DstMissing));
    assert(s.count_spec(VerifyErrType::SrcSmaller) == count_kind(
        recs,
        VerifyErrType::SrcSmaller,
    ));
    assert(s.count_spec(VerifyErrType::DstSmaller) == count_kind(
        recs,
        VerifyErrType::DstSmaller,
    ));
    assert(s.count_spec(VerifyErrType::OK) == count_kind(recs, VerifyErrType::OK));
}

} // verus!
