//! The verification driver: runs the tree walker as producer onto the result
//! channel, then drains the channel with a three-state poll loop, counting
//! every record and handing the filter-admitted ones to the observer.
//!
//! The whole-run drivers here run the producer to completion before draining,
//! on the calling thread: final statistics, record order and observer order
//! are exactly those of an incremental run, but the observer is called only
//! after the walk has finished. A caller that wants incremental consumption
//! alongside a live traversal runs the producer on a thread of its own and
//! polls with the same three-state contract.

use vstd::prelude::*;
use crate::channel::channel_queue;
use crate::channel::channel_send_open;
use crate::channel::RecvPoll;
use crate::channel::ResultChannel;
use crate::outcome::compare_sizes;
use crate::outcome::spec_classify;
use crate::outcome::spec_message;
use crate::outcome::FilterPolicy;
use crate::outcome::VerifyErr;
use crate::outcome::VerifyErrType;
use crate::paths::derive_dst_path;
use crate::paths::join_at;
use crate::paths::lemma_starts_at_root_rel;
use crate::paths::rel_of;
use crate::paths::spec_derive_dst;
use crate::paths::starts_at_root;
use crate::stats::count_kind;
use crate::stats::lemma_count_kind_push;
use crate::stats::stats_match;
use crate::stats::VerifyErrStats;
use crate::walk::probe_len;
use crate::walk::walk_contents_first;

verus! {

/// A caller-supplied observer, invoked once per filter-admitted record, on
/// the consuming thread only.
pub trait VerifyErrLogger {
    fn log(&mut self, e: &VerifyErr);
}

/// An observer that keeps every record handed to it.
pub struct RecordCollector {
    pub records: Vec<VerifyErr>,
}

impl RecordCollector {
    pub fn new() -> (c: RecordCollector)
        ensures
            c.records@.len() == 0,
    {
        RecordCollector { records: Vec::new() }
    }
}

impl VerifyErrLogger for RecordCollector {
    fn log(&mut self, e: &VerifyErr) {
        self.records.push(e.clone());
    }
}

/// The comparator's record for the entry `entry` found under `src_root`,
/// classified against its derived path under `dst_root`, for some pair of
/// probed byte lengths: kind and message belong to one classification of
/// that very entry.
pub open spec fn record_for(
    r: VerifyErr,
    entry: Seq<char>,
    src_root: Seq<char>,
    dst_root: Seq<char>,
) -> bool {
    exists|s: Option<u64>, d: Option<u64>|
        rel_of(src_root, entry) is Some && r.kind == spec_classify(s, d) && r.message@
            == spec_message(entry, join_at(dst_root, rel_of(src_root, entry)->0), s, d)
}

/// Exactly one record per entry, in order: the i-th record of `recs` is the
/// comparator's record for the i-th entry of `entries`.
pub open spec fn records_for_entries(
    recs: Seq<VerifyErr>,
    entries: Seq<String>,
    src_root: Seq<char>,
    dst_root: Seq<char>,
) -> bool {
    &&& recs.len() == entries.len()
    &&& forall|i: int|
        0 <= i < recs.len() ==> record_for(#[trigger] recs[i], entries[i]@, src_root, dst_root)
}

/// The subsequence of `recs` whose kinds the policy admits, in order: the
/// records that reach the observer.
pub open spec fn admitted(recs: Seq<VerifyErr>, p: FilterPolicy) -> Seq<VerifyErr>
    decreases recs.len(),
{
    if recs.len() == 0 {
        Seq::<VerifyErr>::empty()
    } else if p.admits(recs.last().kind) {
        admitted(recs.drop_last(), p).push(recs.last())
    } else {
        admitted(recs.drop_last(), p)
    }
}

pub proof fn lemma_admitted_push(recs: Seq<VerifyErr>, e: VerifyErr, p: FilterPolicy)
    ensures
        admitted(recs.push(e), p) == if p.admits(e.kind) {
            admitted(recs, p).push(e)
        } else {
            admitted(recs, p)
        },
{
    assert(recs.push(e).drop_last() =~= recs);
    assert(recs.push(e).last() == e);
}

/// Filter independence: the accept-all policy admits every record unchanged
/// and in order, and the errors-only policy admits exactly the records that
/// are not matches — counting is never affected by either.
pub proof fn lemma_filter_independence(recs: Seq<VerifyErr>)
    ensures
        admitted(recs, FilterPolicy::AcceptAll) == recs,
        admitted(recs, FilterPolicy::ErrorsOnly).len() == recs.len() - count_kind(
            recs,
            VerifyErrType::OK,
        ),
    decreases recs.len(),
{
    if recs.len() > 0 {
        lemma_filter_independence(recs.drop_last());
        assert(admitted(recs, FilterPolicy::AcceptAll) =~= recs);
    }
}

/// Order preservation: the records a policy admits appear in emission order —
/// the admitted sequence maps into the emitted one by a strictly increasing
/// index map.
pub proof fn lemma_admitted_preserves_order(recs: Seq<VerifyErr>, p: FilterPolicy) -> (m: Seq<
    int,
>)
    ensures
        m.len() == admitted(recs, p).len(),
        forall|i: int| 0 <= i < m.len() ==> 0 <= #[trigger] m[i] < recs.len(),
        forall|i: int| 0 <= i < m.len() ==> admitted(recs, p)[i] == recs[#[trigger] m[i]],
        forall|i: int, j: int| 0 <= i < j < m.len() ==> #[trigger] m[i] < #[trigger] m[j],
    decreases recs.len(),
{
    if recs.len() == 0 {
        Seq::<int>::empty()
    } else {
        let m0 = lemma_admitted_preserves_order(recs.drop_last(), p);
        assert(forall|k: int|
            0 <= k < recs.len() - 1 ==> recs.drop_last()[k] == #[trigger] recs[k]);
        if p.admits(recs.last().kind) {
            let m = m0.push(recs.len() - 1);
            assert(admitted(recs, p) == admitted(recs.drop_last(), p).push(recs.last()));
            assert(forall|i: int|
                0 <= i < m0.len() ==> #[trigger] admitted(recs, p)[i] == admitted(
                    recs.drop_last(),
                    p,
                )[i]);
            m
        } else {
            m0
        }
    }
}

/// Classifies one source path against one destination path: the source's
/// byte length decides first, then the destination's, then their order. The
/// destination is probed only when the source exists. Never fails: a path
/// that cannot be probed is an outcome, not an error.
pub fn verify(src: &str, dst: &str) -> (r: VerifyErr)
    ensures
        exists|s: Option<u64>, d: Option<u64>|
            r.kind == spec_classify(s, d) && r.message@ == spec_message(src@, dst@, s, d),
{
    let src_len = probe_len(src);
    let dst_len = if src_len.is_some() {
        probe_len(dst)
    } else {
        None
    };
    let r = compare_sizes(src, dst, src_len, dst_len);
    proof {
        assert(r.kind == spec_classify(src_len, dst_len) && r.message@ == spec_message(
            src@,
            dst@,
            src_len,
            dst_len,
        ));
    }
    r
}

/// The emit loop, verified for every value of the traversal's outcome: given
/// the enumerated entries, appends to the channel exactly one record per
/// entry, in order — the comparator's record for that entry against its
/// derived destination path.
pub fn emit_records(
    src_path: &str,
    dst_path: &str,
    entries: &Vec<String>,
    chan: &mut ResultChannel,
)
    requires
        channel_send_open(*old(chan)),
        forall|i: int|
            0 <= i < entries@.len() ==> starts_at_root(src_path@, (#[trigger] entries@[i])@),
    ensures
        channel_send_open(*final (chan)),
        channel_queue(*old(chan)).is_prefix_of(channel_queue(*final (chan))),
        records_for_entries(
            channel_queue(*final (chan)).skip(channel_queue(*old(chan)).len() as int),
            entries@,
            src_path@,
            dst_path@,
        ),
{
    let ghost q0 = channel_queue(*chan);
    let ghost mut sent: Seq<VerifyErr> = Seq::<VerifyErr>::empty();
    let n = entries.len();
    let mut i: usize = 0;
    proof {
        assert(q0 + sent =~= channel_queue(*chan));
    }
    while i < n
        invariant
            i <= n == entries@.len(),
            channel_send_open(*chan),
            q0 == channel_queue(*old(chan)),
            channel_queue(*chan) == q0 + sent,
            sent.len() == i,
            forall|j: int|
                0 <= j < i ==> record_for(#[trigger] sent[j], entries@[j]@, src_path@, dst_path@),
            forall|j: int|
                0 <= j < entries@.len() ==> starts_at_root(src_path@, (#[trigger] entries@[j])@),
        decreases n - i,
    {
        let entry = &entries[i];
        proof {
            lemma_starts_at_root_rel(src_path@, entry@);
        }
        if let Some(d) = derive_dst_path(src_path, dst_path, entry.as_str()) {
            let src_len = probe_len(entry.as_str());
            let dst_len = if src_len.is_some() {
                probe_len(d.as_str())
            } else {
                None
            };
            let rec = compare_sizes(entry.as_str(), d.as_str(), src_len, dst_len);
            proof {
                assert(spec_derive_dst(src_path@, dst_path@, entry@) == Some(d@));
                assert(d@ == join_at(dst_path@, rel_of(src_path@, entry@)->0));
                assert(rel_of(src_path@, entry@) is Some && rec.kind == spec_classify(
                    src_len,
                    dst_len,
                ) && rec.message@ == spec_message(
                    entry@,
                    join_at(dst_path@, rel_of(src_path@, entry@)->0),
                    src_len,
                    dst_len,
                ));
                assert(record_for(rec, entry@, src_path@, dst_path@));
            }
            let ghost grec = rec;
            chan.send(rec);
            proof {
                sent = sent.push(grec);
                assert(q0 + sent =~= channel_queue(*chan));
            }
        } else {
            proof {
                assert(false);
            }
        }
        i = i + 1;
    }
    proof {
        assert(channel_queue(*chan).skip(q0.len() as int) =~= sent);
        assert(channel_queue(*chan).subrange(0, q0.len() as int) =~= q0);
    }
}

/// The producer: walks the tree under `src_path` depth-first with contents
/// before their directory and hands the enumerated entries to
/// `emit_records`, which appends exactly one record per entry, in traversal
/// order. What is sent for each value of the traversal's outcome is fixed by
/// `emit_records`' own contract; this function adds only the walk.
pub fn verify_path_async(src_path: &str, dst_path: &str, chan: &mut ResultChannel)
    requires
        channel_send_open(*old(chan)),
    ensures
        channel_send_open(*final (chan)),
        channel_queue(*old(chan)).is_prefix_of(channel_queue(*final (chan))),
        exists|entries: Seq<String>|
            #[trigger] records_for_entries(
                channel_queue(*final (chan)).skip(channel_queue(*old(chan)).len() as int),
                entries,
                src_path@,
                dst_path@,
            ),
        channel_queue(*final (chan)).len() - channel_queue(*old(chan)).len() <= usize::MAX,
{
    let entries = walk_contents_first(src_path);
    let n = entries.len();
    emit_records(src_path, dst_path, &entries, chan);
    proof {
        assert(records_for_entries(
            channel_queue(*chan).skip(channel_queue(*old(chan)).len() as int),
            entries@,
            src_path@,
            dst_path@,
        ));
        assert(n == entries@.len());
    }
}

/// The consumer loop: polls the channel until it is closed and drained,
/// counting every record, and handing each admitted one to the observer — at
/// most once per record, in queue order, never concurrently. An empty poll
/// while the sender is open is re-polled.
pub fn drain_stats<L: VerifyErrLogger>(
    chan: &mut ResultChannel,
    filter: FilterPolicy,
    log: &mut L,
) -> (s: VerifyErrStats)
    requires
        channel_queue(*old(chan)).len() <= u64::MAX,
        !channel_send_open(*old(chan)),
    ensures
        stats_match(s, channel_queue(*old(chan))),
        s.total_spec() == channel_queue(*old(chan)).len(),
        channel_queue(*final (chan)).len() == 0,
{
    let mut stats = VerifyErrStats::new();
    let ghost q0 = channel_queue(*chan);
    let ghost mut processed: Seq<VerifyErr> = Seq::<VerifyErr>::empty();
    proof {
        assert(processed + channel_queue(*chan) =~= q0);
    }
    loop
        invariant
            q0.len() <= u64::MAX,
            !channel_send_open(*chan),
            processed + channel_queue(*chan) == q0,
            stats_match(stats, processed),
            stats.total_spec() == processed.len(),
        ensures
            channel_queue(*final (chan)).len() == 0,
            stats_match(stats, q0),
            stats.total_spec() == q0.len(),
        decreases channel_queue(*chan).len(),
    {
        match chan.try_recv() {
            RecvPoll::Item(e) => {
                proof {
                    assert(processed.push(e) + channel_queue(*chan) =~= q0);
                }
                let keep = filter.apply(&e.kind);
                let ghost k = e.kind;
                stats.increment(e.kind);
                if keep {
                    log.log(&e);
                }
                proof {
                    let oldp = processed;
                    processed = processed.push(e);
                    assert forall|k2: VerifyErrType| #[trigger]
                        stats.count_spec(k2) == count_kind(processed, k2) by {
                        lemma_count_kind_push(oldp, e, k2);
                    }
                }
            },
            RecvPoll::Pending => {
                proof {
                    // the sender is gone, so an empty poll can only be Closed
                    assert(false);
                }
            },
            RecvPoll::Closed => {
                proof {
                    assert(processed + channel_queue(*chan) =~= processed);
                }
                break ;
            },
        }
    }
    stats
}

/// The consumer loop of the collecting drivers: polls the channel until it is
/// closed and drained, keeping exactly the admitted records, in queue order.
pub fn drain_filtered_records(chan: &mut ResultChannel, filter: FilterPolicy) -> (out: Vec<
    VerifyErr,
>)
    requires
        !channel_send_open(*old(chan)),
    ensures
        out@ == admitted(channel_queue(*old(chan)), filter),
        channel_queue(*final (chan)).len() == 0,
{
    let mut out: Vec<VerifyErr> = Vec::new();
    let ghost q0 = channel_queue(*chan);
    let ghost mut processed: Seq<VerifyErr> = Seq::<VerifyErr>::empty();
    proof {
        assert(processed + channel_queue(*chan) =~= q0);
        assert(admitted(processed, filter) =~= out@);
    }
    loop
        invariant
            !channel_send_open(*chan),
            processed + channel_queue(*chan) == q0,
            out@ == admitted(processed, filter),
        ensures
            channel_queue(*final (chan)).len() == 0,
            out@ == admitted(q0, filter),
        decreases channel_queue(*chan).len(),
    {
        match chan.try_recv() {
            RecvPoll::Item(e) => {
                let ghost ge = e;
                proof {
                    assert(processed.push(ge) + channel_queue(*chan) =~= q0);
                    lemma_admitted_push(processed, ge, filter);
                }
                let keep = filter.apply(&e.kind);
                if keep {
                    out.push(e);
                }
                proof {
                    processed = processed.push(ge);
                }
            },
            RecvPoll::Pending => {
                proof {
                    // the sender is gone, so an empty poll can only be Closed
                    assert(false);
                }
            },
            RecvPoll::Closed => {
                proof {
                    assert(processed + channel_queue(*chan) =~= processed);
                }
                break ;
            },
        }
    }
    out
}

/// Runs one whole verification: walks the tree under `src_path`, classifies
/// every non-directory entry against its derived path under `dst_path`,
/// counts every record — one per enumerated entry — and hands each
/// filter-admitted record to the observer, in traversal order. Returns the
/// per-kind counts, whose total is the number of entries enumerated.
pub fn verify_path_with_filtered_logger<L: VerifyErrLogger>(
    src_path: &str,
    dst_path: &str,
    log: &mut L,
    filter: FilterPolicy,
) -> (s: VerifyErrStats)
    ensures
        exists|entries: Seq<String>, recs: Seq<VerifyErr>|
            {
                &&& #[trigger] records_for_entries(recs, entries, src_path@, dst_path@)
                &&& stats_match(s, recs)
                &&& s.total_spec() == recs.len() == entries.len()
            },
{
    let mut chan = ResultChannel::new();
    verify_path_async(src_path, dst_path, &mut chan);
    chan.close_sender();
    let ghost recs = channel_queue(chan);
    proof {
        assert(recs.skip(0) =~= recs);
        assert(recs.len() <= usize::MAX <= u64::MAX);
    }
    let s = drain_stats(&mut chan, filter, log);
    proof {
        let entries = choose|entries: Seq<String>|
            #[trigger] records_for_entries(recs, entries, src_path@, dst_path@);
        assert(records_for_entries(recs, entries, src_path@, dst_path@) && stats_match(s, recs)
            && s.total_spec() == recs.len() == entries.len());
    }
    s
}

/// Runs one whole verification with the accept-all policy: the observer sees
/// every record.
pub fn verify_path_with_logger<L: VerifyErrLogger>(
    src_path: &str,
    dst_path: &str,
    log: &mut L,
) -> (s: VerifyErrStats)
    ensures
        exists|entries: Seq<String>, recs: Seq<VerifyErr>|
            {
                &&& #[trigger] records_for_entries(recs, entries, src_path@, dst_path@)
                &&& stats_match(s, recs)
                &&& s.total_spec() == recs.len() == entries.len()
            },
{
    verify_path_with_filtered_logger(src_path, dst_path, log, FilterPolicy::AcceptAll)
}

/// Runs one whole verification and returns the filter-admitted records
/// themselves, in traversal order.
pub fn verify_path_filtered(src_path: &str, dst_path: &str, filter: FilterPolicy) -> (out: Vec<
    VerifyErr,
>)
    ensures
        exists|entries: Seq<String>, recs: Seq<VerifyErr>|
            #[trigger] records_for_entries(recs, entries, src_path@, dst_path@) && out@
                == admitted(recs, filter),
{
    let mut chan = ResultChannel::new();
    verify_path_async(src_path, dst_path, &mut chan);
    chan.close_sender();
    let ghost recs = channel_queue(chan);
    proof {
        assert(recs.skip(0) =~= recs);
    }
    let out = drain_filtered_records(&mut chan, filter);
    proof {
        let entries = choose|entries: Seq<String>|
            #[trigger] records_for_entries(recs, entries, src_path@, dst_path@);
        assert(records_for_entries(recs, entries, src_path@, dst_path@) && out@ == admitted(
            recs,
            filter,
        ));
    }
    out
}

/// Runs one whole verification and returns every record — one per enumerated
/// entry — in traversal order.
pub fn verify_path(src_path: &str, dst_path: &str) -> (out: Vec<VerifyErr>)
    ensures
        exists|entries: Seq<String>, recs: Seq<VerifyErr>|
            #[trigger] records_for_entries(recs, entries, src_path@, dst_path@) && out@ == recs,
{
    let out = verify_path_filtered(src_path, dst_path, FilterPolicy::AcceptAll);
    proof {
        let (entries, recs): (Seq<String>, Seq<VerifyErr>) = choose|
            entries: Seq<String>,
            recs: Seq<VerifyErr>,
        |
            #[trigger] records_for_entries(recs, entries, src_path@, dst_path@) && out@
                == admitted(recs, FilterPolicy::AcceptAll);
        lemma_filter_independence(recs);
        assert(records_for_entries(recs, entries, src_path@, dst_path@) && out@ == recs);
    }
    out
}

} // verus!
